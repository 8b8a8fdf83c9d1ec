use vstd::prelude::*;

verus! {

/// What a path ends in once it stops bouncing.
#[derive(Clone, Copy, Debug, PartialEq, Eq, Structural)]
pub enum Terminal {
    /// No light is gathered: the bounce budget ran out or the surface absorbed the ray.
    Black,
    /// The ray escaped the scene and picks up the sky gradient.
    Sky,
}

/// What the integrator does next with the ray in hand.
#[derive(Clone, Copy, Debug, PartialEq, Eq, Structural)]
pub enum Step {
    /// Stop: the path's color is its attenuation times this terminal color.
    Finish(Terminal),
    /// Intersect the ray against the scene, with this many bounces left.
    Trace(u64),
}

/// What intersecting a ray against the scene and scattering at the hit gave.
#[derive(Clone, Copy, Debug, PartialEq, Eq, Structural)]
pub enum Outcome {
    /// No primitive was hit within the queried interval.
    Missed,
    /// A primitive was hit and its material absorbed the ray.
    Absorbed,
    /// A primitive was hit and its material scattered the ray.
    Scattered,
}

/// Decides, before any intersection, whether a ray with `depth` bounces left is traced.
pub fn begin(depth: u64) -> (r: Step)
    ensures
        r == begin_spec(depth as nat),
        depth == 0 ==> r == Step::Finish(Terminal::Black),
{
    if depth == 0 {
        Step::Finish(Terminal::Black)
    } else {
        Step::Trace(depth)
    }
}

/// Decides what follows the outcome of tracing a ray that had `depth` bounces left.
/// A scattered ray is traced on with one bounce fewer, after its attenuation is applied.
pub fn advance(depth: u64, outcome: Outcome) -> (r: Step)
    requires
        depth > 0,
    ensures
        outcome == Outcome::Missed ==> r == Step::Finish(Terminal::Sky),
        outcome == Outcome::Absorbed ==> r == Step::Finish(Terminal::Black),
        outcome == Outcome::Scattered ==> r == begin_spec((depth - 1) as nat),
{
    match outcome {
        Outcome::Missed => Step::Finish(Terminal::Sky),
        Outcome::Absorbed => Step::Finish(Terminal::Black),
        Outcome::Scattered => begin(depth - 1),
    }
}

/// The step taken for a ray with `depth` bounces left, before it is intersected.
pub open spec fn begin_spec(depth: nat) -> Step {
    if depth == 0 {
        Step::Finish(Terminal::Black)
    } else {
        Step::Trace(depth as u64)
    }
}

} // verus!
