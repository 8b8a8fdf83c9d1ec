//! The decisions of a path tracer that can be stated over integers: how the integrator
//! spends its bounce budget, which primitive's hit is nearest, in what order rows are
//! rendered and which seed each pixel's generator gets, checks on a render's counts,
//! and the text of the plain image format.

pub mod integrator;
pub mod ppm;
pub mod render;
pub mod scene;
