use vstd::prelude::*;

verus! {

/// Why a render's configuration is refused before any work starts.
#[derive(Clone, Copy, Debug, PartialEq, Eq, Structural)]
pub enum PresetError {
    /// The image has no columns.
    ZeroWidth,
    /// The image has no rows.
    ZeroHeight,
    /// A pixel would be averaged over no samples.
    NoSamples,
}

/// Checks the counts of a render: the image must have pixels and each pixel a sample.
/// The width is looked at first, then the height, then the samples.
pub fn check_preset(width: u64, height: u64, samples_per_pixel: u64) -> (r: Result<(), PresetError>)
    ensures
        r is Ok <==> width > 0 && height > 0 && samples_per_pixel > 0,
        r == Err::<(), PresetError>(PresetError::ZeroWidth) <==> width == 0,
        r == Err::<(), PresetError>(PresetError::ZeroHeight) <==> width > 0 && height == 0,
        r == Err::<(), PresetError>(PresetError::NoSamples) <==> width > 0 && height > 0
            && samples_per_pixel == 0,
{
    if width == 0 {
        Err(PresetError::ZeroWidth)
    } else if height == 0 {
        Err(PresetError::ZeroHeight)
    } else if samples_per_pixel == 0 {
        Err(PresetError::NoSamples)
    } else {
        Ok(())
    }
}

/// The order in which rows are rendered and written: from the top row of the image,
/// whose vertical coordinate is largest, down to row 0.
pub fn scanline_rows(height: u64) -> (r: Vec<u64>)
    ensures
        r@.len() == height,
        forall|k: int| 0 <= k < height ==> r@[k] == height - 1 - k,
{
    let mut rows: Vec<u64> = Vec::new();
    let mut j: u64 = height;
    while j > 0
        invariant
            j <= height,
            rows@.len() == height - j,
            forall|k: int| 0 <= k < height - j ==> rows@[k] == height - 1 - k,
        decreases j,
    {
        j = j - 1;
        rows.push(j);
    }
    rows
}

/// The position of the pixel at `row` and `col` in an image `width` pixels wide,
/// counting along each row.
pub open spec fn pixel_index(width: nat, row: nat, col: nat) -> nat {
    row * width + col
}

/// The pixel lies in an image `width` pixels wide, and its position fits in 64 bits.
pub open spec fn pixel_in_image(width: nat, row: nat, col: nat) -> bool {
    col < width && pixel_index(width, row, col) <= u64::MAX
}

/// The seed of the random generator that the unit of work of one pixel owns.
pub open spec fn seed_of(base: u64, width: nat, row: nat, col: nat) -> u64 {
    ((base as nat + pixel_index(width, row, col)) % 0x1_0000_0000_0000_0000) as u64
}

/// The seed for the pixel at `row` and `col`: the render's base seed advanced by the
/// pixel's position, so that each unit of work has its own generator and a render with
/// the same base seed draws the same numbers for each pixel.
pub fn unit_seed(base: u64, width: u64, row: u64, col: u64) -> (r: u64)
    requires
        pixel_in_image(width as nat, row as nat, col as nat),
    ensures
        r == seed_of(base, width as nat, row as nat, col as nat),
{
    proof {
        assert(row * width <= row * width + col) by (nonlinear_arith)
            requires
                col >= 0;
    }
    let index: u64 = row * width + col;
    let r = base.wrapping_add(index);
    r
}

/// Two different pixels of one image never share a seed.
pub proof fn law_seeds_are_distinct(base: u64, width: nat, r1: nat, c1: nat, r2: nat, c2: nat)
    requires
        pixel_in_image(width, r1, c1),
        pixel_in_image(width, r2, c2),
        r1 != r2 || c1 != c2,
    ensures
        seed_of(base, width, r1, c1) != seed_of(base, width, r2, c2),
{
    let i1 = pixel_index(width, r1, c1);
    let i2 = pixel_index(width, r2, c2);
    if r1 == r2 {
        assert(i1 != i2);
    } else if r1 < r2 {
        assert(r1 * width + width <= r2 * width) by (nonlinear_arith)
            requires
                r1 < r2;
        assert(i1 < i2);
    } else {
        assert(r2 * width + width <= r1 * width) by (nonlinear_arith)
            requires
                r2 < r1;
        assert(i2 < i1);
    }
    assert(i1 != i2);
}

} // verus!
