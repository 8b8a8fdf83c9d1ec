use vstd::prelude::*;

verus! {

/// The ASCII decimal digits of `n`, most significant first, without leading zeros.
pub open spec fn decimal(n: nat) -> Seq<u8>
    decreases n,
{
    if n < 10 {
        seq![(48 + n) as u8]
    } else {
        decimal(n / 10).push((48 + n % 10) as u8)
    }
}

/// The header of a plain-text image: the format tag, the width and height, and the
/// largest channel value, each on a line of its own.
pub open spec fn header_text(width: nat, height: nat) -> Seq<u8> {
    seq![80u8, 51u8, 10u8] + decimal(width) + seq![32u8] + decimal(height) + seq![10u8]
        + seq![50u8, 53u8, 53u8, 10u8]
}

/// One pixel's line: its three channels in decimal, separated by spaces.
pub open spec fn pixel_text(r: u8, g: u8, b: u8) -> Seq<u8> {
    decimal(r as nat) + seq![32u8] + decimal(g as nat) + seq![32u8] + decimal(b as nat)
        + seq![10u8]
}

/// Appends the decimal digits of `n` to `out`.
pub fn push_decimal(out: &mut Vec<u8>, n: u64)
    ensures
        final(out)@ == old(out)@ + decimal(n as nat),
    decreases n,
{
    if n >= 10 {
        push_decimal(out, n / 10);
    }
    out.push((48 + n % 10) as u8);
    assert(final(out)@ =~= old(out)@ + decimal(n as nat));
}

/// The header of a plain-text image of `width` by `height` pixels.
pub fn encode_header(width: u64, height: u64) -> (r: Vec<u8>)
    ensures
        r@ == header_text(width as nat, height as nat),
{
    let mut out: Vec<u8> = Vec::new();
    out.push(80u8);
    out.push(51u8);
    out.push(10u8);
    push_decimal(&mut out, width);
    out.push(32u8);
    push_decimal(&mut out, height);
    out.push(10u8);
    out.push(50u8);
    out.push(53u8);
    out.push(53u8);
    out.push(10u8);
    assert(out@ =~= header_text(width as nat, height as nat));
    out
}

/// The line of one pixel whose channels are `r`, `g` and `b`.
pub fn encode_pixel(r: u8, g: u8, b: u8) -> (res: Vec<u8>)
    ensures
        res@ == pixel_text(r, g, b),
{
    let mut out: Vec<u8> = Vec::new();
    push_decimal(&mut out, r as u64);
    out.push(32u8);
    push_decimal(&mut out, g as u64);
    out.push(32u8);
    push_decimal(&mut out, b as u64);
    out.push(10u8);
    assert(out@ =~= pixel_text(r, g, b));
    out
}

} // verus!
