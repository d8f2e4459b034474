//! The plain-text pixel format: a header `P3\n<width> <height>\n255\n`, then
//! one line `<r> <g> <b>\n` per pixel, channels written in decimal.
use vstd::prelude::*;

verus! {

/// The ASCII digits of `n` in decimal, most significant first, no leading zeros.
pub open spec fn decimal(n: nat) -> Seq<u8>
    decreases n,
{
    if n < 10 {
        seq![(48 + n) as u8]
    } else {
        decimal(n / 10).push((48 + n % 10) as u8)
    }
}

/// The header for an image of `width` by `height` pixels with 255 as the
/// largest channel value.
pub open spec fn header_text(width: nat, height: nat) -> Seq<u8> {
    seq![80u8, 51u8, 10u8] + decimal(width) + seq![32u8] + decimal(height) + seq![10u8, 50u8, 53u8, 53u8, 10u8]
}

/// The line for one pixel: the three channels in decimal, separated by spaces.
pub open spec fn pixel_text(p: [u8; 3]) -> Seq<u8> {
    decimal(p[0] as nat) + seq![32u8] + decimal(p[1] as nat) + seq![32u8] + decimal(p[2] as nat) + seq![10u8]
}

/// The lines of all pixels, in the order given.
pub open spec fn pixels_text(pixels: Seq<[u8; 3]>) -> Seq<u8>
    decreases pixels.len(),
{
    if pixels.len() == 0 {
        Seq::empty()
    } else {
        pixels_text(pixels.drop_last()) + pixel_text(pixels.last())
    }
}

/// Appends the decimal digits of `n`.
fn push_decimal(out: &mut Vec<u8>, n: u64)
    ensures
        final(out)@ == old(out)@ + decimal(n as nat),
    decreases n,
{
    if n >= 10 {
        push_decimal(out, n / 10);
    }
    out.push(48 + (n % 10) as u8);
    proof {
        assert(final(out)@ =~= old(out)@ + decimal(n as nat));
    }
}

/// The header of an image of `width` by `height` pixels.
pub fn header(width: u64, height: u64) -> (out: Vec<u8>)
    ensures
        out@ == header_text(width as nat, height as nat),
{
    let mut out: Vec<u8> = Vec::new();
    out.push(80);
    out.push(51);
    out.push(10);
    push_decimal(&mut out, width);
    out.push(32);
    push_decimal(&mut out, height);
    out.push(10);
    out.push(50);
    out.push(53);
    out.push(53);
    out.push(10);
    proof {
        assert(out@ =~= header_text(width as nat, height as nat));
    }
    out
}

/// Appends the line of one pixel.
pub fn push_pixel(out: &mut Vec<u8>, p: [u8; 3])
    ensures
        final(out)@ == old(out)@ + pixel_text(p),
{
    push_decimal(out, p[0] as u64);
    out.push(32);
    push_decimal(out, p[1] as u64);
    out.push(32);
    push_decimal(out, p[2] as u64);
    out.push(10);
    proof {
        assert(final(out)@ =~= old(out)@ + pixel_text(p));
    }
}

/// The whole file: the header of a `width` by `height` image, then the
/// line of each pixel in the order given.
pub fn encode(width: u64, height: u64, pixels: &Vec<[u8; 3]>) -> (out: Vec<u8>)
    ensures
        out@ == header_text(width as nat, height as nat) + pixels_text(pixels@),
{
    let mut out = header(width, height);
    let mut i: usize = 0;
    while i < pixels.len()
        invariant
            i <= pixels@.len(),
            out@ == header_text(width as nat, height as nat) + pixels_text(pixels@.subrange(0, i as int)),
        decreases pixels@.len() - i,
    {
        let ghost prefix = out@;
        push_pixel(&mut out, pixels[i]);
        proof {
            let s = pixels@.subrange(0, i + 1);
            assert(s.drop_last() =~= pixels@.subrange(0, i as int));
            assert(out@ =~= header_text(width as nat, height as nat) + pixels_text(s));
        }
        i = i + 1;
    }
    assert(pixels@.subrange(0, i as int) =~= pixels@);
    out
}

} // verus!
