use vstd::prelude::*;

verus! {

/// Largest channel value of an 8-bit image.
pub const MAX_CHANNEL: u32 = 255;

/// One output pixel: three 8-bit channels.
#[derive(Clone, Copy, Debug, PartialEq, Eq, Structural)]
pub struct Pixel {
    pub r: u8,
    pub g: u8,
    pub b: u8,
}

/// ASCII code of the digit `d` (0 through 9).
pub open spec fn digit_byte(d: nat) -> u8 {
    (48 + d) as u8
}

/// Decimal text of `n`, most significant digit first, with no leading zeros.
pub open spec fn decimal(n: nat) -> Seq<u8>
    decreases n,
{
    if n < 10 {
        seq![digit_byte(n)]
    } else {
        decimal(n / 10).push(digit_byte(n % 10))
    }
}

/// `P3`, then `<width> <height>`, then the largest channel value, one per line.
pub open spec fn header_text(width: nat, height: nat, max_value: nat) -> Seq<u8> {
    seq![80u8, 51u8, 10u8] + decimal(width) + seq![32u8] + decimal(height) + seq![10u8]
        + decimal(max_value) + seq![10u8]
}

/// `<r> <g> <b>` and a line break.
pub open spec fn pixel_text(p: Pixel) -> Seq<u8> {
    decimal(p.r as nat) + seq![32u8] + decimal(p.g as nat) + seq![32u8] + decimal(p.b as nat)
        + seq![10u8]
}

/// The lines of all pixels, in the order given.
pub open spec fn pixels_text(px: Seq<Pixel>) -> Seq<u8>
    decreases px.len(),
{
    if px.len() == 0 {
        seq![]
    } else {
        pixels_text(px.drop_last()) + pixel_text(px.last())
    }
}

/// A whole plain-text image: the header, then one line per pixel.
pub open spec fn image_text(width: nat, height: nat, px: Seq<Pixel>) -> Seq<u8> {
    header_text(width, height, MAX_CHANNEL as nat) + pixels_text(px)
}

/// Appends the decimal text of `n` to `out`.
pub fn push_decimal(out: &mut Vec<u8>, n: u32)
    ensures
        final(out)@ == old(out)@ + decimal(n as nat),
    decreases n,
{
    if n >= 10 {
        push_decimal(out, n / 10);
    }
    out.push(48u8 + (n % 10) as u8);
    assert(final(out)@ =~= old(out)@ + decimal(n as nat));
}

/// The header of an image of `width` by `height` pixels whose channels go up to `max_value`.
pub fn write_header(width: u32, height: u32, max_value: u32) -> (r: Vec<u8>)
    ensures
        r@ == header_text(width as nat, height as nat, max_value as nat),
{
    let mut out: Vec<u8> = Vec::new();
    out.push(80u8);
    out.push(51u8);
    out.push(10u8);
    push_decimal(&mut out, width);
    out.push(32u8);
    push_decimal(&mut out, height);
    out.push(10u8);
    push_decimal(&mut out, max_value);
    out.push(10u8);
    assert(out@ =~= header_text(width as nat, height as nat, max_value as nat));
    out
}

/// Appends the line of one pixel to `out`.
pub fn push_pixel(out: &mut Vec<u8>, p: Pixel)
    ensures
        final(out)@ == old(out)@ + pixel_text(p),
{
    let ghost start = out@;
    push_decimal(out, p.r as u32);
    out.push(32u8);
    push_decimal(out, p.g as u32);
    out.push(32u8);
    push_decimal(out, p.b as u32);
    out.push(10u8);
    assert(out@ =~= start + pixel_text(p));
}

/// The line of one pixel.
pub fn pixel_line(p: Pixel) -> (r: Vec<u8>)
    ensures
        r@ == pixel_text(p),
{
    let mut out: Vec<u8> = Vec::new();
    push_pixel(&mut out, p);
    assert(out@ =~= pixel_text(p));
    out
}

/// The whole image: header, then the pixels in the order given (top row first,
/// each row left to right).
pub fn encode_image(width: u32, height: u32, pixels: &Vec<Pixel>) -> (r: Vec<u8>)
    requires
        pixels@.len() == width as nat * height as nat,
    ensures
        r@ == image_text(width as nat, height as nat, pixels@),
{
    let mut out = write_header(width, height, MAX_CHANNEL);
    let ghost head = out@;
    let mut k: usize = 0;
    while k < pixels.len()
        invariant
            k <= pixels@.len(),
            out@ == head + pixels_text(pixels@.take(k as int)),
        decreases pixels@.len() - k,
    {
        push_pixel(&mut out, pixels[k]);
        assert(pixels@.take(k as int + 1).drop_last() =~= pixels@.take(k as int));
        k = k + 1;
        assert(out@ =~= head + pixels_text(pixels@.take(k as int)));
    }
    assert(pixels@.take(k as int) =~= pixels@);
    out
}

} // verus!
