//! The pixels of a rendered image.

use vstd::prelude::*;

verus! {

/// Bytes of one pixel.
pub const PIXEL_BYTES: usize = 4;

/// The column and the row of pixel number `i`.
pub open spec fn place_of(i: int, width: int) -> (int, int) {
    (i % width, i / width)
}

/// The bytes of a pixel of `color`.
pub open spec fn pixel_of(color: Seq<u8>) -> Seq<u8> {
    seq![255u8, color[1], color[2], color[3]]
}

/// How many bytes the pixels of an image take.
pub fn pixel_buffer_len(width: u32, height: u32) -> (len: usize)
    requires
        width * height <= u32::MAX,
        PIXEL_BYTES * (width * height) <= usize::MAX,
    ensures
        len == PIXEL_BYTES * (width * height),
        len == 4 * (width * height),
{
    let pixels: usize = (width * height) as usize;
    PIXEL_BYTES * pixels
}

/// The place of pixel number `i` in an image of `width`: its column and its row.
pub fn pixel_place(i: usize, width: u32) -> (place: (u32, u32))
    requires
        width > 0,
        i <= u32::MAX,
    ensures
        place.0 == i % (width as usize),
        place.1 == i / (width as usize),
        place.0 == place_of(i as int, width as int).0,
        place.1 == place_of(i as int, width as int).1,
{
    let i: u32 = i as u32;
    (i % width, i / width)
}

/// Writes the color of a pixel: its red is always full.
pub fn write_pixel(chunk: &mut [u8], color: [u8; 4])
    requires
        old(chunk)@.len() == PIXEL_BYTES,
    ensures
        final(chunk)@ == seq![255u8, color@[1], color@[2], color@[3]],
        final(chunk)@ == pixel_of(color@),
{
    chunk[0] = 255u8;
    chunk[1] = color[1];
    chunk[2] = color[2];
    chunk[3] = color[3];
    assert(chunk@ =~= seq![255u8, color@[1], color@[2], color@[3]]);
}

/// Renders pixel number `i` of an image of `width` into its bytes, where `trace` gives the color at
/// a column and a row.
pub fn render_pixel<F: Fn(u32, u32) -> [u8; 4]>(
    i: usize,
    chunk: &mut [u8],
    width: u32,
    trace: F,
)
    requires
        width > 0,
        i <= u32::MAX,
        old(chunk)@.len() == PIXEL_BYTES,
        call_requires(trace, ((i % width as usize) as u32, (i / width as usize) as u32)),
    ensures
        exists|color: [u8; 4]|
            #[trigger] call_ensures(
                trace,
                ((i % width as usize) as u32, (i / width as usize) as u32),
                color,
            ) && final(chunk)@ == seq![255u8, color@[1], color@[2], color@[3]],
{
    let (x, y) = pixel_place(i, width);
    let color: [u8; 4] = trace(x, y);
    write_pixel(chunk, color);
}

/// The part of memory that holds the pixels, as 32-bit addresses.
pub fn image_range(base: usize, len: usize) -> (range: (u32, u32))
    requires
        base + len <= usize::MAX,
    ensures
        range.0 == base as u32,
        range.1 == (base + len) as u32,
        base + len <= u32::MAX ==> range.0 == base && range.1 == base + len,
{
    (base as u32, (base + len) as u32)
}

/// Every place of an image is that of one pixel: number `y * width + x` for column `x` of row `y`.
pub proof fn law_every_place_is_one_pixel(i: int, x: int, y: int, width: int, height: int)
    requires
        0 < width,
        0 <= x < width,
        0 <= y < height,
        0 <= i < width * height,
    ensures
        0 <= y * width + x < width * height,
        (i % width == x && i / width == y) <==> i == y * width + x,
        0 <= i % width < width,
        0 <= i / width < height,
{
    assert(0 <= y * width + x < width * height) by (nonlinear_arith)
        requires
            0 < width,
            0 <= x < width,
            0 <= y < height,
    ;
    vstd::arithmetic::div_mod::lemma_fundamental_div_mod(i, width);
    assert(width * (i / width) == (i / width) * width) by (nonlinear_arith);
    if i == y * width + x {
        vstd::arithmetic::div_mod::lemma_fundamental_div_mod_converse(i, width, y, x);
    }
    assert(0 <= i / width < height) by (nonlinear_arith)
        requires
            0 < width,
            0 <= i < width * height,
    ;
}

/// A pixel is found again by its place: its number is its row times the width, and its column.
pub proof fn law_place_gives_the_pixel_back(i: int, width: int)
    requires
        0 <= i,
        0 < width,
    ensures
        0 <= place_of(i, width).0 < width,
        0 <= place_of(i, width).1,
        place_of(i, width).1 * width + place_of(i, width).0 == i,
{
    vstd::arithmetic::div_mod::lemma_fundamental_div_mod(i, width);
    assert(width * (i / width) == (i / width) * width) by (nonlinear_arith);
    assert(0 <= i / width) by (nonlinear_arith)
        requires
            0 <= i,
            0 < width,
    ;
}

/// A pixel has four bytes: full red, and green, blue and alpha of its color.
pub proof fn law_pixels_are_full_red(color: Seq<u8>)
    requires
        color.len() == 4,
    ensures
        PIXEL_BYTES == 4,
        pixel_of(color).len() == 4,
        pixel_of(color)[0] == 255,
        forall|k: int| 1 <= k < 4 ==> #[trigger] pixel_of(color)[k] == color[k],
{
}

} // verus!
