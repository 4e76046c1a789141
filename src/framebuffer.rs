//! Byte layout of rendered images.
//!
//! Pixels arrive as 8-bit channel triples. An image is stored top row first,
//! each row left to right; the rows of an image with `height` rows are the
//! scanlines `height - 1` down to `0`, since scanline `j` lies at vertical
//! image-plane coordinate `j / height`, measured upwards.
use vstd::prelude::*;

verus! {

/// Alpha value of a fully opaque pixel.
pub const OPAQUE: u8 = 255;

/// One quantised pixel: red, green and blue channel values.
#[derive(PartialEq, Eq, Structural, Clone, Copy, Debug)]
pub struct Pixel {
    pub r: u8,
    pub g: u8,
    pub b: u8,
}

impl Pixel {
    pub fn new(r: u8, g: u8, b: u8) -> (p: Pixel)
        ensures
            p == (Pixel { r, g, b }),
    {
        Pixel { r, g, b }
    }
}

/// `out` holds the channels of `pixels` in order, three bytes per pixel.
pub open spec fn is_rgb_layout(pixels: Seq<Pixel>, out: Seq<u8>) -> bool {
    &&& out.len() == 3 * pixels.len()
    &&& forall|k: int|
        0 <= k < pixels.len() ==> {
            &&& out[3 * k] == (#[trigger] pixels[k]).r
            &&& out[3 * k + 1] == pixels[k].g
            &&& out[3 * k + 2] == pixels[k].b
        }
}

/// `out` holds the channels of `pixels` in order, four bytes per pixel, the
/// fourth being `OPAQUE`.
pub open spec fn is_rgba_layout(pixels: Seq<Pixel>, out: Seq<u8>) -> bool {
    &&& out.len() == 4 * pixels.len()
    &&& forall|k: int|
        0 <= k < pixels.len() ==> {
            &&& out[4 * k] == (#[trigger] pixels[k]).r
            &&& out[4 * k + 1] == pixels[k].g
            &&& out[4 * k + 2] == pixels[k].b
            &&& out[4 * k + 3] == OPAQUE
        }
}

/// Packs pixels into an RGB byte buffer.
pub fn rgb_bytes(pixels: &Vec<Pixel>) -> (out: Vec<u8>)
    requires
        pixels.len() <= usize::MAX / 3,
    ensures
        is_rgb_layout(pixels@, out@),
{
    let mut out: Vec<u8> = Vec::new();
    let mut i: usize = 0;
    while i < pixels.len()
        invariant
            i <= pixels.len() <= usize::MAX / 3,
            out@.len() == 3 * i,
            forall|k: int|
                0 <= k < i ==> {
                    &&& out@[3 * k] == (#[trigger] pixels@[k]).r
                    &&& out@[3 * k + 1] == pixels@[k].g
                    &&& out@[3 * k + 2] == pixels@[k].b
                },
        decreases pixels.len() - i,
    {
        let p = pixels[i];
        out.push(p.r);
        out.push(p.g);
        out.push(p.b);
        i = i + 1;
    }
    out
}

/// Packs pixels into an RGBA byte buffer, every pixel opaque.
pub fn rgba_bytes(pixels: &Vec<Pixel>) -> (out: Vec<u8>)
    requires
        pixels.len() <= usize::MAX / 4,
    ensures
        is_rgba_layout(pixels@, out@),
{
    let mut out: Vec<u8> = Vec::new();
    let mut i: usize = 0;
    while i < pixels.len()
        invariant
            i <= pixels.len() <= usize::MAX / 4,
            out@.len() == 4 * i,
            forall|k: int|
                0 <= k < i ==> {
                    &&& out@[4 * k] == (#[trigger] pixels@[k]).r
                    &&& out@[4 * k + 1] == pixels@[k].g
                    &&& out@[4 * k + 2] == pixels@[k].b
                    &&& out@[4 * k + 3] == OPAQUE
                },
        decreases pixels.len() - i,
    {
        let p = pixels[i];
        out.push(p.r);
        out.push(p.g);
        out.push(p.b);
        out.push(OPAQUE);
        i = i + 1;
    }
    out
}

/// The scanlines of an image with `height` rows, in storage order: the top
/// scanline, `height - 1`, first.
pub fn scanline_order(height: u32) -> (rows: Vec<u32>)
    ensures
        rows@.len() == height,
        forall|k: int| 0 <= k < height ==> #[trigger] rows@[k] == height - 1 - k,
{
    let mut rows: Vec<u32> = Vec::new();
    let mut j: u32 = height;
    while j > 0
        invariant
            j <= height,
            rows@.len() == height - j,
            forall|k: int| 0 <= k < height - j ==> #[trigger] rows@[k] == height - 1 - k,
        decreases j,
    {
        j = j - 1;
        rows.push(j);
    }
    rows
}

} // verus!
