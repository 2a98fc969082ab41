//! The region filter: blacks out every pixel of a bitmap that is not
//! text-like and leaves the others as they are.

use crate::color::{is_text_like, text_like};
use vstd::prelude::*;

verus! {

/// One pixel: red, green, blue and alpha.
#[derive(Clone, Copy, Debug, PartialEq, Eq, Structural)]
pub struct Rgba {
    pub r: u8,
    pub g: u8,
    pub b: u8,
    pub a: u8,
}

/// A bitmap, its pixels stored row by row from the top.
#[derive(Clone, Debug, PartialEq, Eq)]
pub struct Bitmap {
    pub width: u32,
    pub height: u32,
    pub pixels: Vec<Rgba>,
}

impl Bitmap {
    /// The pixel store holds exactly `width * height` pixels.
    pub open spec fn wf(self) -> bool {
        self.pixels@.len() == self.width * self.height
    }

    /// A bitmap of the given size over `pixels`, or `None` when their
    /// number is not `width * height`.
    pub fn new(width: u32, height: u32, pixels: Vec<Rgba>) -> (res: Option<Bitmap>)
        ensures
            res is Some <==> pixels@.len() == width * height,
            res matches Some(bitmap) ==> bitmap == (Bitmap { width, height, pixels })
                && bitmap.wf(),
    {
        proof {
            vstd::arithmetic::mul::lemma_mul_upper_bound(
                width as int,
                u32::MAX as int,
                height as int,
                u32::MAX as int,
            );
        }
        let count: u64 = (width as u64) * (height as u64);
        if pixels.len() as u64 == count {
            Some(Bitmap { width, height, pixels })
        } else {
            None
        }
    }
}

/// Opaque black, the colour that replaces a rejected pixel.
pub open spec fn black() -> Rgba {
    Rgba { r: 0, g: 0, b: 0, a: 255 }
}

/// What the filter makes of one pixel, whatever its neighbours are: a
/// text-like pixel is kept with its alpha, any other becomes opaque black.
pub open spec fn filter_pixel(p: Rgba) -> Rgba {
    if text_like(p.r, p.g, p.b) {
        p
    } else {
        black()
    }
}

/// What the filter makes of a run of pixels.
pub open spec fn filtered(pixels: Seq<Rgba>) -> Seq<Rgba> {
    Seq::new(pixels.len(), |i: int| filter_pixel(pixels[i]))
}

/// Every pixel is opaque black or text-like, as after filtering.
pub open spec fn is_filtered(pixels: Seq<Rgba>) -> bool {
    forall|i: int|
        0 <= i < pixels.len() ==> {
            let p = #[trigger] pixels[i];
            p == black() || text_like(p.r, p.g, p.b)
        }
}

/// Produces a new bitmap of the same size in which every pixel is the
/// filtered form of the pixel at the same place. The input is left as it is.
pub fn remove_not_text(img: &Bitmap) -> (res: Bitmap)
    ensures
        res.width == img.width,
        res.height == img.height,
        res.pixels@ == filtered(img.pixels@),
        img.wf() ==> res.wf(),
{
    let mut out: Vec<Rgba> = Vec::with_capacity(img.pixels.len());
    let mut i: usize = 0;
    while i < img.pixels.len()
        invariant
            i <= img.pixels.len(),
            out@.len() == i,
            forall|k: int| 0 <= k < i ==> #[trigger] out@[k] == filter_pixel(img.pixels@[k]),
        decreases img.pixels.len() - i,
    {
        let color: Rgba = img.pixels[i];
        if !is_text_like(color.r, color.g, color.b) {
            out.push(Rgba { r: 0, g: 0, b: 0, a: 255 });
        } else {
            out.push(color);
        }
        i += 1;
    }
    assert(out@ =~= filtered(img.pixels@));
    Bitmap { width: img.width, height: img.height, pixels: out }
}

/// Opaque black is never text-like: its value lies under the band.
pub proof fn lemma_black_rejected()
    ensures
        !text_like(0, 0, 0),
        filter_pixel(black()) == black(),
{
}

/// What the filter produced is a filtered run.
pub proof fn lemma_filtered_is_filtered(pixels: Seq<Rgba>)
    ensures
        is_filtered(filtered(pixels)),
{
}

/// Filtering leaves a filtered run unchanged.
pub proof fn lemma_filter_keeps_filtered(pixels: Seq<Rgba>)
    requires
        is_filtered(pixels),
    ensures
        filtered(pixels) == pixels,
{
    lemma_black_rejected();
    assert(filtered(pixels) =~= pixels);
}

/// Filtering twice gives what filtering once gives.
pub proof fn lemma_filter_idempotent(pixels: Seq<Rgba>)
    ensures
        filtered(filtered(pixels)) == filtered(pixels),
{
    lemma_filtered_is_filtered(pixels);
    lemma_filter_keeps_filtered(filtered(pixels));
}

} // verus!
