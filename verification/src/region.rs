//! The four capture regions of a reward screen and the cut-out that takes
//! one of them from a full screenshot.

use crate::filter::{Bitmap, Rgba};
use vstd::prelude::*;

verus! {

/// A rectangle by its top-left corner and its size, in pixels.
#[derive(Clone, Copy, Debug, PartialEq, Eq, Structural)]
pub struct Region {
    pub x: u32,
    pub y: u32,
    pub width: u32,
    pub height: u32,
}

/// How many regions a reward screen has, and so how many workers there are.
pub const REGION_COUNT: usize = 4;

/// The region in which the name of reward `i` is shown, counted from the
/// left: 250 by 50 pixels, all on one line of the screen.
pub open spec fn item_region_spec(i: int) -> Region {
    Region {
        x: if i == 0 {
            470
        } else if i == 1 {
            720
        } else if i == 2 {
            960
        } else {
            1200
        },
        y: 410,
        width: 250,
        height: 50,
    }
}

/// The region of reward `i` as a value.
pub fn item_region(i: usize) -> (res: Region)
    requires
        i < REGION_COUNT,
    ensures
        res == item_region_spec(i as int),
{
    let x: u32 = if i == 0 {
        470
    } else if i == 1 {
        720
    } else if i == 2 {
        960
    } else {
        1200
    };
    Region { x, y: 410, width: 250, height: 50 }
}

pub open spec fn lesser(a: int, b: int) -> int {
    if a <= b {
        a
    } else {
        b
    }
}

/// The part of `r` that lies inside an image of the given size: the corner
/// is pulled back to the image's edge, then the size is cut to what is left
/// from there.
pub open spec fn clip(width: u32, height: u32, r: Region) -> Region {
    let x = lesser(r.x as int, width as int);
    let y = lesser(r.y as int, height as int);
    Region {
        x: x as u32,
        y: y as u32,
        width: lesser(r.width as int, width - x) as u32,
        height: lesser(r.height as int, height - y) as u32,
    }
}

/// Place of the pixel at column `col` of row `row` in a row-by-row store.
pub open spec fn at(width: int, col: int, row: int) -> int {
    row * width + col
}

/// `out` is the cut-out of `img` at `r`: it has the size of the clipped
/// rectangle, and each of its pixels is the pixel of `img` at the same
/// place counted from the clipped corner.
pub open spec fn is_crop_of(out: Bitmap, img: Bitmap, r: Region) -> bool {
    let c = clip(img.width, img.height, r);
    &&& out.wf()
    &&& out.width == c.width
    &&& out.height == c.height
    &&& forall|col: int, row: int|
        0 <= col < c.width && 0 <= row < c.height ==> out.pixels@[#[trigger] at(
            c.width as int,
            col,
            row,
        )] == img.pixels@[at(img.width as int, c.x + col, c.y + row)]
}

proof fn lemma_at_bounds(width: int, height: int, col: int, row: int)
    requires
        0 <= col < width,
        0 <= row < height,
    ensures
        0 <= at(width, col, row) < height * width,
        row * width <= at(width, col, row) < (row + 1) * width,
        (row + 1) * width == row * width + width,
        height * width == width * height,
        0 <= row * width,
{
    assert(height * width == width * height) by (nonlinear_arith);
    assert(row * width >= 0) by (nonlinear_arith)
        requires
            row >= 0,
            width >= 0,
    ;
    assert((row + 1) * width == row * width + width) by (nonlinear_arith);
    assert((row + 1) * width <= height * width) by (nonlinear_arith)
        requires
            row + 1 <= height,
            width >= 0,
    ;
}

/// Cuts the rectangle `r` out of `img`, clipped to the image.
pub fn crop(img: &Bitmap, r: Region) -> (res: Bitmap)
    requires
        img.wf(),
    ensures
        is_crop_of(res, *img, r),
{
    let x0: u32 = if r.x <= img.width { r.x } else { img.width };
    let y0: u32 = if r.y <= img.height { r.y } else { img.height };
    let cw: u32 = if r.width <= img.width - x0 { r.width } else { img.width - x0 };
    let ch: u32 = if r.height <= img.height - y0 { r.height } else { img.height - y0 };
    let iw: usize = img.width as usize;
    let total: usize = img.pixels.len();
    let mut out: Vec<Rgba> = Vec::new();
    let mut row: u32 = 0;
    while row < ch
        invariant
            img.wf(),
            total == img.pixels@.len(),
            iw == img.width,
            x0 + cw <= img.width,
            y0 + ch <= img.height,
            row <= ch,
            out@.len() == row * cw,
            forall|c: int, k: int|
                0 <= c < cw && 0 <= k < row ==> out@[#[trigger] at(cw as int, c, k)]
                    == img.pixels@[at(iw as int, x0 + c, y0 + k)],
        decreases ch - row,
    {
        let mut col: u32 = 0;
        while col < cw
            invariant
                img.wf(),
                total == img.pixels@.len(),
                iw == img.width,
                x0 + cw <= img.width,
                y0 + ch <= img.height,
                row < ch,
                col <= cw,
                out@.len() == row * cw + col,
                forall|c: int, k: int|
                    0 <= c < cw && 0 <= k < row ==> out@[#[trigger] at(cw as int, c, k)]
                        == img.pixels@[at(iw as int, x0 + c, y0 + k)],
                forall|c: int|
                    0 <= c < col ==> out@[#[trigger] at(cw as int, c, row as int)]
                        == img.pixels@[at(iw as int, x0 + c, y0 + row)],
            decreases cw - col,
        {
            proof {
                lemma_at_bounds(iw as int, img.height as int, x0 + col, y0 + row);
            }
            let idx: usize = (y0 + row) as usize * iw + (x0 + col) as usize;
            let ghost before = out@;
            out.push(img.pixels[idx]);
            proof {
                assert forall|c: int, k: int| 0 <= c < cw && 0 <= k < row implies out@[#[trigger] at(
                    cw as int,
                    c,
                    k,
                )] == img.pixels@[at(iw as int, x0 + c, y0 + k)] by {
                    lemma_at_bounds(cw as int, row as int, c, k);
                    assert(out@[at(cw as int, c, k)] == before[at(cw as int, c, k)]);
                }
                assert forall|c: int| 0 <= c < col + 1 implies out@[#[trigger] at(
                    cw as int,
                    c,
                    row as int,
                )] == img.pixels@[at(iw as int, x0 + c, y0 + row)] by {
                    if c < col {
                        assert(out@[at(cw as int, c, row as int)] == before[at(
                            cw as int,
                            c,
                            row as int,
                        )]);
                    }
                }
            }
            col += 1;
        }
        proof {
            assert((row + 1) * cw == row * cw + cw) by (nonlinear_arith);
        }
        row += 1;
    }
    proof {
        assert(ch * cw == cw * ch) by (nonlinear_arith);
    }
    Bitmap { width: cw, height: ch, pixels: out }
}

/// The cut-outs of the four item regions of a screenshot, in region order:
/// what is handed to worker 0, 1, 2 and 3.
pub fn region_crops(screenshot: &Bitmap) -> (res: Vec<Bitmap>)
    requires
        screenshot.wf(),
    ensures
        res@.len() == REGION_COUNT,
        forall|i: int|
            0 <= i < REGION_COUNT ==> is_crop_of(
                #[trigger] res@[i],
                *screenshot,
                item_region_spec(i),
            ),
{
    let mut crops: Vec<Bitmap> = Vec::new();
    let mut i: usize = 0;
    while i < REGION_COUNT
        invariant
            screenshot.wf(),
            i <= REGION_COUNT,
            crops@.len() == i,
            forall|k: int|
                0 <= k < i ==> is_crop_of(#[trigger] crops@[k], *screenshot, item_region_spec(k)),
        decreases REGION_COUNT - i,
    {
        crops.push(crop(screenshot, item_region(i)));
        i += 1;
    }
    crops
}

} // verus!
