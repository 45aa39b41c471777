//! The integer side of the generated starfield: where the pixels of one
//! star go, and how bright each is.

use vstd::prelude::*;

verus! {

/// Alpha of a star's center pixel.
pub const STAR_ALPHA_NEAR: u8 = 220;

/// Alpha of a star's edge pixels.
pub const STAR_ALPHA_FAR: u8 = 50;

/// One white pixel of a star.
#[derive(Debug, Clone, Copy, PartialEq, Eq)]
pub struct StarPixel {
    pub x: u32,
    pub y: u32,
    pub alpha: u8,
}

/// The `i`-th pixel of the star anchored at `(x, y)`: the 3 by 3 block
/// whose lower-right corner is the anchor, column by column from the
/// anchor leftwards, each column from the anchor row upwards. The middle
/// pixel is the bright one.
pub open spec fn star_pixel(x: u32, y: u32, i: int) -> StarPixel {
    let dx = i / 3;
    let dy = i % 3;
    StarPixel {
        x: (x - dx) as u32,
        y: (y - dy) as u32,
        alpha: if dx == 1 && dy == 1 { STAR_ALPHA_NEAR } else { STAR_ALPHA_FAR },
    }
}

/// The nine pixels of a star anchored at `(x, y)`.
pub fn star_pixels(x: u32, y: u32) -> (r: Vec<StarPixel>)
    requires
        x >= 2,
        y >= 2,
    ensures
        r@.len() == 9,
        forall|i: int| 0 <= i < 9 ==> #[trigger] r@[i] == star_pixel(x, y, i),
{
    let mut r: Vec<StarPixel> = Vec::new();
    let mut dx: u32 = 0;
    while dx < 3
        invariant
            0 <= dx <= 3,
            x >= 2,
            y >= 2,
            r@.len() == 3 * dx,
            forall|i: int| 0 <= i < 3 * dx ==> #[trigger] r@[i] == star_pixel(x, y, i),
        decreases 3 - dx,
    {
        let mut dy: u32 = 0;
        while dy < 3
            invariant
                0 <= dx < 3,
                0 <= dy <= 3,
                x >= 2,
                y >= 2,
                r@.len() == 3 * dx + dy,
                forall|i: int| 0 <= i < 3 * dx + dy ==> #[trigger] r@[i] == star_pixel(x, y, i),
            decreases 3 - dy,
        {
            let alpha = if dx == 1 && dy == 1 {
                STAR_ALPHA_NEAR
            } else {
                STAR_ALPHA_FAR
            };
            proof {
                let k = 3 * dx + dy;
                assert(k / 3 == dx as int && k % 3 == dy as int) by (nonlinear_arith)
                    requires
                        k == 3 * dx + dy,
                        0 <= dy < 3,
                        0 <= dx,
                ;
            }
            r.push(StarPixel { x: x - dx, y: y - dy, alpha });
            dy = dy + 1;
        }
        dx = dx + 1;
    }
    r
}

} // verus!
