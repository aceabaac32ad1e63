//! The texture that is shown where the right one is missing.

use vstd::prelude::*;
use crate::constants::DEFAULT_TEXTURE_SIZE;

verus! {

/// Whether pixel `i` of the placeholder, counted row by row, is magenta;
/// the others are white. The right-hand part of each row is magenta in the
/// upper half of the picture, the left-hand part in the lower half.
pub open spec fn is_magenta(i: int) -> bool {
    (i % (DEFAULT_TEXTURE_SIZE as int) > DEFAULT_TEXTURE_SIZE / 2) != (i > DEFAULT_TEXTURE_SIZE
        * DEFAULT_TEXTURE_SIZE / 2)
}

/// The four bytes of a pixel: red, green, blue and opacity.
pub open spec fn pixel_bytes(magenta: bool) -> Seq<u8> {
    if magenta {
        seq![255u8, 0u8, 255u8, 255u8]
    } else {
        seq![255u8, 255u8, 255u8, 255u8]
    }
}

/// The pixels of the placeholder texture, row by row, four bytes each.
pub fn create_default_texture() -> (pixels: Vec<u8>)
    ensures
        pixels@.len() == 4 * DEFAULT_TEXTURE_SIZE * DEFAULT_TEXTURE_SIZE,
        forall|i: int|
            0 <= i < DEFAULT_TEXTURE_SIZE * DEFAULT_TEXTURE_SIZE ==> #[trigger] pixels@.subrange(
                4 * i,
                4 * i + 4,
            ) == pixel_bytes(is_magenta(i)),
{
    let width: u32 = 32;
    let height: u32 = 32;
    let mut pixels: Vec<u8> = Vec::new();
    let mut i: u32 = 0;
    while i < width * height
        invariant
            width == 32,
            height == 32,
            i <= width * height,
            pixels@.len() == 4 * i,
            forall|k: int|
                0 <= k < i ==> #[trigger] pixels@.subrange(4 * k, 4 * k + 4) == pixel_bytes(
                    is_magenta(k),
                ),
        decreases width * height - i,
    {
        let ghost before = pixels@;
        let magenta = (i % width > width / 2) != (i > width * height / 2);
        pixels.push(255);
        pixels.push(if magenta {
            0
        } else {
            255
        });
        pixels.push(255);
        pixels.push(255);
        proof {
            assert forall|k: int| 0 <= k < i implies #[trigger] pixels@.subrange(4 * k, 4 * k + 4)
                == pixel_bytes(is_magenta(k)) by {
                assert(pixels@.subrange(4 * k, 4 * k + 4) =~= before.subrange(4 * k, 4 * k + 4));
            }
        }
        i += 1;
    }
    pixels
}

} // verus!
