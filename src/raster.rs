//! Raster order of the rendered image.
//!
//! Image rows are stored top to bottom, while the camera's vertical image
//! coordinate grows upwards. Image row `k` of an image `height` rows tall
//! therefore shows scene row `height - 1 - k`.

use vstd::prelude::*;

verus! {

/// The scene row shown by image row `image_row`.
pub open spec fn flipped(height: nat, image_row: nat) -> nat {
    (height - 1 - image_row) as nat
}

/// The scene row that image row `image_row` shows.
pub fn scene_row(height: u32, image_row: u32) -> (r: u32)
    requires
        image_row < height,
    ensures
        r == flipped(height as nat, image_row as nat),
        r < height,
{
    height - 1 - image_row
}

/// Flipping rows is its own inverse, so every scene row is drawn by exactly
/// one image row.
pub proof fn lemma_flip_is_involution(height: nat, image_row: nat)
    requires
        image_row < height,
    ensures
        flipped(height, image_row) < height,
        flipped(height, flipped(height, image_row)) == image_row,
{
}

/// Distinct image rows show distinct scene rows.
pub proof fn lemma_flip_injective(height: nat, a: nat, b: nat)
    requires
        a < height,
        b < height,
        a != b,
    ensures
        flipped(height, a) != flipped(height, b),
{
}

} // verus!
