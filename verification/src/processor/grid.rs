//! Vision feature grid computation.
//!
//! Images are resized to a patch-aligned resolution before the vision encoder
//! splits them into square patches; neighbouring patches are then merged by the
//! spatial merge factor. Each cell of the resulting grid is one image feature.

use vstd::prelude::*;

use crate::util::text::{decimal, with_number, with_two_numbers};

verus! {

/// Spatial layout of the vision encoder output.
#[derive(Debug, Clone, Copy, PartialEq, Eq)]
pub struct VisionGrid {
    /// Number of feature columns.
    pub width: usize,
    /// Number of feature rows.
    pub height: usize,
}

/// Whether an image of `width` x `height` pixels can be cut into whole patches
/// that in turn merge into whole feature cells.
pub open spec fn grid_compatible(width: int, height: int, patch_size: int, merge: int) -> bool {
    &&& width % patch_size == 0
    &&& height % patch_size == 0
    &&& (width / patch_size) % merge == 0
    &&& (height / patch_size) % merge == 0
}

impl VisionGrid {
    /// Computes the feature grid of an image already resized to a multiple of
    /// the patch size.
    pub fn from_image_size(
        width: usize,
        height: usize,
        patch_size: usize,
        spatial_merge_size: usize,
    ) -> (result: Result<VisionGrid, crate::Error>)
        requires
            patch_size > 0,
            spatial_merge_size > 0,
        ensures
            result is Ok <==> grid_compatible(width as int, height as int, patch_size as int, spatial_merge_size as int),
            result matches Ok(grid) ==> {
                &&& grid.width == width / patch_size / spatial_merge_size
                &&& grid.height == height / patch_size / spatial_merge_size
            },
            result matches Err(e) ==> e matches crate::Error::ImageProcessing { reason } && reason@ == (if width
                % patch_size != 0 || height % patch_size != 0 {
                "image dimensions ("@ + decimal(width as nat) + "x"@ + decimal(height as nat) + ")"@ + (
                " are not divisible by patch size ("@ + decimal(patch_size as nat) + ")"@)
            } else {
                "patch grid ("@ + decimal((width / patch_size) as nat) + "x"@ + decimal((height / patch_size) as nat)
                    + ")"@ + (" is not divisible by spatial merge size ("@ + decimal(spatial_merge_size as nat)
                    + ")"@)
            }),
    {
        if width % patch_size != 0 || height % patch_size != 0 {
            let mut reason = with_two_numbers("image dimensions (", width as u64, "x", height as u64, ")");
            reason.append(with_number(" are not divisible by patch size (", patch_size as u64, ")").as_str());
            return Err(crate::Error::ImageProcessing { reason });
        }
        let patch_width = width / patch_size;
        let patch_height = height / patch_size;
        if patch_width % spatial_merge_size != 0 || patch_height % spatial_merge_size != 0 {
            let mut reason = with_two_numbers("patch grid (", patch_width as u64, "x", patch_height as u64, ")");
            reason.append(with_number(" is not divisible by spatial merge size (", spatial_merge_size as u64, ")").as_str());
            return Err(crate::Error::ImageProcessing { reason });
        }
        Ok(VisionGrid { width: patch_width / spatial_merge_size, height: patch_height / spatial_merge_size })
    }

    /// Returns the total number of vision features.
    pub fn feature_count(self) -> (n: usize)
        requires
            self.width * self.height <= usize::MAX,
        ensures
            n == self.width * self.height,
    {
        self.width * self.height
    }
}

} // verus!
