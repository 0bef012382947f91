//! Scaling of grid coordinates to pixel offsets for a renderer. Each grid
//! cell is drawn as a square block of a fixed number of pixels.

use vstd::prelude::*;

verus! {

/// Side of one grid block, in pixels.
pub const BLOCK_SIZE_PX: u64 = 25;

/// The pixel offset of a grid coordinate: the coordinate scaled by the block
/// size, clamped below at zero and above at `u32::MAX`.
pub open spec fn scaled_coord(game_coord: i32) -> u32 {
    if game_coord <= 0 {
        0u32
    } else if game_coord * (BLOCK_SIZE_PX as int) > u32::MAX {
        u32::MAX
    } else {
        (game_coord * (BLOCK_SIZE_PX as int)) as u32
    }
}

/// Scales a grid coordinate to a pixel offset, saturating at both ends of the
/// `u32` range.
pub fn to_coord_u32(game_coord: i32) -> (r: u32)
    ensures
        r == scaled_coord(game_coord),
{
    if game_coord <= 0 {
        0
    } else {
        let wide: u64 = (game_coord as u64) * BLOCK_SIZE_PX;
        if wide > u32::MAX as u64 {
            u32::MAX
        } else {
            wide as u32
        }
    }
}

} // verus!
