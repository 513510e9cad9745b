//! Mapping from grid coordinates to screen coordinates. The renderer draws
//! each grid cell as a square block of `BLOCK_SIZE` screen units.

use vstd::prelude::*;

verus! {

/// Size in screen units of one grid cell.
pub const BLOCK_SIZE: u32 = 25;

/// Screen coordinate of a grid coordinate: the coordinate scaled by the block
/// size, clamped to the `u32` range (negative coordinates give 0, coordinates
/// past the range give `u32::MAX`).
pub open spec fn coord_u32_spec(c: int) -> int {
    if c <= 0 {
        0
    } else if c * 25 > u32::MAX {
        u32::MAX as int
    } else {
        c * 25
    }
}

/// Converts a grid coordinate to a screen coordinate, used for the window size.
pub fn to_coord_u32(game_coord: i32) -> (r: u32)
    ensures
        r == coord_u32_spec(game_coord as int),
{
    if game_coord <= 0 {
        0
    } else {
        let wide: u64 = (game_coord as u64) * 25;
        if wide > u32::MAX as u64 {
            u32::MAX
        } else {
            wide as u32
        }
    }
}

} // verus!
