//! The logical playing field.

use vstd::prelude::*;

verus! {

/// Width of the arena, in logical units.
pub const ARENA_WIDTH: u32 = 10;

/// Height of the arena, in logical units.
pub const ARENA_HEIGHT: u32 = 10;

/// The cell in the middle of the arena, where the hammer rests until the
/// mouse first moves: half the width and half the height, rounded down.
pub fn centre() -> (c: (u32, u32))
    ensures
        c.0 == ARENA_WIDTH / 2,
        c.1 == ARENA_HEIGHT / 2,
        c == (5u32, 5u32),
{
    (ARENA_WIDTH / 2, ARENA_HEIGHT / 2)
}

} // verus!
