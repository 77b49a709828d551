//! The rules of a small whack-a-mole game in which cats peek out of holes.
//!
//! Holes appear on the screen, the player swings a hammer that follows the
//! mouse, and every hole ends in one of two ways: it is struck while the
//! hammer covers it, or it outlives its countdown and the cat escapes. This
//! crate holds the countdown, the bookkeeping of those two endings and the
//! text shown for them; drawing, input and the frame loop belong to the
//! program around it.

pub mod arena;
pub mod clock;
pub mod score;
pub mod text;
