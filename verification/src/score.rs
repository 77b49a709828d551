//! The score, and the two ways in which a hole ends.

use crate::clock::Countdown;
use crate::text::decimal;
use crate::text::decimal_text;
use bevy_ecs::entity::Entity;
use vstd::prelude::*;

verus! {

/// The engine's name for one thing on the screen. Nothing here looks
/// inside it; it is only handed on.
#[verifier::external_type_specification]
#[verifier::external_body]
pub struct ExEntity(bevy_ecs::entity::Entity);

/// Word that a hole is done with and has to leave the screen.
#[derive(Clone, Copy, Debug, PartialEq, Eq)]
pub struct HoleClosed {
    pub hole: Entity,
}

/// The two counters of a game. The methods below only ever raise them.
#[derive(Clone, Copy, Debug, PartialEq, Eq)]
pub struct Scoreboard {
    /// Cats that were struck.
    pub hits: usize,
    /// Cats that got away.
    pub escapes: usize,
}

impl Scoreboard {
    /// The score at the start of a game: nothing struck, nothing escaped.
    pub fn new() -> (score: Scoreboard)
        ensures
            score.hits == 0,
            score.escapes == 0,
    {
        Scoreboard { hits: 0, escapes: 0 }
    }

    /// A click of the hammer, judged against one hole. `covered` says
    /// whether the hammer lies within the hole's rectangle. A covered hole
    /// counts as a hit and is closed; any other is left alone.
    pub fn strike(&mut self, hole: Entity, covered: bool) -> (closed: Option<HoleClosed>)
        requires
            covered ==> old(self).hits < usize::MAX,
        ensures
            closed == if covered {
                Some(HoleClosed { hole })
            } else {
                None
            },
            final(self).hits == old(self).hits + if covered {
                1int
            } else {
                0int
            },
            final(self).escapes == old(self).escapes,
            final(self).hits >= old(self).hits,
    {
        if covered {
            self.hits = self.hits + 1;
            Some(HoleClosed { hole })
        } else {
            None
        }
    }

    /// One frame in the life of a hole: `nanos` nanoseconds pass on its
    /// countdown. In the frame in which the countdown runs out, the cat
    /// counts as escaped and the hole is closed. That happens once for a
    /// hole: on a countdown that had run out before, nothing is counted
    /// and nothing is closed, however long the hole stays on the screen.
    pub fn retract(&mut self, hole: Entity, countdown: &mut Countdown, nanos: u64) -> (closed:
        Option<HoleClosed>)
        requires
            old(countdown).runs_out_within(nanos as nat) ==> old(self).escapes < usize::MAX,
        ensures
            final(countdown).elapsed() == old(countdown).after(nanos as nat),
            closed == if old(countdown).runs_out_within(nanos as nat) {
                Some(HoleClosed { hole })
            } else {
                None
            },
            final(self).escapes == old(self).escapes + if closed is Some {
                1int
            } else {
                0int
            },
            final(self).hits == old(self).hits,
            final(self).escapes >= old(self).escapes,
    {
        let was_out: bool = countdown.has_run_out();
        let is_out: bool = countdown.advance(nanos);
        if !was_out && is_out {
            self.escapes = self.escapes + 1;
            Some(HoleClosed { hole })
        } else {
            None
        }
    }

    /// The number shown in front of the line that counts the struck cats.
    pub fn hits_text(&self) -> (text: String)
        ensures
            text@ == decimal(self.hits as nat),
    {
        decimal_text(self.hits)
    }

    /// The number shown in front of the line that counts the escaped cats.
    pub fn escapes_text(&self) -> (text: String)
        ensures
            text@ == decimal(self.escapes as nat),
    {
        decimal_text(self.escapes)
    }
}

} // verus!
