//! Time in the game: how often holes appear and how long each one lasts.

use bevy_core::Timer;
use std::time::Duration;
use vstd::prelude::*;

verus! {

/// A new hole appears every so many milliseconds.
pub const SPAWN_INTERVAL_MILLIS: u64 = 600;

/// A hole stays open for so many whole seconds before its cat escapes.
pub const HOLE_LIFESPAN_SECS: u64 = 1;

/// Nanoseconds in a second.
pub const NANOS_PER_SEC: u64 = 1_000_000_000;

/// The lifespan of a hole in nanoseconds.
pub const HOLE_LIFESPAN_NANOS: u64 = HOLE_LIFESPAN_SECS * NANOS_PER_SEC;

/// The longest span a `Duration` can hold, in nanoseconds: `u64::MAX` whole
/// seconds and one nanosecond short of another.
spec fn duration_max_nanos() -> nat {
    (u64::MAX * NANOS_PER_SEC + 999_999_999) as nat
}

/// A span of time that stops growing at `limit`.
pub open spec fn held_at(span: nat, limit: nat) -> nat {
    if span >= limit {
        limit
    } else {
        span
    }
}

/// The engine's timer. Its fields are private to the engine, so all that is
/// known of a timer here is what the trusted contracts below say.
#[verifier::external_type_specification]
#[verifier::external_body]
pub struct ExTimer(bevy_core::Timer);

/// What `Timer::elapsed` returns, in nanoseconds.
pub uninterp spec fn timer_elapsed(timer: Timer) -> nat;

/// What `Timer::duration` returns, in nanoseconds.
pub uninterp spec fn timer_duration(timer: Timer) -> nat;

/// What `Timer::finished` returns.
pub uninterp spec fn timer_finished(timer: Timer) -> bool;

/// What `Timer::paused` returns.
pub uninterp spec fn timer_paused(timer: Timer) -> bool;

/// What `Timer::repeating` returns.
pub uninterp spec fn timer_repeating(timer: Timer) -> bool;

/// Trusted: `Timer::new`, called on `Duration::from_secs(secs)`. The
/// engine builds the timer from defaults: nothing has elapsed, it is
/// neither finished nor paused, and it keeps the duration and the
/// repeating flag it was given.
#[verifier::external_body]
fn timer_of_secs(secs: u64, repeating: bool) -> (timer: Timer)
    ensures
        timer_elapsed(timer) == 0,
        timer_duration(timer) == secs * NANOS_PER_SEC,
        !timer_finished(timer),
        !timer_paused(timer),
        timer_repeating(timer) == repeating,
{
    Timer::new(Duration::from_secs(secs), repeating)
}

/// Trusted: `Timer::tick`, called on `Duration::from_nanos(nanos)`, for a
/// timer that neither repeats nor is paused. A finished timer stays as it
/// is. Otherwise the engine adds the span to the elapsed time, which is
/// its one way to panic: the sum has to fit a `Duration`, and `requires`
/// sees to that. Once the sum reaches the duration the timer is finished
/// and the elapsed time is set to the duration.
#[verifier::external_body]
fn tick_nanos(timer: &mut Timer, nanos: u64)
    requires
        !timer_repeating(*old(timer)),
        !timer_paused(*old(timer)),
        !timer_finished(*old(timer)) ==> timer_elapsed(*old(timer)) + nanos
            <= duration_max_nanos(),
    ensures
        !timer_repeating(*final(timer)),
        !timer_paused(*final(timer)),
        timer_duration(*final(timer)) == timer_duration(*old(timer)),
        timer_finished(*final(timer)) == (timer_finished(*old(timer)) || timer_elapsed(
            *old(timer),
        ) + nanos >= timer_duration(*old(timer))),
        timer_elapsed(*final(timer)) == if timer_finished(*old(timer)) {
            timer_elapsed(*old(timer))
        } else {
            held_at(timer_elapsed(*old(timer)) + nanos as nat, timer_duration(*old(timer)))
        },
    no_unwind
{
    timer.tick(Duration::from_nanos(nanos));
}

/// Trusted: `Timer::finished` reads the timer's finished flag.
pub assume_specification[ bevy_core::Timer::finished ](timer: &Timer) -> (finished: bool)
    ensures
        finished == timer_finished(*timer),
;

/// The one-shot countdown of a hole. It starts at zero when the hole
/// appears, runs up to the hole's lifespan and stays there.
pub struct Countdown {
    timer: Timer,
}

impl Countdown {
    #[verifier::type_invariant]
    spec fn well_formed(self) -> bool {
        &&& !timer_repeating(self.timer)
        &&& !timer_paused(self.timer)
        &&& timer_duration(self.timer) == HOLE_LIFESPAN_NANOS
        &&& timer_elapsed(self.timer) <= HOLE_LIFESPAN_NANOS
        &&& timer_finished(self.timer) <==> timer_elapsed(self.timer) == HOLE_LIFESPAN_NANOS
    }

    /// Nanoseconds counted so far, never more than the lifespan.
    pub closed spec fn elapsed(self) -> nat {
        timer_elapsed(self.timer)
    }

    /// Whether the countdown has run out.
    pub open spec fn expired(self) -> bool {
        self.elapsed() >= HOLE_LIFESPAN_NANOS
    }

    /// Where a countdown stands after `nanos` more nanoseconds: the sum,
    /// held at the lifespan.
    pub open spec fn after(self, nanos: nat) -> nat {
        held_at(self.elapsed() + nanos, HOLE_LIFESPAN_NANOS as nat)
    }

    /// Whether the countdown runs out in a frame of `nanos` nanoseconds: it
    /// has not run out yet, and has by the end of the frame.
    pub open spec fn runs_out_within(self, nanos: nat) -> bool {
        !self.expired() && self.elapsed() + nanos >= HOLE_LIFESPAN_NANOS
    }

    /// The countdown of a hole that has just appeared.
    pub fn new() -> (countdown: Countdown)
        ensures
            countdown.elapsed() == 0,
            !countdown.expired(),
    {
        Countdown { timer: timer_of_secs(HOLE_LIFESPAN_SECS, false) }
    }

    /// Whether the countdown has run out.
    pub fn has_run_out(&self) -> (out: bool)
        ensures
            out == self.expired(),
    {
        proof {
            use_type_invariant(self);
        }
        self.timer.finished()
    }

    /// Lets `nanos` nanoseconds pass and says whether the countdown has
    /// run out by then. A countdown never runs backwards, never passes the
    /// lifespan, and one that has run out stays so.
    pub fn advance(&mut self, nanos: u64) -> (finished: bool)
        ensures
            final(self).elapsed() == old(self).after(nanos as nat),
            finished == final(self).expired(),
            old(self).elapsed() <= final(self).elapsed() <= HOLE_LIFESPAN_NANOS,
            old(self).expired() ==> finished,
    {
        proof {
            use_type_invariant(&*self);
        }
        tick_nanos(&mut self.timer, nanos);
        self.timer.finished()
    }
}

} // verus!
