//! Normalised animation progress, kept as an exact fraction.

use vstd::prelude::*;

verus! {

/// How far a flip has come: `elapsed / duration`, a fraction between 0 (just
/// started) and 1 (settled).
///
/// Keeping numerator and denominator apart keeps the value exact; a front end
/// divides them when it needs a floating-point number.
#[derive(Clone, Copy, Debug)]
pub struct Progress {
    pub elapsed: u64,
    pub duration: u64,
}

/// Milliseconds of the animation that have run at `now`, cut off at both ends
/// so that the result lies between 0 and `duration`.
pub open spec fn clamped_elapsed(start: u64, now: u64, duration: u64) -> int {
    if now <= start {
        0
    } else if now - start >= duration {
        duration as int
    } else {
        now - start
    }
}

/// The progress at `now` of an animation that started at `start` (or of an
/// idle cell, when `start` is `None`) and lasts `duration` milliseconds.
///
/// An idle cell and a zero-length animation are both complete.
pub open spec fn progress_at(start: Option<u64>, now: u64, duration: u64) -> Progress {
    match start {
        Some(t0) if duration > 0 => Progress {
            elapsed: clamped_elapsed(t0, now, duration) as u64,
            duration,
        },
        _ => Progress { elapsed: 1, duration: 1 },
    }
}

impl Progress {
    /// A fraction: the denominator is positive and the value is at most 1.
    pub open spec fn wf(&self) -> bool {
        0 < self.duration && self.elapsed <= self.duration
    }

    /// The value is exactly 1.
    pub open spec fn complete(&self) -> bool {
        self.elapsed == self.duration
    }

    /// The value is strictly above one half.
    pub open spec fn beyond_half(&self) -> bool {
        2 * self.elapsed > self.duration
    }

    /// `self <= other` as fractions, by cross-multiplication.
    pub open spec fn at_most(&self, other: &Progress) -> bool {
        self.elapsed * other.duration <= other.elapsed * self.duration
    }

    /// `length` scaled by the fraction, rounded down.
    pub open spec fn scaled(&self, length: u64) -> int {
        (length * self.elapsed) / (self.duration as int)
    }

    /// The settled value, 1.
    pub fn done() -> (p: Progress)
        ensures
            p == (Progress { elapsed: 1, duration: 1 }),
            p.wf(),
            p.complete(),
    {
        Progress { elapsed: 1, duration: 1 }
    }

    /// Whether the animation has reached its end.
    pub fn is_complete(&self) -> (r: bool)
        ensures
            r == self.complete(),
    {
        self.elapsed == self.duration
    }

    /// Whether the wipe has crossed the middle of the card.
    pub fn past_midpoint(&self) -> (r: bool)
        ensures
            r == self.beyond_half(),
    {
        self.elapsed > self.duration || self.elapsed > self.duration - self.elapsed
    }

    /// Scales a length by the fraction, rounding down: the distance the wipe
    /// has travelled over a card of that length.
    pub fn scale(&self, length: u64) -> (r: u64)
        requires
            self.wf(),
        ensures
            r == self.scaled(length),
            r <= length,
            self.complete() ==> r == length,
    {
        proof {
            assert(length * self.elapsed <= length * self.duration) by (nonlinear_arith)
                requires
                    self.elapsed <= self.duration,
            ;
            assert((length * self.elapsed) / (self.duration as int) <= length) by (nonlinear_arith)
                requires
                    length * self.elapsed <= length * self.duration,
                    0 < self.duration,
                    0 <= length,
            ;
            assert((length * self.duration) / (self.duration as int) == length) by (nonlinear_arith)
                requires
                    0 < self.duration,
            ;
            assert(length * self.elapsed <= u64::MAX * u64::MAX) by (nonlinear_arith)
                requires
                    length <= u64::MAX,
                    self.elapsed <= u64::MAX,
                    0 <= length,
                    0 <= self.elapsed,
            ;
        }
        let wide: u128 = (length as u128) * (self.elapsed as u128);
        let q: u128 = wide / (self.duration as u128);
        q as u64
    }
}

/// Maps an animation's start, the current instant and the configured duration
/// to the progress of the animation.
///
/// The duration is the one in force at the time of the call, so a change of
/// the setting while a flip is under way speeds it up or slows it down, and a
/// clock that steps backwards leaves the flip at its beginning.
pub fn animation_progress(start: Option<u64>, now: u64, duration: u64) -> (p: Progress)
    ensures
        p == progress_at(start, now, duration),
        p.wf(),
        start is None ==> p.complete(),
{
    match start {
        Some(t0) => {
            if duration == 0 {
                Progress::done()
            } else if now <= t0 {
                Progress { elapsed: 0, duration }
            } else if now - t0 >= duration {
                Progress { elapsed: duration, duration }
            } else {
                Progress { elapsed: now - t0, duration }
            }
        },
        None => Progress::done(),
    }
}

/// Progress never runs backwards and never leaves the unit interval: for one
/// start and one duration, a later instant gives at least the progress of an
/// earlier one, and every value lies between 0 and 1.
pub proof fn progress_is_monotonic(start: Option<u64>, earlier: u64, later: u64, duration: u64)
    requires
        earlier <= later,
    ensures
        progress_at(start, earlier, duration).wf(),
        progress_at(start, later, duration).wf(),
        progress_at(start, earlier, duration).at_most(&progress_at(start, later, duration)),
        progress_at(start, earlier, duration).duration == progress_at(start, later, duration).duration,
        progress_at(start, earlier, duration).elapsed <= progress_at(start, later, duration).elapsed,
{
    let a = progress_at(start, earlier, duration);
    let b = progress_at(start, later, duration);
    assert(a.elapsed * b.duration <= b.elapsed * a.duration) by (nonlinear_arith)
        requires
            a.elapsed <= b.elapsed,
            a.duration == b.duration,
            0 <= a.duration,
    ;
}

/// A flip takes exactly its duration: the progress is 1 from the instant
/// `duration` milliseconds after the start on, and below 1 before it.
pub proof fn progress_completes_on_time(start: u64, now: u64, duration: u64)
    requires
        duration > 0,
    ensures
        progress_at(Some(start), now, duration).complete() <==> now - start >= duration,
        progress_at(Some(start), now, duration).elapsed == 0 <==> now <= start,
{
}

} // verus!
