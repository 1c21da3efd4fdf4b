//! The flip state of one character cell.

use vstd::prelude::*;
use crate::progress::{animation_progress, progress_at, Progress};

verus! {

/// The mathematical model of a cell: what it shows, what it showed before the
/// flip that is under way, and when that flip began.
pub struct FlipCell {
    pub current: char,
    pub previous: char,
    pub start: Option<u64>,
}

impl FlipCell {
    /// A cell that is not animating shows one value only.
    pub open spec fn wf(self) -> bool {
        self.start is None ==> self.current == self.previous
    }

    /// A cell at rest on `value`.
    pub open spec fn resting(value: char) -> FlipCell {
        FlipCell { current: value, previous: value, start: None }
    }

    /// The cell after it has been told to show `value` at instant `now`.
    ///
    /// An unchanged value leaves the cell alone. A changed one starts a flip
    /// from the value shown so far, whether or not an earlier flip was still
    /// running: that flip is first brought to its end, so a flip always leaves
    /// from a settled value and never from a blend of two.
    pub open spec fn updated(self, value: char, now: u64) -> FlipCell {
        if value == self.current {
            self
        } else {
            FlipCell { current: value, previous: self.current, start: Some(now) }
        }
    }

    /// The cell after its flip has been committed.
    pub open spec fn settled(self) -> FlipCell {
        FlipCell::resting(self.current)
    }

    /// The progress of the cell's flip at `now` under the given duration.
    pub open spec fn progress(self, now: u64, duration: u64) -> Progress {
        progress_at(self.start, now, duration)
    }

    /// The cell is animating and its flip has run its full length.
    pub open spec fn finished(self, now: u64, duration: u64) -> bool {
        self.start is Some && self.progress(now, duration).complete()
    }

    /// The glyph to draw at the given progress: the old one until the wipe
    /// has crossed the middle of the card, the new one from then on.
    pub open spec fn shown(self, p: Progress) -> char {
        if p.beyond_half() {
            self.current
        } else {
            self.previous
        }
    }
}

/// One character cell of a display: a two-state machine that is either idle
/// or animating from `previous` to `current`.
#[derive(Clone, Copy, Debug)]
pub struct DigitFlipState {
    current: char,
    previous: char,
    animation_start: Option<u64>,
}

impl View for DigitFlipState {
    type V = FlipCell;

    closed spec fn view(&self) -> FlipCell {
        FlipCell { current: self.current, previous: self.previous, start: self.animation_start }
    }
}

impl DigitFlipState {
    /// A cell at rest on `initial`.
    pub fn new(initial: char) -> (cell: DigitFlipState)
        ensures
            cell@ == FlipCell::resting(initial),
            cell@.wf(),
    {
        DigitFlipState { current: initial, previous: initial, animation_start: None }
    }

    /// Tells the cell which value it is to show as of `now`.
    pub fn update(&mut self, new_value: char, now: u64)
        ensures
            final(self)@ == old(self)@.updated(new_value, now),
            final(self)@.current == new_value,
            new_value == old(self)@.current ==> final(self)@ == old(self)@,
            new_value != old(self)@.current ==> final(self)@.start == Some(now),
            old(self)@.wf() ==> final(self)@.wf(),
    {
        if new_value != self.current {
            self.previous = self.current;
            self.current = new_value;
            self.animation_start = Some(now);
        }
    }

    /// The progress of the cell's flip at `now`; 1 when the cell is idle.
    pub fn progress(&self, now: u64, duration: u64) -> (p: Progress)
        ensures
            p == self@.progress(now, duration),
            p.wf(),
            self@.start is None ==> p.complete(),
    {
        animation_progress(self.animation_start, now, duration)
    }

    /// Commits the flip: the value shown becomes the steady state and the
    /// cell is idle again.
    pub fn settle(&mut self)
        ensures
            final(self)@ == old(self)@.settled(),
            final(self)@.wf(),
            final(self)@.start is None,
            final(self)@.previous == final(self)@.current,
            final(self)@.current == old(self)@.current,
    {
        self.previous = self.current;
        self.animation_start = None;
    }

    /// Settles the cell if its flip has run its full length, and says whether
    /// it did. Called once per frame this commits every flip exactly once:
    /// the cell is idle afterwards, so the next call finds nothing to commit
    /// and cannot undo a change that arrived in between.
    pub fn settle_if_complete(&mut self, now: u64, duration: u64) -> (settled: bool)
        ensures
            settled == old(self)@.finished(now, duration),
            settled ==> final(self)@ == old(self)@.settled(),
            !settled ==> final(self)@ == old(self)@,
            old(self)@.wf() ==> final(self)@.wf(),
    {
        if self.animation_start.is_some() && self.progress(now, duration).is_complete() {
            self.settle();
            true
        } else {
            false
        }
    }

    /// The value the cell shows once any flip has completed.
    pub fn current(&self) -> (c: char)
        ensures
            c == self@.current,
    {
        self.current
    }

    /// The value the cell showed before the flip that is under way.
    pub fn previous(&self) -> (c: char)
        ensures
            c == self@.previous,
    {
        self.previous
    }

    /// The instant at which the flip under way began, if there is one.
    pub fn animation_start(&self) -> (t: Option<u64>)
        ensures
            t == self@.start,
    {
        self.animation_start
    }

    /// Whether a flip is under way.
    pub fn is_animating(&self) -> (r: bool)
        ensures
            r == (self@.start is Some),
    {
        self.animation_start.is_some()
    }

    /// The glyph to draw when the flip stands at `p`.
    pub fn shown(&self, p: &Progress) -> (c: char)
        ensures
            c == self@.shown(*p),
    {
        if p.past_midpoint() {
            self.current
        } else {
            self.previous
        }
    }
}

/// Showing a cell the value it already shows changes nothing: no flip
/// starts, the progress at every instant is what it was, and a cell that was
/// idle still reports a progress of 1.
pub proof fn same_value_starts_nothing(cell: FlipCell, now: u64, at: u64, duration: u64)
    ensures
        cell.updated(cell.current, now) == cell,
        cell.updated(cell.current, now).progress(at, duration) == cell.progress(at, duration),
        cell.start is None ==> cell.progress(at, duration).complete() && cell.updated(
            cell.current,
            now,
        ).progress(at, duration).complete(),
{
}

/// A change is never lost: whatever state the cell was in, after an update
/// it shows the new value, and when the value differed a flip towards it has
/// begun at the instant of the update, leaving from the value shown before.
pub proof fn change_is_never_lost(cell: FlipCell, value: char, now: u64)
    ensures
        cell.updated(value, now).current == value,
        value != cell.current ==> cell.updated(value, now) == (FlipCell {
            current: value,
            previous: cell.current,
            start: Some(now),
        }),
        value != cell.current ==> cell.updated(value, now) == cell.settled().updated(value, now),
        cell.wf() ==> cell.updated(value, now).wf(),
{
}

/// Settling is idempotent: after one call the cell is idle on its current
/// value, and a second call leaves it exactly so.
pub proof fn settle_is_idempotent(cell: FlipCell)
    ensures
        cell.settled().start is None,
        cell.settled().previous == cell.settled().current,
        cell.settled().current == cell.current,
        cell.settled().settled() == cell.settled(),
        cell.settled().wf(),
{
}

} // verus!
