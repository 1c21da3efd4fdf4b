//! The clock face: four or six digit cells fed from the wall clock.

use vstd::prelude::*;
use crate::cells::{cells_resting, cells_settled, cells_updated, cells_wf, glyph_at, FlipCells};
use crate::digit::{DigitFlipState, FlipCell};
use crate::progress::Progress;

verus! {

/// A wall-clock reading: hour, minute and second of the day.
#[derive(Clone, Copy, Debug)]
pub struct TimeOfDay {
    pub hour: u8,
    pub minute: u8,
    pub second: u8,
}

impl TimeOfDay {
    /// The reading names a second of a day.
    pub open spec fn wf(&self) -> bool {
        self.hour < 24 && self.minute < 60 && self.second < 60
    }

    /// Builds a reading, or `None` when a component is out of range.
    pub fn new(hour: u32, minute: u32, second: u32) -> (t: Option<TimeOfDay>)
        ensures
            t is Some <==> hour < 24 && minute < 60 && second < 60,
            t is Some ==> t->0.hour == hour && t->0.minute == minute && t->0.second == second
                && t->0.wf(),
    {
        if hour < 24 && minute < 60 && second < 60 {
            Some(TimeOfDay { hour: hour as u8, minute: minute as u8, second: second as u8 })
        } else {
            None
        }
    }
}

/// The hour as the face shows it: unchanged on a 24-hour face, folded into
/// 1..=12 on a 12-hour face, where both midnight and noon read 12.
pub open spec fn display_hour(hour: int, use_12h: bool) -> int {
    if !use_12h {
        hour
    } else if hour % 12 == 0 {
        12
    } else {
        hour % 12
    }
}

/// The glyph of the lowest decimal digit of `n`.
pub open spec fn digit_glyph(n: int) -> char {
    let d = n % 10;
    if d == 0 {
        '0'
    } else if d == 1 {
        '1'
    } else if d == 2 {
        '2'
    } else if d == 3 {
        '3'
    } else if d == 4 {
        '4'
    } else if d == 5 {
        '5'
    } else if d == 6 {
        '6'
    } else if d == 7 {
        '7'
    } else if d == 8 {
        '8'
    } else {
        '9'
    }
}

/// The six glyphs of a reading, hours first: H H M M S S.
pub open spec fn face_glyphs(time: TimeOfDay, use_12h: bool) -> Seq<char> {
    let hour = display_hour(time.hour as int, use_12h);
    seq![
        digit_glyph(hour / 10),
        digit_glyph(hour),
        digit_glyph(time.minute as int / 10),
        digit_glyph(time.minute as int),
        digit_glyph(time.second as int / 10),
        digit_glyph(time.second as int),
    ]
}

/// The hour on the face of a 24-hour reading.
pub fn shown_hour(hour: u8, use_12h: bool) -> (h: u8)
    ensures
        h == display_hour(hour as int, use_12h),
        use_12h ==> 1 <= h <= 12,
        !use_12h ==> h == hour,
{
    if !use_12h {
        hour
    } else if hour % 12 == 0 {
        12
    } else {
        hour % 12
    }
}

/// The glyph of the lowest decimal digit of `n`.
pub fn glyph_of(n: u8) -> (c: char)
    ensures
        c == digit_glyph(n as int),
{
    let d: u8 = n % 10;
    if d == 0 {
        '0'
    } else if d == 1 {
        '1'
    } else if d == 2 {
        '2'
    } else if d == 3 {
        '3'
    } else if d == 4 {
        '4'
    } else if d == 5 {
        '5'
    } else if d == 6 {
        '6'
    } else if d == 7 {
        '7'
    } else if d == 8 {
        '8'
    } else {
        '9'
    }
}

/// The six glyphs of a reading, hours first.
pub fn glyphs_of(time: &TimeOfDay, use_12h: bool) -> (g: Vec<char>)
    ensures
        g@ == face_glyphs(*time, use_12h),
        g@.len() == 6,
{
    let hour: u8 = shown_hour(time.hour, use_12h);
    let mut g: Vec<char> = Vec::with_capacity(6);
    g.push(glyph_of(hour / 10));
    g.push(glyph_of(hour));
    g.push(glyph_of(time.minute / 10));
    g.push(glyph_of(time.minute));
    g.push(glyph_of(time.second / 10));
    g.push(glyph_of(time.second));
    assert(g@ =~= face_glyphs(*time, use_12h));
    g
}

/// The digits of a clock: hours and minutes, and seconds when they are shown.
#[derive(Clone, Debug)]
pub struct ClockFace {
    cells: FlipCells,
}

impl View for ClockFace {
    type V = Seq<FlipCell>;

    closed spec fn view(&self) -> Seq<FlipCell> {
        self.cells@
    }
}

impl ClockFace {
    /// Four cells or six, each of them well formed.
    pub open spec fn wf(&self) -> bool {
        &&& (self@.len() == 4 || self@.len() == 6)
        &&& cells_wf(self@)
    }

    /// A face at rest on `time`, with or without the seconds.
    pub fn new(time: &TimeOfDay, use_12h: bool, show_seconds: bool) -> (face: ClockFace)
        ensures
            face.wf(),
            face@.len() == (if show_seconds { 6nat } else { 4nat }),
            face@ == cells_resting(face_glyphs(*time, use_12h), face@.len()),
    {
        let glyphs = glyphs_of(time, use_12h);
        let n: usize = if show_seconds { 6 } else { 4 };
        ClockFace { cells: FlipCells::resting(&glyphs, n) }
    }

    /// The number of cells, 4 or 6.
    pub fn len(&self) -> (n: usize)
        ensures
            n == self@.len(),
    {
        self.cells.len()
    }

    /// Cell `index` of the face, counted from the tens of the hours.
    pub fn cell(&self, index: usize) -> (c: Option<DigitFlipState>)
        ensures
            c is Some <==> index < self@.len(),
            c is Some ==> c->0@ == self@[index as int],
    {
        self.cells.cell(index)
    }

    /// Shows the face a new reading of the wall clock.
    ///
    /// Every cell is told its own digit, all at the same instant `now`. A
    /// cell compares that digit with the one it shows and with nothing else,
    /// so a digit that did not change does not flip, however many of its
    /// neighbors do.
    pub fn update(&mut self, time: &TimeOfDay, now: u64, use_12h: bool)
        requires
            old(self).wf(),
        ensures
            final(self).wf(),
            final(self)@ == cells_updated(old(self)@, face_glyphs(*time, use_12h), now),
    {
        let glyphs = glyphs_of(time, use_12h);
        self.cells.update_each(&glyphs, now);
    }

    /// The progress of cell `index` at `now`: 1 for a cell at rest, else the
    /// share of `duration` that its own flip has run; `None` past the end.
    pub fn progress(&self, index: usize, now: u64, duration: u64) -> (p: Option<Progress>)
        ensures
            p is Some <==> index < self@.len(),
            p is Some ==> p->0 == self@[index as int].progress(now, duration) && p->0.wf(),
    {
        self.cells.progress(index, now, duration)
    }

    /// Commits every flip that has run its full length, and says whether
    /// there was one.
    pub fn settle_completed(&mut self, now: u64, duration: u64) -> (any: bool)
        requires
            old(self).wf(),
        ensures
            final(self).wf(),
            final(self)@ == cells_settled(old(self)@, now, duration),
            any == exists|i: int|
                0 <= i < old(self)@.len() && (#[trigger] old(self)@[i]).finished(now, duration),
            any == (final(self)@ != old(self)@),
    {
        self.cells.settle_completed(now, duration)
    }
}

/// A digit that did not change does not flip: a cell whose digit in the new
/// reading is the one it already shows is left exactly as it was, and if it
/// was at rest it still reports a progress of 1 at every instant.
pub proof fn unchanged_digit_stays_put(
    face: Seq<FlipCell>,
    time: TimeOfDay,
    use_12h: bool,
    now: u64,
    k: int,
    at: u64,
    duration: u64,
)
    requires
        0 <= k < face.len(),
        face[k].current == glyph_at(face_glyphs(time, use_12h), k),
    ensures
        cells_updated(face, face_glyphs(time, use_12h), now)[k] == face[k],
        face[k].start is None ==> cells_updated(face, face_glyphs(time, use_12h), now)[k].progress(
            at,
            duration,
        ).complete(),
{
}

/// Digits that change flip together: every cell whose digit differs from the
/// one it shows starts a flip at the instant of the update, from the digit
/// shown so far to the new one.
pub proof fn changed_digit_starts_now(
    face: Seq<FlipCell>,
    time: TimeOfDay,
    use_12h: bool,
    now: u64,
    k: int,
)
    requires
        0 <= k < face.len(),
        face[k].current != glyph_at(face_glyphs(time, use_12h), k),
    ensures
        cells_updated(face, face_glyphs(time, use_12h), now)[k] == (FlipCell {
            current: glyph_at(face_glyphs(time, use_12h), k),
            previous: face[k].current,
            start: Some(now),
        }),
{
}

/// Within one hour the hour cells rest: on a face at rest on `before`, a
/// reading `after` of the same hour leaves both hour cells idle with a
/// progress of 1, whatever happens to minutes and seconds, while a minute
/// cell whose digit changed starts its flip at `now`.
pub proof fn hour_cells_rest_within_the_hour(
    before: TimeOfDay,
    after: TimeOfDay,
    use_12h: bool,
    now: u64,
    at: u64,
    duration: u64,
)
    requires
        before.wf(),
        after.wf(),
        before.hour == after.hour,
    ensures
        ({
            let face = cells_resting(face_glyphs(before, use_12h), 6);
            let next = cells_updated(face, face_glyphs(after, use_12h), now);
            &&& next[0] == face[0]
            &&& next[1] == face[1]
            &&& next[0].start is None
            &&& next[1].start is None
            &&& next[0].progress(at, duration).complete()
            &&& next[1].progress(at, duration).complete()
            &&& before.minute % 10 != after.minute % 10 ==> next[3].start == Some(now)
            &&& before.minute / 10 != after.minute / 10 ==> next[2].start == Some(now)
        }),
{
    let a: int = before.minute as int;
    let b: int = after.minute as int;
    assert(a % 10 != b % 10 ==> digit_glyph(a) != digit_glyph(b));
    assert(a / 10 != b / 10 ==> digit_glyph(a / 10) != digit_glyph(b / 10));
}

} // verus!
