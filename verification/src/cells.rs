//! A run of character cells that are updated, timed and settled together.

use vstd::prelude::*;
use crate::digit::{DigitFlipState, FlipCell};
use crate::progress::Progress;

verus! {

/// The glyph that a text holds for cell `i`; a text that is too short is
/// padded with blanks.
pub open spec fn glyph_at(glyphs: Seq<char>, i: int) -> char {
    if 0 <= i < glyphs.len() {
        glyphs[i]
    } else {
        ' '
    }
}

/// `len` cells at rest, cell `i` on the glyph that the text holds for it.
pub open spec fn cells_resting(glyphs: Seq<char>, len: nat) -> Seq<FlipCell> {
    Seq::new(len, |i: int| FlipCell::resting(glyph_at(glyphs, i)))
}

/// Whether every cell shows the glyph that the text holds for it.
pub open spec fn cells_show(cells: Seq<FlipCell>, glyphs: Seq<char>) -> bool {
    forall|i: int| 0 <= i < cells.len() ==> (#[trigger] cells[i]).current == glyph_at(glyphs, i)
}

/// Every cell told, independently and at one instant, to show its glyph.
pub open spec fn cells_updated(cells: Seq<FlipCell>, glyphs: Seq<char>, now: u64) -> Seq<FlipCell> {
    Seq::new(cells.len(), |i: int| cells[i].updated(glyph_at(glyphs, i), now))
}

/// The cells taken as one field that is told to show `glyphs`.
///
/// A field that already shows the text is left alone, flips under way
/// included. Otherwise whatever was under way anywhere in the field is
/// brought to its end first, and then each cell whose glyph differs starts a
/// fresh flip at `now`.
pub open spec fn cells_retargeted(cells: Seq<FlipCell>, glyphs: Seq<char>, now: u64) -> Seq<
    FlipCell,
> {
    if cells_show(cells, glyphs) {
        cells
    } else {
        Seq::new(cells.len(), |i: int| cells[i].settled().updated(glyph_at(glyphs, i), now))
    }
}

/// Every cell whose flip has run its full length committed, the others left
/// as they are.
pub open spec fn cells_settled(cells: Seq<FlipCell>, now: u64, duration: u64) -> Seq<FlipCell> {
    Seq::new(
        cells.len(),
        |i: int|
            if cells[i].finished(now, duration) {
                cells[i].settled()
            } else {
                cells[i]
            },
    )
}

/// Every cell committed, whether its flip has run its full length or not.
pub open spec fn cells_at_rest(cells: Seq<FlipCell>) -> Seq<FlipCell> {
    Seq::new(cells.len(), |i: int| cells[i].settled())
}

/// Every cell is well formed.
pub open spec fn cells_wf(cells: Seq<FlipCell>) -> bool {
    forall|i: int| 0 <= i < cells.len() ==> (#[trigger] cells[i]).wf()
}

/// The glyph that a text holds for cell `index`, a blank past its end.
pub fn glyph_for(glyphs: &Vec<char>, index: usize) -> (c: char)
    ensures
        c == glyph_at(glyphs@, index as int),
{
    if index < glyphs.len() {
        glyphs[index]
    } else {
        ' '
    }
}

/// A run of character cells.
#[derive(Clone, Debug)]
pub struct FlipCells {
    cells: Vec<DigitFlipState>,
}

impl View for FlipCells {
    type V = Seq<FlipCell>;

    closed spec fn view(&self) -> Seq<FlipCell> {
        self.cells@.map_values(|c: DigitFlipState| c@)
    }
}

impl FlipCells {
    /// `len` cells at rest on the glyphs of a text.
    pub fn resting(glyphs: &Vec<char>, len: usize) -> (run: FlipCells)
        ensures
            run@ == cells_resting(glyphs@, len as nat),
            run@.len() == len,
            cells_wf(run@),
            cells_show(run@, glyphs@),
    {
        let mut cells: Vec<DigitFlipState> = Vec::with_capacity(len);
        let mut i: usize = 0;
        while i < len
            invariant
                i <= len,
                cells@.len() == i,
                forall|k: int|
                    0 <= k < i ==> (#[trigger] cells@[k])@ == FlipCell::resting(
                        glyph_at(glyphs@, k),
                    ),
            decreases len - i,
        {
            cells.push(DigitFlipState::new(glyph_for(glyphs, i)));
            i += 1;
        }
        let run = FlipCells { cells };
        assert(run@ =~= cells_resting(glyphs@, len as nat));
        run
    }

    /// The number of cells.
    pub fn len(&self) -> (n: usize)
        ensures
            n == self@.len(),
    {
        self.cells.len()
    }

    /// Cell `index`, or `None` past the end.
    pub fn cell(&self, index: usize) -> (c: Option<DigitFlipState>)
        ensures
            c is Some <==> index < self@.len(),
            c is Some ==> c->0@ == self@[index as int],
    {
        if index < self.cells.len() {
            Some(self.cells[index])
        } else {
            None
        }
    }

    /// Whether every cell shows the glyph that the text holds for it.
    pub fn shows(&self, glyphs: &Vec<char>) -> (r: bool)
        ensures
            r == cells_show(self@, glyphs@),
    {
        let n: usize = self.cells.len();
        let mut i: usize = 0;
        while i < n
            invariant
                i <= n,
                n == self.cells@.len(),
                forall|k: int|
                    0 <= k < i ==> (#[trigger] self@[k]).current == glyph_at(glyphs@, k),
            decreases n - i,
        {
            if self.cells[i].current() != glyph_for(glyphs, i) {
                assert(self@[i as int].current != glyph_at(glyphs@, i as int));
                return false;
            }
            i += 1;
        }
        true
    }

    /// Whether any cell is in the middle of a flip.
    pub fn is_animating(&self) -> (r: bool)
        ensures
            r == exists|i: int| 0 <= i < self@.len() && (#[trigger] self@[i]).start is Some,
    {
        let n: usize = self.cells.len();
        let mut i: usize = 0;
        while i < n
            invariant
                i <= n,
                n == self.cells@.len(),
                forall|k: int| 0 <= k < i ==> (#[trigger] self@[k]).start is None,
            decreases n - i,
        {
            if self.cells[i].is_animating() {
                assert(self@[i as int].start is Some);
                return true;
            }
            i += 1;
        }
        false
    }

    /// Tells every cell its own glyph, all at the instant `now`.
    pub fn update_each(&mut self, glyphs: &Vec<char>, now: u64)
        ensures
            final(self)@ == cells_updated(old(self)@, glyphs@, now),
            final(self)@.len() == old(self)@.len(),
            cells_show(final(self)@, glyphs@),
            cells_wf(old(self)@) ==> cells_wf(final(self)@),
    {
        let n: usize = self.cells.len();
        let mut i: usize = 0;
        while i < n
            invariant
                i <= n,
                n == self.cells@.len(),
                n == old(self)@.len(),
                forall|k: int|
                    0 <= k < i ==> (#[trigger] self.cells@[k])@ == old(self)@[k].updated(
                        glyph_at(glyphs@, k),
                        now,
                    ),
                forall|k: int| i <= k < n ==> (#[trigger] self.cells@[k])@ == old(self)@[k],
            decreases n - i,
        {
            let mut c: DigitFlipState = self.cells[i];
            c.update(glyph_for(glyphs, i), now);
            self.cells.set(i, c);
            i += 1;
        }
        assert(self@ =~= cells_updated(old(self)@, glyphs@, now));
    }

    /// Tells the cells, taken as one field, to show `glyphs` as of `now`.
    pub fn retarget(&mut self, glyphs: &Vec<char>, now: u64)
        ensures
            final(self)@ == cells_retargeted(old(self)@, glyphs@, now),
            final(self)@.len() == old(self)@.len(),
            cells_show(final(self)@, glyphs@),
            cells_wf(old(self)@) ==> cells_wf(final(self)@),
    {
        if self.shows(glyphs) {
            return ;
        }
        let n: usize = self.cells.len();
        let mut i: usize = 0;
        while i < n
            invariant
                i <= n,
                n == self.cells@.len(),
                n == old(self)@.len(),
                forall|k: int|
                    0 <= k < i ==> (#[trigger] self.cells@[k])@ == old(
                        self,
                    )@[k].settled().updated(glyph_at(glyphs@, k), now),
                forall|k: int| i <= k < n ==> (#[trigger] self.cells@[k])@ == old(self)@[k],
            decreases n - i,
        {
            let mut c: DigitFlipState = self.cells[i];
            c.settle();
            c.update(glyph_for(glyphs, i), now);
            self.cells.set(i, c);
            i += 1;
        }
        assert(self@ =~= cells_retargeted(old(self)@, glyphs@, now));
    }

    /// Commits every flip, complete or not: the cells are at rest on what
    /// they show.
    pub fn settle_all(&mut self)
        ensures
            final(self)@ == cells_at_rest(old(self)@),
            final(self)@.len() == old(self)@.len(),
            cells_wf(final(self)@),
    {
        let n: usize = self.cells.len();
        let mut i: usize = 0;
        while i < n
            invariant
                i <= n,
                n == self.cells@.len(),
                n == old(self)@.len(),
                forall|k: int| 0 <= k < i ==> (#[trigger] self.cells@[k])@ == old(self)@[k].settled(),
                forall|k: int| i <= k < n ==> (#[trigger] self.cells@[k])@ == old(self)@[k],
            decreases n - i,
        {
            let mut c: DigitFlipState = self.cells[i];
            c.settle();
            self.cells.set(i, c);
            i += 1;
        }
        assert(self@ =~= cells_at_rest(old(self)@));
    }

    /// The progress of cell `index` at `now`: 1 for a cell at rest, else the
    /// share of `duration` that its own flip has run; `None` past the end.
    pub fn progress(&self, index: usize, now: u64, duration: u64) -> (p: Option<Progress>)
        ensures
            p is Some <==> index < self@.len(),
            p is Some ==> p->0 == self@[index as int].progress(now, duration) && p->0.wf(),
    {
        if index < self.cells.len() {
            Some(self.cells[index].progress(now, duration))
        } else {
            None
        }
    }

    /// Commits every flip that has run its full length, and says whether
    /// there was one.
    pub fn settle_completed(&mut self, now: u64, duration: u64) -> (any: bool)
        ensures
            final(self)@ == cells_settled(old(self)@, now, duration),
            final(self)@.len() == old(self)@.len(),
            any == exists|i: int|
                0 <= i < old(self)@.len() && (#[trigger] old(self)@[i]).finished(now, duration),
            any == (final(self)@ != old(self)@),
            cells_wf(old(self)@) ==> cells_wf(final(self)@),
    {
        let n: usize = self.cells.len();
        let mut any: bool = false;
        let mut i: usize = 0;
        while i < n
            invariant
                i <= n,
                n == self.cells@.len(),
                n == old(self)@.len(),
                forall|k: int|
                    0 <= k < i ==> (#[trigger] self.cells@[k])@ == cells_settled(
                        old(self)@,
                        now,
                        duration,
                    )[k],
                forall|k: int| i <= k < n ==> (#[trigger] self.cells@[k])@ == old(self)@[k],
                any == exists|k: int|
                    0 <= k < i && (#[trigger] old(self)@[k]).finished(now, duration),
            decreases n - i,
        {
            let mut c: DigitFlipState = self.cells[i];
            if c.settle_if_complete(now, duration) {
                any = true;
            }
            self.cells.set(i, c);
            i += 1;
        }
        assert(self@ =~= cells_settled(old(self)@, now, duration));
        proof {
            if any {
                let k = choose|k: int|
                    0 <= k < n && (#[trigger] old(self)@[k]).finished(now, duration);
                assert(self@[k].start is None);
                assert(old(self)@[k].start is Some);
            } else {
                assert(self@ =~= old(self)@);
            }
        }
        any
    }
}

/// A change that arrives while a field is flipping is not dropped and not
/// blended: after the field is retargeted every cell shows its new glyph,
/// and each cell that flips does so from the glyph that was its target just
/// before, starting at the instant of the change.
pub proof fn retarget_restarts_from_settled(cells: Seq<FlipCell>, glyphs: Seq<char>, now: u64, k: int)
    requires
        0 <= k < cells.len(),
    ensures
        cells_retargeted(cells, glyphs, now)[k].current == glyph_at(glyphs, k),
        !cells_show(cells, glyphs) && glyph_at(glyphs, k) != cells[k].current ==> cells_retargeted(
            cells,
            glyphs,
            now,
        )[k] == (FlipCell {
            current: glyph_at(glyphs, k),
            previous: cells[k].current,
            start: Some(now),
        }),
        !cells_show(cells, glyphs) && glyph_at(glyphs, k) == cells[k].current ==> cells_retargeted(
            cells,
            glyphs,
            now,
        )[k] == FlipCell::resting(glyph_at(glyphs, k)),
        cells_show(cells, glyphs) ==> cells_retargeted(cells, glyphs, now) == cells,
{
}

} // verus!
