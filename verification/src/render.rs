//! What to draw: for every card of a face or a row, its box, its glyph and
//! the lines across it.

use vstd::prelude::*;
use crate::board::{BoardView, City, DepartureBoard, DepartureBoardRow, RowView};
use crate::board_layout::{BoardField, BoardLayout};
use crate::cells::FlipCells;
use crate::clock::ClockFace;
use crate::digit::{DigitFlipState, FlipCell};
use crate::layout::{CardBox, ClockLayout};
use crate::progress::Progress;

verus! {

/// What to draw in one card.
#[derive(Clone, Copy, Debug)]
pub struct CardFrame {
    /// The glyph in the card.
    pub glyph: char,
    /// The height of the dark line across the middle of the card, which is
    /// always there.
    pub split_y: i64,
    /// The height of the soft line at the front of the wipe, while the card
    /// flips.
    pub seam_y: Option<i64>,
}

/// What a card shows at progress `p`: the old glyph until the wipe has
/// crossed the middle, the new one after; the split line across the middle;
/// and, strictly between start and end, the seam at the wipe's front.
pub open spec fn card_frame_of(cell: FlipCell, card: CardBox, p: Progress) -> CardFrame {
    CardFrame {
        glyph: cell.shown(p),
        split_y: (card.y + card.height / 2) as i64,
        seam_y: if 0 < p.elapsed < p.duration {
            Some((card.y + p.scaled(card.height as u64)) as i64)
        } else {
            None
        },
    }
}

/// Decides what to draw in the box of a cell at the instant `now`.
pub fn card_frame(cell: &DigitFlipState, card: &CardBox, now: u64, duration: u64) -> (f: CardFrame)
    requires
        card.wf(),
    ensures
        f == card_frame_of(cell@, *card, cell@.progress(now, duration)),
        f.glyph == cell@.current || f.glyph == cell@.previous,
        cell@.start is None ==> f.glyph == cell@.current && f.seam_y is None,
        f.seam_y is Some ==> card.y <= f.seam_y->0 <= card.y + card.height,
{
    let p = cell.progress(now, duration);
    let seam_y: Option<i64> = if 0 < p.elapsed && p.elapsed < p.duration {
        Some(card.y + p.scale(card.height as u64) as i64)
    } else {
        None
    };
    CardFrame { glyph: cell.shown(&p), split_y: card.y + card.height / 2, seam_y }
}

/// The outline of a card's background.
#[derive(Clone, Copy, Debug, PartialEq, Eq, Structural)]
pub enum CardShape {
    /// A plain rectangle.
    Rectangle,
    /// A rectangle with its corners rounded off.
    Rounded { radius: i64 },
}

/// The outline that a corner radius gives: rounded corners for a positive
/// radius, and a plain rectangle without one.
pub open spec fn card_shape_of(corner_radius: i64) -> CardShape {
    if corner_radius > 0 {
        CardShape::Rounded { radius: corner_radius }
    } else {
        CardShape::Rectangle
    }
}

/// Decides the outline of the cards from the corner radius of a layout.
pub fn card_shape(corner_radius: i64) -> (shape: CardShape)
    ensures
        shape == card_shape_of(corner_radius),
{
    if corner_radius > 0 {
        CardShape::Rounded { radius: corner_radius }
    } else {
        CardShape::Rectangle
    }
}

/// A card with its place on the surface.
#[derive(Clone, Copy, Debug)]
pub struct PlacedCard {
    /// Where the card goes.
    pub area: CardBox,
    /// What goes in it.
    pub frame: CardFrame,
    /// Whether the glyph stands alone, without a card behind it and without
    /// lines across it, as the colon of a time does.
    pub bare: bool,
}

/// The cell in its box at the instant `now`.
pub open spec fn placed(cell: FlipCell, area: CardBox, now: u64, duration: u64, bare: bool) -> PlacedCard {
    PlacedCard { area, frame: card_frame_of(cell, area, cell.progress(now, duration)), bare }
}

/// The cards of a clock face: cell `i` in box `i`, as many as the face has
/// cells and the layout has boxes.
pub open spec fn clock_cards_of(face: Seq<FlipCell>, layout: ClockLayout, now: u64, duration: u64) -> Seq<
    PlacedCard,
> {
    Seq::new(
        if face.len() <= layout.cards {
            face.len()
        } else {
            layout.cards as nat
        },
        |i: int| placed(face[i], layout.box_at(i), now, duration, false),
    )
}

/// The number of letters of a name that get a card.
pub open spec fn name_cards(name: Seq<char>) -> nat {
    if name.len() <= 0x1_0000 {
        name.len()
    } else {
        0x1_0000
    }
}

/// The cards of a city's name: one resting card per letter, from the left
/// margin.
pub open spec fn name_cards_of(
    name: Seq<char>,
    layout: BoardLayout,
    row: int,
    now: u64,
    duration: u64,
) -> Seq<PlacedCard> {
    Seq::new(
        name_cards(name),
        |j: int|
            placed(
                FlipCell::resting(name[j]),
                layout.box_at(BoardField::Name, row, j),
                now,
                duration,
                false,
            ),
    )
}

/// The cards of one field of a row. The middle cell of the time is the
/// colon, which stands bare.
pub open spec fn field_cards_of(
    cells: Seq<FlipCell>,
    field: BoardField,
    layout: BoardLayout,
    row: int,
    now: u64,
    duration: u64,
) -> Seq<PlacedCard> {
    Seq::new(
        cells.len(),
        |j: int|
            placed(
                cells[j],
                layout.box_at(field, row, j),
                now,
                duration,
                field == BoardField::Time && j == 2,
            ),
    )
}

/// The cards of a row, from left to right: the name, the time, AM or PM,
/// the weekday. A row that the layout has no place for has no cards.
pub open spec fn row_cards_of(
    name: Seq<char>,
    row: RowView,
    layout: BoardLayout,
    index: int,
    now: u64,
    duration: u64,
) -> Seq<PlacedCard> {
    if index < layout.rows {
        name_cards_of(name, layout, index, now, duration) + field_cards_of(
            row.time,
            BoardField::Time,
            layout,
            index,
            now,
            duration,
        ) + field_cards_of(row.am_pm, BoardField::AmPm, layout, index, now, duration)
            + field_cards_of(row.weekday, BoardField::Weekday, layout, index, now, duration)
    } else {
        Seq::empty()
    }
}

/// Decides what to draw for every card of a clock face.
pub fn clock_cards(face: &ClockFace, layout: &ClockLayout, now: u64, duration: u64) -> (cards: Vec<
    PlacedCard,
>)
    requires
        layout.wf(),
    ensures
        cards@ == clock_cards_of(face@, *layout, now, duration),
{
    let n: usize = if face.len() <= layout.cards {
        face.len()
    } else {
        layout.cards
    };
    let mut cards: Vec<PlacedCard> = Vec::with_capacity(n);
    let mut i: usize = 0;
    while i < n
        invariant
            i <= n,
            n <= face@.len(),
            n <= layout.cards,
            layout.wf(),
            cards@.len() == i,
            forall|k: int|
                0 <= k < i ==> cards@[k] == placed(
                    face@[k],
                    layout.box_at(k),
                    now,
                    duration,
                    false,
                ),
        decreases n - i,
    {
        let cell = face.cell(i).unwrap();
        let area = layout.card(i).unwrap();
        cards.push(PlacedCard { area, frame: card_frame(&cell, &area, now, duration), bare: false });
        i += 1;
    }
    assert(cards@ =~= clock_cards_of(face@, *layout, now, duration));
    cards
}

/// Appends the cards of one field of a row.
fn push_field_cards(
    cards: &mut Vec<PlacedCard>,
    cells: &FlipCells,
    field: BoardField,
    layout: &BoardLayout,
    row: usize,
    now: u64,
    duration: u64,
)
    requires
        layout.wf(),
        row < layout.rows,
        field != BoardField::Name,
        forall|j: int| 0 <= j < cells@.len() ==> BoardLayout::has_cell(field, j),
    ensures
        final(cards)@ == old(cards)@ + field_cards_of(
            cells@,
            field,
            *layout,
            row as int,
            now,
            duration,
        ),
{
    let n: usize = cells.len();
    let ghost before = cards@;
    let mut j: usize = 0;
    assert(n <= 5) by {
        if n > 5 {
            assert(BoardLayout::has_cell(field, 5));
        }
    }
    while j < n
        invariant
            j <= n,
            n == cells@.len(),
            n <= 5,
            layout.wf(),
            row < layout.rows,
            forall|k: int| 0 <= k < cells@.len() ==> BoardLayout::has_cell(field, k),
            cards@.len() == before.len() + j,
            forall|k: int| 0 <= k < before.len() ==> cards@[k] == before[k],
            forall|k: int|
                0 <= k < j ==> cards@[before.len() + k] == placed(
                    cells@[k],
                    layout.box_at(field, row as int, k),
                    now,
                    duration,
                    field == BoardField::Time && k == 2,
                ),
        decreases n - j,
    {
        let cell = cells.cell(j).unwrap();
        assert(BoardLayout::has_cell(field, j as int));
        let area = layout.cell(field, row, j as u16).unwrap();
        let bare: bool = field == BoardField::Time && j == 2;
        cards.push(PlacedCard { area, frame: card_frame(&cell, &area, now, duration), bare });
        j += 1;
    }
    assert(cards@ =~= before + field_cards_of(cells@, field, *layout, row as int, now, duration));
}

/// Decides what to draw for every card of one row of the board.
pub fn row_cards(
    row: &DepartureBoardRow,
    layout: &BoardLayout,
    index: usize,
    now: u64,
    duration: u64,
) -> (cards: Vec<PlacedCard>)
    requires
        layout.wf(),
        row@.wf(),
    ensures
        cards@ == row_cards_of(row.city_of().name@, row@, *layout, index as int, now, duration),
{
    let mut cards: Vec<PlacedCard> = Vec::new();
    if index >= layout.rows {
        return cards;
    }
    let name = row.city().letters();
    let n: usize = if name.len() <= 0x1_0000 {
        name.len()
    } else {
        0x1_0000
    };
    let mut j: usize = 0;
    while j < n
        invariant
            j <= n,
            n == name_cards(name@),
            layout.wf(),
            index < layout.rows,
            cards@.len() == j,
            forall|k: int|
                0 <= k < j ==> cards@[k] == placed(
                    FlipCell::resting(name@[k]),
                    layout.box_at(BoardField::Name, index as int, k),
                    now,
                    duration,
                    false,
                ),
        decreases n - j,
    {
        let cell = DigitFlipState::new(name[j]);
        let area = layout.cell(BoardField::Name, index, j as u16).unwrap();
        cards.push(PlacedCard { area, frame: card_frame(&cell, &area, now, duration), bare: false });
        j += 1;
    }
    assert(cards@ =~= name_cards_of(name@, *layout, index as int, now, duration));
    push_field_cards(&mut cards, row.time(), BoardField::Time, layout, index, now, duration);
    push_field_cards(&mut cards, row.am_pm(), BoardField::AmPm, layout, index, now, duration);
    push_field_cards(&mut cards, row.weekday(), BoardField::Weekday, layout, index, now, duration);
    cards
}

/// The cards of a board, row by row.
pub open spec fn board_cards_of(
    cities: Seq<City>,
    board: BoardView,
    layout: BoardLayout,
    now: u64,
    duration: u64,
) -> Seq<Seq<PlacedCard>> {
    Seq::new(
        board.rows.len(),
        |i: int| row_cards_of(cities[i].name@, board.rows[i], layout, i, now, duration),
    )
}

/// Decides what to draw for every card of the board, row by row.
pub fn board_cards(board: &DepartureBoard, layout: &BoardLayout, now: u64, duration: u64) -> (cards:
    Vec<Vec<PlacedCard>>)
    requires
        layout.wf(),
        board@.wf(),
    ensures
        cards@.len() == board@.rows.len(),
        forall|i: int|
            0 <= i < cards@.len() ==> (#[trigger] cards@[i])@ == board_cards_of(
                board.cities_of(),
                board@,
                *layout,
                now,
                duration,
            )[i],
{
    let n: usize = board.len();
    let mut cards: Vec<Vec<PlacedCard>> = Vec::with_capacity(n);
    let mut i: usize = 0;
    while i < n
        invariant
            i <= n,
            n == board@.rows.len(),
            layout.wf(),
            board@.wf(),
            cards@.len() == i,
            forall|k: int|
                0 <= k < i ==> (#[trigger] cards@[k])@ == board_cards_of(
                    board.cities_of(),
                    board@,
                    *layout,
                    now,
                    duration,
                )[k],
        decreases n - i,
    {
        let row = board.row(i).unwrap();
        assert(board@.rows[i as int].wf());
        cards.push(row_cards(row, layout, i, now, duration));
        i += 1;
    }
    cards
}

} // verus!
