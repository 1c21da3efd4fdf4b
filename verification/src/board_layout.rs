//! The geometry of the departure board: rows of small cards, the city's
//! name from the left margin, the time fields up to the right margin.

use vstd::prelude::*;
use crate::config::AppConfig;
use crate::layout::{card_width_of, centered, centering_margin, corner_radius_of, CardBox, Rect, MAX_LENGTH};

verus! {

/// The parts of a row.
#[derive(Clone, Copy, Debug, PartialEq, Eq, Structural)]
pub enum BoardField {
    /// The city's name, one card per letter, from the left margin.
    Name,
    /// The time of day, five cells of which the third is the colon.
    Time,
    /// AM or PM, two cells.
    AmPm,
    /// The day of the week, three cells, up to the right margin.
    Weekday,
}

/// The number of cells of the time field.
pub const TIME_CELLS: usize = 5;

/// The number of cells of the AM/PM field.
pub const AM_PM_CELLS: usize = 2;

/// The number of cells of the weekday field.
pub const WEEKDAY_CELLS: usize = 3;

/// The largest width of a card of the board, and the largest space between
/// two of them.
pub const MAX_CARD: i64 = 0x100_0000_0000;

/// The margin around the board, 20 pixels at full scale.
pub open spec fn margin_of(scale: int) -> int {
    20 * scale / 1_000
}

/// The tallest that a row gets: 15 % of the surface's height, times the
/// scale.
pub open spec fn row_cap_of(height: int, scale: int) -> int {
    height * 15 * scale / 100_000
}

/// The height between the two margins, none when they meet.
pub open spec fn available_height(height: int, scale: int) -> int {
    if height >= 2 * margin_of(scale) {
        height - 2 * margin_of(scale)
    } else {
        0
    }
}

/// The height of a row: an equal share of the height between the margins,
/// but no more than the cap.
pub open spec fn row_height_of(height: int, scale: int, rows: int) -> int {
    let cap = row_cap_of(height, scale);
    if rows <= 0 {
        cap
    } else if available_height(height, scale) / rows < cap {
        available_height(height, scale) / rows
    } else {
        cap
    }
}

/// The height of a card of the board, four fifths of its row.
pub open spec fn board_card_height_of(row_height: int) -> int {
    row_height * 8 / 10
}

/// The space between two cards of the board, a tenth of a card's width.
pub open spec fn board_spacing_of(card_width: int) -> int {
    card_width / 10
}

/// The size of the glyphs of the board, seven tenths of a card's height.
pub open spec fn board_font_size_of(card_height: int) -> int {
    card_height * 7 / 10
}

/// The space between two fields, one and a half cards.
pub open spec fn field_gap_of(card_width: int) -> int {
    card_width * 3 / 2
}

/// The width of a field of `cells` cards.
pub open spec fn field_width(cells: int, card_width: int, spacing: int) -> int {
    cells * card_width + (cells - 1) * spacing
}

/// Equal shares fit: `parts` shares, none larger than the whole divided by
/// `parts`, add up to no more than the whole.
pub proof fn lemma_shares_fit(whole: int, parts: int, share: int)
    requires
        0 <= whole,
        0 < parts,
        0 <= share <= whole / parts,
    ensures
        0 <= parts * share <= whole,
{
    vstd::arithmetic::div_mod::lemma_fundamental_div_mod(whole, parts);
    vstd::arithmetic::div_mod::lemma_mod_pos_bound(whole, parts);
    assert(parts * share <= parts * (whole / parts)) by (nonlinear_arith)
        requires
            0 < parts,
            0 <= share <= whole / parts,
    ;
    assert(0 <= parts * share) by (nonlinear_arith)
        requires
            0 < parts,
            0 <= share,
    ;
}

/// The geometry of a departure board on one surface.
#[derive(Clone, Copy, Debug)]
pub struct BoardLayout {
    pub rows: usize,
    pub margin: i64,
    pub row_height: i64,
    pub card_width: i64,
    pub card_height: i64,
    pub spacing: i64,
    pub first_row_y: i64,
    pub name_x: i64,
    pub time_x: i64,
    pub am_pm_x: i64,
    pub weekday_x: i64,
    pub font_size: i64,
    pub corner_radius: i64,
}

impl BoardLayout {
    /// The lengths are non-negative and bounded, a card fits in its row and
    /// the rows fit in the bound.
    pub open spec fn wf(&self) -> bool {
        &&& 0 <= self.row_height <= MAX_LENGTH
        &&& 0 <= self.card_height <= self.row_height
        &&& 0 <= self.card_width <= MAX_CARD
        &&& 0 <= self.spacing <= MAX_CARD
        &&& 0 <= self.rows * self.row_height <= MAX_LENGTH
        &&& -MAX_LENGTH <= self.first_row_y <= MAX_LENGTH
        &&& -MAX_LENGTH <= self.name_x <= MAX_LENGTH
        &&& -MAX_LENGTH <= self.time_x <= MAX_LENGTH
        &&& -MAX_LENGTH <= self.am_pm_x <= MAX_LENGTH
        &&& -MAX_LENGTH <= self.weekday_x <= MAX_LENGTH
    }

    /// The layout is the one that the settings give on the rectangle for
    /// `rows` rows.
    pub open spec fn describes(&self, config: &AppConfig, rect: &Rect, rows: usize) -> bool {
        let right = rect.x + rect.width - self.margin;
        let gap = field_gap_of(self.card_width as int);
        &&& self.rows == rows
        &&& self.margin == margin_of(config.scale as int)
        &&& self.row_height == row_height_of(rect.height as int, config.scale as int, rows as int)
        &&& self.card_height == board_card_height_of(self.row_height as int)
        &&& self.card_width == card_width_of(self.card_height as int)
        &&& self.spacing == board_spacing_of(self.card_width as int)
        &&& self.first_row_y == centered(
            rect.y as int,
            rect.height as int,
            rows * self.row_height,
        )
        &&& self.name_x == rect.x + self.margin
        &&& self.weekday_x == right - field_width(
            WEEKDAY_CELLS as int,
            self.card_width as int,
            self.spacing as int,
        )
        &&& self.am_pm_x == self.weekday_x - gap - field_width(
            AM_PM_CELLS as int,
            self.card_width as int,
            self.spacing as int,
        )
        &&& self.time_x == self.am_pm_x - gap - field_width(
            TIME_CELLS as int,
            self.card_width as int,
            self.spacing as int,
        )
        &&& self.font_size == board_font_size_of(self.card_height as int)
        &&& self.corner_radius == corner_radius_of(config.corner_radius as int, true)
    }

    /// The left edge of a field.
    pub open spec fn field_x(&self, field: BoardField) -> int {
        match field {
            BoardField::Name => self.name_x as int,
            BoardField::Time => self.time_x as int,
            BoardField::AmPm => self.am_pm_x as int,
            BoardField::Weekday => self.weekday_x as int,
        }
    }

    /// Whether a field has a cell `index`; a name is as long as its city's.
    pub open spec fn has_cell(field: BoardField, index: int) -> bool {
        match field {
            BoardField::Name => true,
            BoardField::Time => index < TIME_CELLS,
            BoardField::AmPm => index < AM_PM_CELLS,
            BoardField::Weekday => index < WEEKDAY_CELLS,
        }
    }

    /// The top edge of row `row`.
    pub open spec fn row_y(&self, row: int) -> int {
        self.first_row_y + row * self.row_height
    }

    /// The left edge of cell `index` of a field.
    pub open spec fn cell_x(&self, field: BoardField, index: int) -> int {
        self.field_x(field) + index * (self.card_width + self.spacing)
    }

    /// The box of cell `index` of a field in row `row`.
    pub open spec fn box_at(&self, field: BoardField, row: int, index: int) -> CardBox {
        CardBox {
            x: self.cell_x(field, index) as i64,
            y: self.row_y(row) as i64,
            width: self.card_width,
            height: self.card_height,
        }
    }

    /// The box of cell `index` of a field in row `row`, or `None` when the
    /// board has no such row or the field no such cell.
    pub fn cell(&self, field: BoardField, row: usize, index: u16) -> (b: Option<CardBox>)
        requires
            self.wf(),
        ensures
            b is Some <==> row < self.rows && BoardLayout::has_cell(field, index as int),
            b is Some ==> b->0 == self.box_at(field, row as int, index as int),
            b is Some ==> b->0.x == self.cell_x(field, index as int),
            b is Some ==> b->0.y == self.row_y(row as int),
            b is Some ==> b->0.width == self.card_width,
            b is Some ==> b->0.height == self.card_height,
            b is Some ==> b->0.wf(),
    {
        if row >= self.rows {
            return None;
        }
        let index_wide: usize = index as usize;
        let (present, origin): (bool, i64) = match field {
            BoardField::Name => (true, self.name_x),
            BoardField::Time => (index_wide < TIME_CELLS, self.time_x),
            BoardField::AmPm => (index_wide < AM_PM_CELLS, self.am_pm_x),
            BoardField::Weekday => (index_wide < WEEKDAY_CELLS, self.weekday_x),
        };
        if !present {
            return None;
        }
        let step: i64 = self.card_width + self.spacing;
        let ghost rows: int = self.rows as int;
        let ghost height: int = self.row_height as int;
        let ghost r: int = row as int;
        let ghost i: int = index as int;
        let ghost pace: int = step as int;
        assert(0 <= r * height <= rows * height && (height > 0 ==> r <= r * height))
            by (nonlinear_arith)
            requires
                0 <= r < rows,
                0 <= height,
        ;
        assert(0 <= i * pace <= 0xFFFF * 0x200_0000_0000) by (nonlinear_arith)
            requires
                0 <= i <= 0xFFFF,
                0 <= pace <= 0x200_0000_0000,
        ;
        let down: i64 = if self.row_height == 0 {
            0
        } else {
            (row as i64) * self.row_height
        };
        let along: i64 = (index as i64) * step;
        Some(
            CardBox {
                x: origin + along,
                y: self.first_row_y + down,
                width: self.card_width,
                height: self.card_height,
            },
        )
    }
}

/// Lays out a departure board of `rows` rows on a rectangle.
///
/// The rows share the height between the margins, up to a cap, and stand
/// centered as a block. In each row the weekday ends at the right margin,
/// with AM/PM and the time to its left, and the name starts at the left
/// margin.
pub fn board_layout(config: &AppConfig, rect: &Rect, rows: usize) -> (l: BoardLayout)
    ensures
        l.describes(config, rect, rows),
        l.wf(),
{
    let height: u64 = rect.height as u64;
    let scale: u64 = config.scale as u64;
    let margin: u64 = 20 * scale / 1_000;
    assert(height * 15 * scale <= 0xFFFF_FFFF * 15 * 0xFFFF) by (nonlinear_arith)
        requires
            height <= 0xFFFF_FFFF,
            scale <= 0xFFFF,
    ;
    let cap: u64 = height * 15 * scale / 100_000;
    let available: u64 = if height >= 2 * margin {
        height - 2 * margin
    } else {
        0
    };
    let row_height: u64 = if rows == 0 {
        cap
    } else if available / (rows as u64) < cap {
        available / (rows as u64)
    } else {
        cap
    };
    proof {
        if rows > 0 {
            lemma_shares_fit(available as int, rows as int, row_height as int);
        }
    }
    let block: u64 = if rows == 0 {
        0
    } else {
        (rows as u64) * row_height
    };
    let card_height: u64 = row_height * 8 / 10;
    let card_width: u64 = card_height * 6 / 10;
    let spacing: u64 = card_width / 10;
    let gap: u64 = card_width * 3 / 2;
    let first_row_y: i64 = rect.y as i64 + centering_margin(height, block);
    let right: i64 = rect.x as i64 + rect.width as i64 - margin as i64;
    let weekday_x: i64 = right - (3 * card_width + 2 * spacing) as i64;
    let am_pm_x: i64 = weekday_x - gap as i64 - (2 * card_width + spacing) as i64;
    let time_x: i64 = am_pm_x - gap as i64 - (5 * card_width + 4 * spacing) as i64;
    BoardLayout {
        rows,
        margin: margin as i64,
        row_height: row_height as i64,
        card_width: card_width as i64,
        card_height: card_height as i64,
        spacing: spacing as i64,
        first_row_y,
        name_x: rect.x as i64 + margin as i64,
        time_x,
        am_pm_x,
        weekday_x,
        font_size: (card_height * 7 / 10) as i64,
        corner_radius: (config.corner_radius / 2) as i64,
    }
}

/// The rows stand inside the rectangle, one under the other: the first
/// starts at or below the top, each card ends where the next row begins or
/// above, and the last row ends at or above the bottom.
pub proof fn board_rows_fit(l: BoardLayout, config: &AppConfig, rect: &Rect, rows: usize, row: int)
    requires
        l.describes(config, rect, rows),
        0 <= row < rows,
    ensures
        rect.y <= l.row_y(0),
        l.row_y(row) + l.card_height <= l.row_y(row + 1),
        l.row_y(row + 1) <= l.row_y(rows as int),
        l.row_y(rows as int) <= rect.y + rect.height,
{
    let h = l.row_height as int;
    let n = rows as int;
    let available = available_height(rect.height as int, config.scale as int);
    lemma_shares_fit(available, n, h);
    assert(0 * h == 0);
    assert((row + 1) * h == row * h + h) by (nonlinear_arith);
    assert((row + 1) * h <= n * h) by (nonlinear_arith)
        requires
            row + 1 <= n,
            0 <= h,
    ;
}

/// The fields of a row stand side by side: the time, then AM/PM, then the
/// weekday, each ending before the next begins, the last at the right
/// margin.
pub proof fn board_fields_are_ordered(l: BoardLayout, config: &AppConfig, rect: &Rect, rows: usize)
    requires
        l.describes(config, rect, rows),
    ensures
        l.cell_x(BoardField::Time, TIME_CELLS - 1) + l.card_width <= l.am_pm_x,
        l.cell_x(BoardField::AmPm, AM_PM_CELLS - 1) + l.card_width <= l.weekday_x,
        l.cell_x(BoardField::Weekday, WEEKDAY_CELLS - 1) + l.card_width == rect.x + rect.width
            - l.margin,
        l.name_x == rect.x + l.margin,
{
    let w = l.card_width as int;
    let s = l.spacing as int;
    assert(field_width(5, w, s) == 5 * w + 4 * s) by (nonlinear_arith);
    assert(field_width(2, w, s) == 2 * w + s) by (nonlinear_arith);
    assert(field_width(3, w, s) == 3 * w + 2 * s) by (nonlinear_arith);
    assert(4 * (w + s) == 4 * w + 4 * s);
    assert(2 * (w + s) == 2 * w + 2 * s);
}

} // verus!
