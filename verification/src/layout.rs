//! The geometry of the clock face: from a surface and the settings to the
//! boxes of the cards.
//!
//! Nothing here keeps state. A layout is a function of the rectangle and the
//! settings it is computed from, so a surface that changes size simply gets
//! another layout on the next frame.

use vstd::prelude::*;
use crate::config::AppConfig;

verus! {

/// A rectangle of a surface, in pixels.
#[derive(Clone, Copy, Debug)]
pub struct Rect {
    pub x: i32,
    pub y: i32,
    pub width: u32,
    pub height: u32,
}

/// The box of one card, in pixels.
#[derive(Clone, Copy, Debug)]
pub struct CardBox {
    pub x: i64,
    pub y: i64,
    pub width: i64,
    pub height: i64,
}

impl CardBox {
    /// The box has a height and lies within the bounds of a layout.
    pub open spec fn wf(&self) -> bool {
        0 <= self.height <= MAX_LENGTH && -2 * MAX_LENGTH <= self.y <= 2 * MAX_LENGTH
    }
}

/// The two dots between two groups of digits.
#[derive(Clone, Copy, Debug)]
pub struct Separator {
    pub center_x: i64,
    pub upper_y: i64,
    pub lower_y: i64,
    pub dot_radius: i64,
}

/// The largest length that a layout holds.
pub const MAX_LENGTH: i64 = 0x1_0000_0000_0000;

/// The height of a card: two fifths of the surface's height, times the scale.
pub open spec fn card_height_of(height: int, scale: int) -> int {
    height * 4 * scale / 10_000
}

/// The width of a card, three fifths of its height.
pub open spec fn card_width_of(card_height: int) -> int {
    card_height * 6 / 10
}

/// The space between two cards of a group, a share of a card's width.
pub open spec fn spacing_of(card_width: int, spacing: int) -> int {
    card_width * spacing / 1_000
}

/// The space between two groups, three times the space between two cards.
pub open spec fn group_gap_of(spacing: int) -> int {
    spacing * 3
}

/// The number of cards on the face.
pub open spec fn card_count(show_seconds: bool) -> int {
    if show_seconds {
        6
    } else {
        4
    }
}

/// The width of the whole block: the cards, one space inside each pair and
/// one gap between neighboring pairs.
pub open spec fn content_width(cards: int, card_width: int, spacing: int, group_gap: int) -> int {
    cards * card_width + (cards / 2) * spacing + (cards / 2 - 1) * group_gap
}

/// Where content of a given size starts when it is centered in an extent
/// that begins at `origin`; an odd remainder goes to the far side.
pub open spec fn centered(origin: int, extent: int, content: int) -> int {
    origin + (extent - content) / 2
}

/// The size of the glyphs on the face, four fifths of a card's height.
pub open spec fn clock_font_size_of(card_height: int) -> int {
    card_height * 8 / 10
}

/// The radius of the corners: the configured one at full size, half of it
/// in a preview.
pub open spec fn corner_radius_of(radius: int, is_preview: bool) -> int {
    if is_preview {
        radius / 2
    } else {
        radius
    }
}

/// How far card `i` lies from the start of the block.
pub open spec fn card_offset(i: int, card_width: int, spacing: int, group_gap: int) -> int {
    i * card_width + ((i + 1) / 2) * spacing + (i / 2) * group_gap
}

/// The offsets of the six cards and the widths of the two blocks, spelled
/// out.
pub proof fn lemma_card_offsets(w: int, s: int, g: int)
    ensures
        card_offset(0, w, s, g) == 0,
        card_offset(1, w, s, g) == w + s,
        card_offset(2, w, s, g) == 2 * w + s + g,
        card_offset(3, w, s, g) == 3 * w + 2 * s + g,
        card_offset(4, w, s, g) == 4 * w + 2 * s + 2 * g,
        card_offset(5, w, s, g) == 5 * w + 3 * s + 2 * g,
        content_width(4, w, s, g) == 4 * w + 2 * s + g,
        content_width(6, w, s, g) == 6 * w + 3 * s + 2 * g,
{
    assert(card_offset(0, w, s, g) == 0) by (nonlinear_arith);
    assert(card_offset(1, w, s, g) == w + s) by (nonlinear_arith);
    assert(card_offset(2, w, s, g) == 2 * w + s + g) by (nonlinear_arith);
    assert(card_offset(3, w, s, g) == 3 * w + 2 * s + g) by (nonlinear_arith);
    assert(card_offset(4, w, s, g) == 4 * w + 2 * s + 2 * g) by (nonlinear_arith);
    assert(card_offset(5, w, s, g) == 5 * w + 3 * s + 2 * g) by (nonlinear_arith);
    assert(content_width(4, w, s, g) == 4 * w + 2 * s + g) by (nonlinear_arith);
    assert(content_width(6, w, s, g) == 6 * w + 3 * s + 2 * g) by (nonlinear_arith);
}

/// The geometry of a clock face on one surface.
#[derive(Clone, Copy, Debug)]
pub struct ClockLayout {
    pub cards: usize,
    pub card_width: i64,
    pub card_height: i64,
    pub spacing: i64,
    pub group_gap: i64,
    pub total_width: i64,
    pub start_x: i64,
    pub start_y: i64,
    pub font_size: i64,
    pub corner_radius: i64,
}

impl ClockLayout {
    /// The lengths are non-negative and bounded, and the block is as wide as
    /// its parts.
    pub open spec fn wf(&self) -> bool {
        &&& (self.cards == 4 || self.cards == 6)
        &&& 0 <= self.card_width <= MAX_LENGTH
        &&& 0 <= self.card_height <= MAX_LENGTH
        &&& 0 <= self.spacing <= MAX_LENGTH
        &&& self.group_gap == group_gap_of(self.spacing as int)
        &&& self.total_width == content_width(
            self.cards as int,
            self.card_width as int,
            self.spacing as int,
            self.group_gap as int,
        )
        &&& -MAX_LENGTH <= self.start_x <= MAX_LENGTH
        &&& -MAX_LENGTH <= self.start_y <= MAX_LENGTH
    }

    /// The layout is the one that the settings give on the rectangle.
    pub open spec fn describes(&self, config: &AppConfig, rect: &Rect, is_preview: bool) -> bool {
        &&& self.cards == card_count(config.show_seconds)
        &&& self.card_height == card_height_of(rect.height as int, config.scale as int)
        &&& self.card_width == card_width_of(self.card_height as int)
        &&& self.spacing == spacing_of(self.card_width as int, config.spacing as int)
        &&& self.group_gap == group_gap_of(self.spacing as int)
        &&& self.total_width == content_width(
            self.cards as int,
            self.card_width as int,
            self.spacing as int,
            self.group_gap as int,
        )
        &&& self.start_x == centered(rect.x as int, rect.width as int, self.total_width as int)
        &&& self.start_y == centered(rect.y as int, rect.height as int, self.card_height as int)
        &&& self.font_size == clock_font_size_of(self.card_height as int)
        &&& self.corner_radius == corner_radius_of(config.corner_radius as int, is_preview)
    }

    /// The left edge of card `i`.
    pub open spec fn card_x(&self, i: int) -> int {
        self.start_x + card_offset(
            i,
            self.card_width as int,
            self.spacing as int,
            self.group_gap as int,
        )
    }

    /// The box of card `i`.
    pub open spec fn box_at(&self, i: int) -> CardBox {
        CardBox {
            x: self.card_x(i) as i64,
            y: self.start_y,
            width: self.card_width,
            height: self.card_height,
        }
    }

    /// The box of card `index`, counted from the tens of the hours, or
    /// `None` past the last card.
    pub fn card(&self, index: usize) -> (b: Option<CardBox>)
        requires
            self.wf(),
        ensures
            b is Some <==> index < self.cards,
            b is Some ==> b->0 == self.box_at(index as int),
            b is Some ==> b->0.x == self.card_x(index as int),
            b is Some ==> b->0.wf(),
    {
        if index >= self.cards {
            return None;
        }
        proof {
            lemma_card_offsets(self.card_width as int, self.spacing as int, self.group_gap as int);
        }
        let w: i64 = self.card_width;
        let s: i64 = self.spacing;
        let g: i64 = self.group_gap;
        let offset: i64 = if index == 0 {
            0
        } else if index == 1 {
            w + s
        } else if index == 2 {
            w + w + s + g
        } else if index == 3 {
            w + w + w + s + s + g
        } else if index == 4 {
            w + w + w + w + s + s + g + g
        } else {
            w + w + w + w + w + s + s + s + g + g
        };
        Some(
            CardBox {
                x: self.start_x + offset,
                y: self.start_y,
                width: self.card_width,
                height: self.card_height,
            },
        )
    }

    /// The dots after pair `pair` of cards: in the middle of the gap, a
    /// twentieth of the card's height in radius and three twentieths above
    /// and below the card's middle.
    pub open spec fn dots_after(&self, pair: int) -> Separator {
        Separator {
            center_x: (self.card_x(2 * pair + 1) + self.card_width + self.group_gap / 2) as i64,
            upper_y: (self.start_y + self.card_height / 2 - self.card_height * 3 / 20) as i64,
            lower_y: (self.start_y + self.card_height / 2 + self.card_height * 3 / 20) as i64,
            dot_radius: (self.card_height / 20) as i64,
        }
    }

    /// The dots after pair `pair` of cards, or `None` after the last pair.
    pub fn separator(&self, pair: usize) -> (s: Option<Separator>)
        requires
            self.wf(),
        ensures
            s is Some <==> pair + 1 < self.cards / 2,
            s is Some ==> s->0 == self.dots_after(pair as int),
            s is Some ==> s->0.center_x == self.card_x(2 * pair + 1) + self.card_width
                + self.group_gap / 2,
            s is Some ==> s->0.upper_y == self.start_y + self.card_height / 2 - self.card_height
                * 3 / 20,
            s is Some ==> s->0.lower_y == self.start_y + self.card_height / 2 + self.card_height
                * 3 / 20,
            s is Some ==> s->0.dot_radius == self.card_height / 20,
    {
        if pair >= 2 || pair + 1 >= self.cards / 2 {
            return None;
        }
        proof {
            lemma_card_offsets(self.card_width as int, self.spacing as int, self.group_gap as int);
        }
        let w: i64 = self.card_width;
        let s: i64 = self.spacing;
        let g: i64 = self.group_gap;
        let offset: i64 = if pair == 0 {
            w + s
        } else {
            w + w + w + s + s + g
        };
        let middle: i64 = self.start_y + self.card_height / 2;
        let reach: i64 = self.card_height * 3 / 20;
        Some(
            Separator {
                center_x: self.start_x + offset + self.card_width + self.group_gap / 2,
                upper_y: middle - reach,
                lower_y: middle + reach,
                dot_radius: self.card_height / 20,
            },
        )
    }
}

/// Half the room that is left around content in an extent, rounded towards
/// the near side: the distance from the extent's origin to the content when
/// the content is centered. It is negative when the content is the larger.
pub fn centering_margin(extent: u64, content: u64) -> (m: i64)
    ensures
        m == (extent - content) / 2,
        m == centered(0, extent as int, content as int),
{
    if extent >= content {
        ((extent - content) / 2) as i64
    } else {
        let short: u64 = content - extent;
        let over: u64 = short / 2 + short % 2;
        if over > 0x7FFF_FFFF_FFFF_FFFF {
            i64::MIN
        } else {
            -(over as i64)
        }
    }
}

/// Lays out the clock face on a rectangle.
///
/// The cards are two fifths of the rectangle's height, times the scale, and
/// the block is centered both ways. Settings outside their ranges give cards
/// that are too large or overlap the rectangle's edge, never a failure.
pub fn clock_layout(config: &AppConfig, rect: &Rect, is_preview: bool) -> (l: ClockLayout)
    ensures
        l.describes(config, rect, is_preview),
        l.wf(),
{
    let height: u64 = rect.height as u64;
    let scale: u64 = config.scale as u64;
    assert(height * 4 * scale <= 0xFFFF_FFFF * 4 * 0xFFFF) by (nonlinear_arith)
        requires
            height <= 0xFFFF_FFFF,
            scale <= 0xFFFF,
    ;
    let card_height: u64 = height * 4 * scale / 10_000;
    let card_width: u64 = card_height * 6 / 10;
    let fraction: u64 = config.spacing as u64;
    assert(card_width * fraction <= 0x20_0000_0000 * 0xFFFF) by (nonlinear_arith)
        requires
            card_width <= 0x20_0000_0000,
            fraction <= 0xFFFF,
    ;
    let spacing: u64 = card_width * fraction / 1_000;
    let group_gap: u64 = spacing * 3;
    let cards: usize = if config.show_seconds { 6 } else { 4 };
    proof {
        lemma_card_offsets(card_width as int, spacing as int, group_gap as int);
    }
    let total_width: u64 = if config.show_seconds {
        6 * card_width + 3 * spacing + 2 * group_gap
    } else {
        4 * card_width + 2 * spacing + group_gap
    };
    let start_x: i64 = rect.x as i64 + centering_margin(rect.width as u64, total_width);
    let start_y: i64 = rect.y as i64 + centering_margin(height, card_height);
    let radius: u64 = if is_preview {
        (config.corner_radius / 2) as u64
    } else {
        config.corner_radius as u64
    };
    ClockLayout {
        cards,
        card_width: card_width as i64,
        card_height: card_height as i64,
        spacing: spacing as i64,
        group_gap: group_gap as i64,
        total_width: total_width as i64,
        start_x,
        start_y,
        font_size: (card_height * 8 / 10) as i64,
        corner_radius: radius as i64,
    }
}

/// A block that fits is centered: when the content is no wider than the
/// rectangle, it starts inside the rectangle, ends inside it, and the room
/// to its left and to its right differ by one pixel at most.
pub proof fn clock_block_is_centered(l: ClockLayout, config: &AppConfig, rect: &Rect, is_preview: bool)
    requires
        l.describes(config, rect, is_preview),
        l.total_width <= rect.width,
    ensures
        rect.x <= l.start_x,
        l.start_x + l.total_width <= rect.x + rect.width,
        ({
            let left = l.start_x - rect.x;
            let right = rect.x + rect.width - (l.start_x + l.total_width);
            left <= right <= left + 1
        }),
{
}

/// Within its range the scale keeps the cards inside the surface from top to
/// bottom: up to a scale of 2.5 a card is no taller than the rectangle, and
/// the room above it and below it differ by one pixel at most.
pub proof fn clock_block_fits_vertically(
    l: ClockLayout,
    config: &AppConfig,
    rect: &Rect,
    is_preview: bool,
)
    requires
        l.describes(config, rect, is_preview),
        config.scale <= 2_500,
    ensures
        l.card_height <= rect.height,
        rect.y <= l.start_y,
        l.start_y + l.card_height <= rect.y + rect.height,
        ({
            let above = l.start_y - rect.y;
            let below = rect.y + rect.height - (l.start_y + l.card_height);
            above <= below <= above + 1
        }),
{
    let h = rect.height as int;
    let s = config.scale as int;
    assert(h * 4 * s <= h * 10_000) by (nonlinear_arith)
        requires
            0 <= h,
            0 <= s <= 2_500,
    ;
}

/// The cards tile the block from left to right: the first starts where the
/// block starts, each one ends before the next begins, and the last ends
/// where the block ends.
pub proof fn clock_cards_do_not_overlap(l: ClockLayout, i: int)
    requires
        l.wf(),
        0 <= i < l.cards,
    ensures
        l.card_x(0) == l.start_x,
        l.start_x <= l.card_x(i),
        i + 1 < l.cards ==> l.card_x(i) + l.card_width <= l.card_x(i + 1),
        l.card_x(i) + l.card_width <= l.start_x + l.total_width,
        l.card_x(l.cards - 1) + l.card_width == l.start_x + l.total_width,
{
    lemma_card_offsets(l.card_width as int, l.spacing as int, l.group_gap as int);
}

/// A layout depends on nothing but its inputs: two layouts that describe the
/// same settings on the same rectangle are equal, whatever was laid out in
/// between.
pub proof fn layout_is_a_function_of_its_inputs(
    a: ClockLayout,
    b: ClockLayout,
    config: &AppConfig,
    rect: &Rect,
    is_preview: bool,
)
    requires
        a.describes(config, rect, is_preview),
        b.describes(config, rect, is_preview),
    ensures
        a == b,
{
}

} // verus!
