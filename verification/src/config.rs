//! The configuration snapshot that the engine reads on every frame.

use vstd::prelude::*;

verus! {

/// What a surface displays.
#[derive(Clone, Copy, Debug, PartialEq, Eq, Structural)]
pub enum ViewType {
    Clock,
    DepartureBoard,
    Off,
}

/// The view assigned to the surface that goes by `surface`.
#[derive(Clone, Debug)]
pub struct ViewAssignment {
    pub surface: String,
    pub view: ViewType,
}

/// A color in eight bits per channel.
#[derive(Clone, Copy, Debug, PartialEq, Eq, Structural)]
pub struct Rgb {
    pub red: u8,
    pub green: u8,
    pub blue: u8,
}

/// The settings of the clock.
///
/// The engine reads a snapshot and never changes it. It does not check the
/// ranges either: the editor of the settings keeps `scale` within 200..=1000,
/// `spacing` within 0..=100, `corner_radius` within 0..=20 and
/// `animation_speed` within 100..=2000, and values outside them give a layout
/// that is too large or too small, never a failure.
#[derive(Clone, Debug)]
pub struct AppConfig {
    /// The surface chosen before views were assigned per surface.
    pub selected_monitor: String,
    /// The view of each surface, by the surface's name.
    pub monitor_views: Vec<ViewAssignment>,
    /// Whether the hours run from 1 to 12.
    pub use_12h_format: bool,
    /// Whether the face has its two cells for the seconds.
    pub show_seconds: bool,
    /// Whether the face is drawn coarse and scaled up.
    pub pixelated: bool,
    /// The size of the cards, in thousandths of the largest size.
    pub scale: u16,
    /// The space between two cards, in thousandths of a card's width.
    pub spacing: u16,
    /// The radius of a card's corners, in pixels.
    pub corner_radius: u16,
    /// The color behind the cards.
    pub bg_color: Rgb,
    /// The color of the cards.
    pub card_color: Rgb,
    /// The color of the glyphs.
    pub text_color: Rgb,
    /// The length of a flip, in milliseconds.
    pub animation_speed: u64,
}

/// The scale that is in force when none is set: 85 %.
pub const DEFAULT_SCALE: u16 = 850;

/// The spacing that is in force when none is set: 4 % of a card's width.
pub const DEFAULT_SPACING: u16 = 40;

/// The corner radius that is in force when none is set.
pub const DEFAULT_CORNER_RADIUS: u16 = 8;

/// The length of a flip that is in force when none is set.
pub const DEFAULT_ANIMATION_SPEED: u64 = 600;

/// The background color that is in force when none is set, `#202020`.
pub open spec fn default_bg() -> Rgb {
    Rgb { red: 0x20, green: 0x20, blue: 0x20 }
}

/// The card color that is in force when none is set, `#2a2a2a`.
pub open spec fn default_card() -> Rgb {
    Rgb { red: 0x2a, green: 0x2a, blue: 0x2a }
}

/// The glyph color that is in force when none is set, `#e5e5e5`.
pub open spec fn default_text() -> Rgb {
    Rgb { red: 0xe5, green: 0xe5, blue: 0xe5 }
}

impl Default for AppConfig {
    /// The settings that are in force where nothing was chosen: a 24-hour
    /// face with seconds, drawn smooth at 85 % with 4 % spacing and corners
    /// of 8 pixels, dark grey on darker grey with light glyphs, flipping in
    /// 600 ms, and no surface chosen.
    fn default() -> (config: AppConfig)
        ensures
            config.selected_monitor@.len() == 0,
            config.monitor_views@.len() == 0,
            !config.use_12h_format,
            config.show_seconds,
            !config.pixelated,
            config.scale == DEFAULT_SCALE,
            config.spacing == DEFAULT_SPACING,
            config.corner_radius == DEFAULT_CORNER_RADIUS,
            config.bg_color == default_bg(),
            config.card_color == default_card(),
            config.text_color == default_text(),
            config.animation_speed == DEFAULT_ANIMATION_SPEED,
    {
        AppConfig {
            selected_monitor: String::new(),
            monitor_views: Vec::new(),
            use_12h_format: false,
            show_seconds: true,
            pixelated: false,
            scale: DEFAULT_SCALE,
            spacing: DEFAULT_SPACING,
            corner_radius: DEFAULT_CORNER_RADIUS,
            bg_color: Rgb { red: 0x20, green: 0x20, blue: 0x20 },
            card_color: Rgb { red: 0x2a, green: 0x2a, blue: 0x2a },
            text_color: Rgb { red: 0xe5, green: 0xe5, blue: 0xe5 },
            animation_speed: DEFAULT_ANIMATION_SPEED,
        }
    }
}

} // verus!
