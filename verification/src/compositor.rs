//! What each surface shows on a frame, and the state that the frames share.

use vstd::prelude::*;
use crate::board::{city_offsets, BoardView, City, DepartureBoard};
use crate::cells::{cells_resting, cells_settled, cells_show, cells_updated};
use crate::clock::{face_glyphs, ClockFace, TimeOfDay};
use crate::config::{AppConfig, ViewAssignment, ViewType};
use crate::digit::FlipCell;
use crate::board_layout::{board_layout, BoardLayout};
use crate::layout::{card_count, clock_layout, ClockLayout, Rect, Separator};
use crate::render::{board_cards, board_cards_of, clock_cards, clock_cards_of, PlacedCard};

verus! {

/// A display as the platform reports it, placed in the coordinates of the
/// whole desktop.
#[derive(Debug)]
pub struct SurfaceInfo {
    pub id: String,
    pub x: i32,
    pub y: i32,
    pub width: u32,
    pub height: u32,
    pub is_primary: bool,
}

/// What to draw where on one frame.
#[derive(Clone, Copy, Debug)]
pub struct SurfacePlan {
    pub rect: Rect,
    pub view: ViewType,
}

impl SurfaceInfo {
    /// The rectangle that the surface covers.
    pub open spec fn area(&self) -> Rect {
        Rect { x: self.x, y: self.y, width: self.width, height: self.height }
    }

    /// The rectangle that the surface covers.
    pub fn rect(&self) -> (r: Rect)
        ensures
            r == self.area(),
    {
        Rect { x: self.x, y: self.y, width: self.width, height: self.height }
    }
}

/// The view of the first assignment, from position `from` on, that names
/// the surface `id`.
pub open spec fn assigned_from(assignments: Seq<ViewAssignment>, id: Seq<char>, from: int) -> Option<
    ViewType,
>
    decreases assignments.len() - from,
{
    if from < 0 || from >= assignments.len() {
        None
    } else if assignments[from].surface@ == id {
        Some(assignments[from].view)
    } else {
        assigned_from(assignments, id, from + 1)
    }
}

/// The view that the settings assign to the surface `id`, if any.
pub open spec fn assigned_view(assignments: Seq<ViewAssignment>, id: Seq<char>) -> Option<ViewType> {
    assigned_from(assignments, id, 0)
}

/// The view of a surface: the one assigned to it, and without an
/// assignment the clock on a lone surface and nothing on one of several.
pub open spec fn view_of(assignments: Seq<ViewAssignment>, id: Seq<char>, surfaces: nat) -> ViewType {
    match assigned_view(assignments, id) {
        Some(view) => view,
        None => if surfaces == 1 {
            ViewType::Clock
        } else {
            ViewType::Off
        },
    }
}

/// The plans of a frame: one per surface, or the clock on the whole window
/// when the platform reports no surface.
pub open spec fn frame_plans(
    assignments: Seq<ViewAssignment>,
    surfaces: Seq<SurfaceInfo>,
    window: Rect,
) -> Seq<SurfacePlan> {
    if surfaces.len() == 0 {
        seq![SurfacePlan { rect: window, view: ViewType::Clock }]
    } else {
        Seq::new(
            surfaces.len(),
            |i: int|
                SurfacePlan {
                    rect: surfaces[i].area(),
                    view: view_of(assignments, surfaces[i].id@, surfaces.len()),
                },
        )
    }
}

/// The assignments that stand in for a single chosen surface: the clock on
/// the chosen surface, or on the primary ones when none is chosen, and
/// nothing elsewhere.
pub open spec fn initial_views(selected: Seq<char>, surfaces: Seq<SurfaceInfo>) -> Seq<
    (Seq<char>, ViewType),
> {
    Seq::new(
        surfaces.len(),
        |i: int|
            (
                surfaces[i].id@,
                if (selected.len() == 0 && surfaces[i].is_primary) || (selected.len() != 0
                    && surfaces[i].id@ == selected) {
                    ViewType::Clock
                } else {
                    ViewType::Off
                },
            ),
    )
}

/// What a list of assignments says, entry by entry.
pub open spec fn assignment_entries(assignments: Seq<ViewAssignment>) -> Seq<(Seq<char>, ViewType)> {
    Seq::new(assignments.len(), |i: int| (assignments[i].surface@, assignments[i].view))
}

/// Looks up the view that the settings assign to a surface.
pub fn find_view(assignments: &Vec<ViewAssignment>, id: &String) -> (view: Option<ViewType>)
    ensures
        view == assigned_view(assignments@, id@),
{
    let n: usize = assignments.len();
    let mut i: usize = 0;
    while i < n
        invariant
            i <= n,
            n == assignments@.len(),
            assigned_view(assignments@, id@) == assigned_from(assignments@, id@, i as int),
        decreases n - i,
    {
        if assignments[i].surface == *id {
            return Some(assignments[i].view);
        }
        i += 1;
    }
    None
}

/// Decides what every surface shows on this frame.
pub fn plan_surfaces(config: &AppConfig, surfaces: &Vec<SurfaceInfo>, window: &Rect) -> (plans: Vec<
    SurfacePlan,
>)
    ensures
        plans@ == frame_plans(config.monitor_views@, surfaces@, *window),
        plans@.len() >= 1,
{
    let mut plans: Vec<SurfacePlan> = Vec::new();
    let n: usize = surfaces.len();
    if n == 0 {
        plans.push(SurfacePlan { rect: *window, view: ViewType::Clock });
        assert(plans@ =~= frame_plans(config.monitor_views@, surfaces@, *window));
        return plans;
    }
    let mut i: usize = 0;
    while i < n
        invariant
            i <= n,
            n == surfaces@.len(),
            n > 0,
            plans@.len() == i,
            forall|k: int|
                0 <= k < i ==> plans@[k] == frame_plans(
                    config.monitor_views@,
                    surfaces@,
                    *window,
                )[k],
        decreases n - i,
    {
        let assigned = find_view(&config.monitor_views, &surfaces[i].id);
        let view = match assigned {
            Some(v) => v,
            None => if n == 1 {
                ViewType::Clock
            } else {
                ViewType::Off
            },
        };
        plans.push(SurfacePlan { rect: surfaces[i].rect(), view });
        i += 1;
    }
    assert(plans@ =~= frame_plans(config.monitor_views@, surfaces@, *window));
    plans
}

/// Turns the choice of a single surface into one assignment per surface.
pub fn default_assignments(selected_monitor: &String, surfaces: &Vec<SurfaceInfo>) -> (views: Vec<
    ViewAssignment,
>)
    ensures
        assignment_entries(views@) == initial_views(selected_monitor@, surfaces@),
        views@.len() == surfaces@.len(),
{
    let mut views: Vec<ViewAssignment> = Vec::new();
    let none_selected: bool = selected_monitor.as_str().is_empty();
    let n: usize = surfaces.len();
    let mut i: usize = 0;
    while i < n
        invariant
            i <= n,
            n == surfaces@.len(),
            views@.len() == i,
            none_selected == (selected_monitor@.len() == 0),
            forall|k: int|
                0 <= k < i ==> ((#[trigger] views@[k]).surface@, views@[k].view) == initial_views(
                    selected_monitor@,
                    surfaces@,
                )[k],
        decreases n - i,
    {
        let is_clock: bool = if none_selected {
            surfaces[i].is_primary
        } else {
            surfaces[i].id == *selected_monitor
        };
        let view = if is_clock {
            ViewType::Clock
        } else {
            ViewType::Off
        };
        views.push(ViewAssignment { surface: surfaces[i].id.clone(), view });
        i += 1;
    }
    assert(assignment_entries(views@) =~= initial_views(selected_monitor@, surfaces@));
    views
}

/// What one surface shows on a frame.
#[derive(Debug)]
pub enum SurfaceFrame {
    /// Nothing but the background.
    Off,
    /// The clock face: its geometry, its cards and the dots between the
    /// pairs.
    Clock { layout: ClockLayout, cards: Vec<PlacedCard>, dots: Vec<Separator> },
    /// The departure board: its geometry and its cards, row by row.
    Board { layout: BoardLayout, rows: Vec<Vec<PlacedCard>> },
}

/// The dots of a face: one pair of dots between each two pairs of cards.
pub open spec fn dots_of(layout: ClockLayout) -> Seq<Separator> {
    Seq::new((layout.cards / 2 - 1) as nat, |k: int| layout.dots_after(k))
}

/// The dots of a face.
pub fn clock_dots(layout: &ClockLayout) -> (dots: Vec<Separator>)
    requires
        layout.wf(),
    ensures
        dots@ == dots_of(*layout),
{
    let mut dots: Vec<Separator> = Vec::new();
    let n: usize = layout.cards / 2 - 1;
    let mut k: usize = 0;
    while k < n
        invariant
            k <= n,
            n == layout.cards / 2 - 1,
            layout.wf(),
            dots@.len() == k,
            forall|j: int| 0 <= j < k ==> dots@[j] == layout.dots_after(j),
        decreases n - k,
    {
        dots.push(layout.separator(k).unwrap());
        k += 1;
    }
    assert(dots@ =~= dots_of(*layout));
    dots
}

/// The grace period, in milliseconds, during which the pointer may still
/// come to rest.
pub const GRACE_PERIOD: u64 = 500;

/// How far, in pixels along either axis, the pointer may stray before the
/// clock gives way.
pub const POINTER_SLACK: u32 = 10;

/// Decides when the user wants the clock gone: on any key, or when the
/// pointer has moved away from where it came to rest.
#[derive(Clone, Copy, Debug)]
pub struct ExitGuard {
    pub started: u64,
    pub anchor_x: i32,
    pub anchor_y: i32,
}

impl ExitGuard {
    /// Whether the grace period is still running at `now`.
    pub open spec fn in_grace(&self, now: u64) -> bool {
        now - self.started < GRACE_PERIOD
    }

    /// Whether the pointer at `(x, y)` has strayed from the anchor.
    pub open spec fn strayed(&self, x: i32, y: i32) -> bool {
        x - self.anchor_x > POINTER_SLACK || self.anchor_x - x > POINTER_SLACK || y - self.anchor_y
            > POINTER_SLACK || self.anchor_y - y > POINTER_SLACK
    }

    /// Whether the clock gives way on the given input.
    pub open spec fn gives_way(&self, now: u64, key_pressed: bool, x: i32, y: i32) -> bool {
        key_pressed || (!self.in_grace(now) && self.strayed(x, y))
    }

    /// The guard after the given input: during the grace period the anchor
    /// follows the pointer, afterwards it stays.
    pub open spec fn after(&self, now: u64, key_pressed: bool, x: i32, y: i32) -> ExitGuard {
        if !key_pressed && self.in_grace(now) {
            ExitGuard { started: self.started, anchor_x: x, anchor_y: y }
        } else {
            *self
        }
    }

    /// A guard that starts its grace period at `now` with the pointer at
    /// `(x, y)`.
    pub fn new(now: u64, x: i32, y: i32) -> (guard: ExitGuard)
        ensures
            guard == (ExitGuard { started: now, anchor_x: x, anchor_y: y }),
    {
        ExitGuard { started: now, anchor_x: x, anchor_y: y }
    }

    /// Takes the input of one frame and says whether the clock gives way.
    pub fn observe(&mut self, now: u64, key_pressed: bool, x: i32, y: i32) -> (exit: bool)
        ensures
            exit == old(self).gives_way(now, key_pressed, x, y),
            *final(self) == old(self).after(now, key_pressed, x, y),
    {
        if key_pressed {
            return true;
        }
        if now < self.started || now - self.started < GRACE_PERIOD {
            self.anchor_x = x;
            self.anchor_y = y;
            return false;
        }
        let dx: i64 = x as i64 - self.anchor_x as i64;
        let dy: i64 = y as i64 - self.anchor_y as i64;
        let slack: i64 = POINTER_SLACK as i64;
        dx > slack || -dx > slack || dy > slack || -dy > slack
    }
}

/// The state that lives from frame to frame: the clock face and the
/// departure board.
#[derive(Debug)]
pub struct Compositor {
    clock: ClockFace,
    board: DepartureBoard,
}

/// The face after one frame: rebuilt at rest when the number of its cells no
/// longer fits the settings, else shown the reading; then every flip that
/// has run its full length is committed.
pub open spec fn face_after_frame(
    face: Seq<FlipCell>,
    config: &AppConfig,
    time: TimeOfDay,
    now: u64,
) -> Seq<FlipCell> {
    let glyphs = face_glyphs(time, config.use_12h_format);
    let shown = if face.len() == card_count(config.show_seconds) {
        cells_updated(face, glyphs, now)
    } else {
        cells_resting(glyphs, card_count(config.show_seconds) as nat)
    };
    cells_settled(shown, now, config.animation_speed)
}

/// The board after one frame: shown the instant, then every flip that has
/// run its full length committed.
pub open spec fn board_after_frame(
    board: BoardView,
    config: &AppConfig,
    utc_seconds: i64,
    now: u64,
) -> BoardView {
    board.updated(utc_seconds, now).settled(now, config.animation_speed)
}

/// After a frame the face shows the reading: whatever state it was in,
/// every cell's target is the digit of the time that the frame was given,
/// so no change of the time is dropped.
pub proof fn frame_shows_the_reading(face: Seq<FlipCell>, config: &AppConfig, time: TimeOfDay, now: u64)
    ensures
        face_after_frame(face, config, time, now).len() == (if face.len() == card_count(
            config.show_seconds,
        ) {
            face.len()
        } else {
            card_count(config.show_seconds) as nat
        }),
        cells_show(
            face_after_frame(face, config, time, now),
            face_glyphs(time, config.use_12h_format),
        ),
{
}

impl Compositor {
    /// The clock face.
    pub closed spec fn face(&self) -> Seq<FlipCell> {
        self.clock@
    }

    /// The departure board.
    pub closed spec fn rows(&self) -> BoardView {
        self.board@
    }

    /// The cities of the board.
    pub closed spec fn listed(&self) -> Seq<City> {
        self.board.cities_of()
    }

    /// Both parts are well formed.
    pub closed spec fn wf(&self) -> bool {
        self.clock.wf() && self.board@.wf()
    }

    /// A compositor at rest on the given reading and instant.
    pub fn new(
        config: &AppConfig,
        cities: Vec<City>,
        time: &TimeOfDay,
        utc_seconds: i64,
        now: u64,
    ) -> (c: Compositor)
        ensures
            c.wf(),
            c.face() == cells_resting(
                face_glyphs(*time, config.use_12h_format),
                card_count(config.show_seconds) as nat,
            ),
            c.rows() == BoardView::blank(city_offsets(cities@)).updated(utc_seconds, now).at_rest(),
            c.rows().rows.len() == cities@.len(),
            c.listed() == cities@,
    {
        Compositor {
            clock: ClockFace::new(time, config.use_12h_format, config.show_seconds),
            board: DepartureBoard::new(cities, utc_seconds, now),
        }
    }

    /// The clock face.
    pub fn clock(&self) -> (face: &ClockFace)
        requires
            self.wf(),
        ensures
            face@ == self.face(),
            face.wf(),
    {
        &self.clock
    }

    /// The departure board.
    pub fn board(&self) -> (board: &DepartureBoard)
        requires
            self.wf(),
        ensures
            board@ == self.rows(),
            board@.wf(),
            board.cities_of() == self.listed(),
    {
        &self.board
    }

    /// Decides what the surface of a plan shows at `now`: nothing, or the
    /// face laid out on the plan's rectangle with its cards, or the board
    /// laid out on it with the cards of its rows.
    pub fn frame(&self, config: &AppConfig, plan: &SurfacePlan, is_preview: bool, now: u64) -> (f:
        SurfaceFrame)
        requires
            self.wf(),
        ensures
            match f {
                SurfaceFrame::Off => plan.view == ViewType::Off,
                SurfaceFrame::Clock { layout, cards, dots } => {
                    &&& plan.view == ViewType::Clock
                    &&& layout.describes(config, &plan.rect, is_preview)
                    &&& cards@ == clock_cards_of(self.face(), layout, now, config.animation_speed)
                    &&& dots@ == dots_of(layout)
                },
                SurfaceFrame::Board { layout, rows } => {
                    &&& plan.view == ViewType::DepartureBoard
                    &&& layout.describes(config, &plan.rect, self.rows().rows.len() as usize)
                    &&& rows@.len() == self.rows().rows.len()
                    &&& forall|i: int|
                        0 <= i < rows@.len() ==> (#[trigger] rows@[i])@ == board_cards_of(
                            self.listed(),
                            self.rows(),
                            layout,
                            now,
                            config.animation_speed,
                        )[i]
                },
            },
    {
        match plan.view {
            ViewType::Off => SurfaceFrame::Off,
            ViewType::Clock => {
                let layout = clock_layout(config, &plan.rect, is_preview);
                let cards = clock_cards(&self.clock, &layout, now, config.animation_speed);
                let dots = clock_dots(&layout);
                SurfaceFrame::Clock { layout, cards, dots }
            },
            ViewType::DepartureBoard => {
                let layout = board_layout(config, &plan.rect, self.board.len());
                let rows = board_cards(&self.board, &layout, now, config.animation_speed);
                SurfaceFrame::Board { layout, rows }
            },
        }
    }

    /// Advances the state by one frame: first the face and the board are
    /// shown the time, then the flips that have run their full length are
    /// committed, each exactly once.
    pub fn tick(&mut self, config: &AppConfig, time: &TimeOfDay, utc_seconds: i64, now: u64)
        requires
            old(self).wf(),
        ensures
            final(self).wf(),
            final(self).face() == face_after_frame(old(self).face(), config, *time, now),
            final(self).rows() == board_after_frame(old(self).rows(), config, utc_seconds, now),
            final(self).listed() == old(self).listed(),
    {
        let wanted: usize = if config.show_seconds { 6 } else { 4 };
        if self.clock.len() == wanted {
            self.clock.update(time, now, config.use_12h_format);
        } else {
            self.clock = ClockFace::new(time, config.use_12h_format, config.show_seconds);
        }
        self.clock.settle_completed(now, config.animation_speed);
        self.board.update(utc_seconds, now);
        self.board.settle_completed(now, config.animation_speed);
    }
}

} // verus!
