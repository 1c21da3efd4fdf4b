use flip_clock::board::City;
use flip_clock::clock::TimeOfDay;
use flip_clock::compositor::{
    clock_dots, default_assignments, find_view, plan_surfaces, Compositor, ExitGuard, SurfaceFrame,
    SurfaceInfo, SurfacePlan,
};
use flip_clock::config::{AppConfig, ViewAssignment, ViewType};
use flip_clock::layout::{clock_layout, Rect};

fn surface(id: &str, x: i32, primary: bool) -> SurfaceInfo {
    SurfaceInfo { id: id.to_string(), x, y: 0, width: 1920, height: 1080, is_primary: primary }
}

fn assign(id: &str, view: ViewType) -> ViewAssignment {
    ViewAssignment { surface: id.to_string(), view }
}

fn window() -> Rect {
    Rect { x: 0, y: 0, width: 1024, height: 768 }
}

fn views(config: &AppConfig, surfaces: &Vec<SurfaceInfo>) -> Vec<ViewType> {
    plan_surfaces(config, surfaces, &window()).iter().map(|p| p.view).collect()
}

#[test]
fn no_surface_means_the_clock_on_the_whole_window() {
    let plans = plan_surfaces(&AppConfig::default(), &Vec::new(), &window());
    assert_eq!(plans.len(), 1);
    assert_eq!(plans[0].view, ViewType::Clock);
    assert_eq!((plans[0].rect.width, plans[0].rect.height), (1024, 768));
}

#[test]
fn lone_unassigned_surface_shows_the_clock() {
    let surfaces = vec![surface("A", 0, true)];
    assert_eq!(views(&AppConfig::default(), &surfaces), vec![ViewType::Clock]);
    let mut config = AppConfig::default();
    config.monitor_views.push(assign("GONE", ViewType::DepartureBoard));
    assert_eq!(views(&config, &surfaces), vec![ViewType::Clock]);
}

#[test]
fn unassigned_surfaces_among_several_are_off() {
    let surfaces = vec![surface("A", 0, true), surface("B", 1920, false)];
    assert_eq!(views(&AppConfig::default(), &surfaces), vec![ViewType::Off, ViewType::Off]);
    let mut config = AppConfig::default();
    config.monitor_views.push(assign("B", ViewType::DepartureBoard));
    assert_eq!(views(&config, &surfaces), vec![ViewType::Off, ViewType::DepartureBoard]);
}

#[test]
fn assigned_views_are_used() {
    let mut config = AppConfig::default();
    config.monitor_views.push(assign("A", ViewType::Off));
    config.monitor_views.push(assign("B", ViewType::Clock));
    config.monitor_views.push(assign("A", ViewType::DepartureBoard));
    let surfaces = vec![surface("B", 0, false), surface("A", 1920, true)];
    let plans = plan_surfaces(&config, &surfaces, &window());
    assert_eq!(plans[0].view, ViewType::Clock);
    assert_eq!(plans[1].view, ViewType::Off);
    assert_eq!((plans[1].rect.x, plans[1].rect.width), (1920, 1920));
    assert_eq!(find_view(&config.monitor_views, &"A".to_string()), Some(ViewType::Off));
    assert_eq!(find_view(&config.monitor_views, &"C".to_string()), None);
    assert_eq!(views(&config, &vec![surface("A", 0, true)]), vec![ViewType::Off]);
}

#[test]
fn single_choice_becomes_one_assignment_per_surface() {
    let surfaces = vec![surface("A", 0, false), surface("B", 1920, true)];
    let none: Vec<(String, ViewType)> = default_assignments(&String::new(), &surfaces)
        .into_iter()
        .map(|a| (a.surface, a.view))
        .collect();
    assert_eq!(
        none,
        vec![("A".to_string(), ViewType::Off), ("B".to_string(), ViewType::Clock)]
    );
    let chosen: Vec<ViewType> =
        default_assignments(&"A".to_string(), &surfaces).into_iter().map(|a| a.view).collect();
    assert_eq!(chosen, vec![ViewType::Clock, ViewType::Off]);
    let missing: Vec<ViewType> =
        default_assignments(&"Z".to_string(), &surfaces).into_iter().map(|a| a.view).collect();
    assert_eq!(missing, vec![ViewType::Off, ViewType::Off]);
}

#[test]
fn any_key_ends_the_show() {
    let mut guard = ExitGuard::new(0, 5, 5);
    assert!(guard.observe(1, true, 5, 5));
    assert!(guard.observe(10_000, true, 5, 5));
    assert_eq!((guard.anchor_x, guard.anchor_y), (5, 5));
}

#[test]
fn pointer_may_settle_during_the_grace_period() {
    let mut guard = ExitGuard::new(1_000, 0, 0);
    assert!(!guard.observe(1_100, false, 300, 400));
    assert!(!guard.observe(1_499, false, 320, 400));
    assert_eq!((guard.anchor_x, guard.anchor_y), (320, 400));
    assert!(!guard.observe(1_500, false, 330, 390));
    assert_eq!((guard.anchor_x, guard.anchor_y), (320, 400));
    assert!(guard.observe(1_600, false, 331, 400));
    assert!(guard.observe(1_600, false, 320, 389));
    assert!(!guard.observe(1_600, false, 310, 410));
    assert!(guard.observe(1_600, false, i32::MIN, i32::MAX));
}

fn face(c: &Compositor) -> Vec<(char, char, Option<u64>)> {
    let clock = c.clock();
    (0..clock.len())
        .map(|i| {
            let cell = clock.cell(i).unwrap();
            (cell.current(), cell.previous(), cell.animation_start())
        })
        .collect()
}

#[test]
fn tick_updates_then_settles() {
    let config = AppConfig::default();
    let cities = vec![City::new("UTC", 0, 0)];
    let start = TimeOfDay::new(23, 59, 59).unwrap();
    let utc: i64 = 1_431_648_000 - 1;
    let mut c = Compositor::new(&config, cities, &start, utc, 0);
    assert_eq!(c.board().len(), 1);
    let midnight = TimeOfDay::new(0, 0, 0).unwrap();
    c.tick(&config, &midnight, utc + 1, 1_000);
    let before = ['2', '3', '5', '9', '5', '9'];
    let cells = face(&c);
    for i in 0..6 {
        assert_eq!(cells[i], ('0', before[i], Some(1_000)));
    }
    let row = c.board().row(0).unwrap();
    assert_eq!(row.weekday().cell(0).unwrap().current(), 'F');
    assert_eq!(row.weekday().cell(0).unwrap().previous(), 'T');
    c.tick(&config, &midnight, utc + 1, 1_599);
    assert_eq!(face(&c)[0], ('0', '2', Some(1_000)));
    c.tick(&config, &midnight, utc + 1, 1_600);
    for cell in face(&c) {
        assert_eq!(cell, ('0', '0', None));
    }
    assert!(!c.board().row(0).unwrap().time().is_animating());
}

#[test]
fn tick_follows_the_seconds_setting() {
    let mut config = AppConfig::default();
    let noon = TimeOfDay::new(12, 0, 0).unwrap();
    let mut c = Compositor::new(&config, Vec::new(), &noon, 0, 0);
    assert_eq!(c.clock().len(), 6);
    config.show_seconds = false;
    config.use_12h_format = true;
    let later = TimeOfDay::new(13, 5, 9).unwrap();
    c.tick(&config, &later, 0, 10);
    assert_eq!(
        face(&c),
        vec![('0', '0', None), ('1', '1', None), ('0', '0', None), ('5', '5', None)]
    );
}

fn full_hd(view: ViewType) -> SurfacePlan {
    SurfacePlan { rect: Rect { x: 0, y: 0, width: 1920, height: 1080 }, view }
}

#[test]
fn frame_of_a_surface_that_is_off() {
    let config = AppConfig::default();
    let c = Compositor::new(&config, Vec::new(), &TimeOfDay::new(1, 2, 3).unwrap(), 0, 0);
    assert!(matches!(c.frame(&config, &full_hd(ViewType::Off), false, 0), SurfaceFrame::Off));
}

#[test]
fn frame_of_the_clock() {
    let config = AppConfig::default();
    let mut c = Compositor::new(&config, Vec::new(), &TimeOfDay::new(12, 34, 59).unwrap(), 0, 0);
    c.tick(&config, &TimeOfDay::new(12, 35, 0).unwrap(), 0, 1_000);
    let SurfaceFrame::Clock { layout, cards, dots } =
        c.frame(&config, &full_hd(ViewType::Clock), false, 1_150)
    else {
        panic!("the plan asks for the clock");
    };
    assert_eq!((layout.cards, layout.start_x, layout.card_height), (6, 264, 367));
    let xs: Vec<i64> = cards.iter().map(|p| p.area.x).collect();
    assert_eq!(xs, vec![264, 492, 736, 964, 1208, 1436]);
    let glyphs: String = cards.iter().map(|p| p.frame.glyph).collect();
    assert_eq!(glyphs, "123459");
    let seams: Vec<Option<i64>> = cards.iter().map(|p| p.frame.seam_y).collect();
    let seam = Some(356 + 367 * 150 / 600);
    assert_eq!(seams, vec![None, None, None, seam, seam, seam]);
    assert!(cards.iter().all(|p| p.frame.split_y == 356 + 183 && !p.bare));
    assert_eq!(dots.iter().map(|d| d.center_x).collect::<Vec<i64>>(), vec![724, 1196]);
    let SurfaceFrame::Clock { cards, .. } =
        c.frame(&config, &full_hd(ViewType::Clock), false, 1_301)
    else {
        panic!("the plan asks for the clock");
    };
    assert_eq!(cards.iter().map(|p| p.frame.glyph).collect::<String>(), "123500");
}

#[test]
fn frame_of_the_board() {
    let config = AppConfig::default();
    let cities = vec![City::new("UTC", 0, 0), City::new("PARIS", 1, 0)];
    let noon = TimeOfDay::new(12, 0, 0).unwrap();
    let c = Compositor::new(&config, cities, &noon, 1_431_648_000, 0);
    let SurfaceFrame::Board { layout, rows } =
        c.frame(&config, &full_hd(ViewType::DepartureBoard), false, 0)
    else {
        panic!("the plan asks for the board");
    };
    assert_eq!((layout.rows, layout.row_height, layout.first_row_y), (2, 137, 403));
    assert_eq!(rows.len(), 2);
    let text = |i: usize| rows[i].iter().map(|p| p.frame.glyph).collect::<String>();
    assert_eq!(text(0), "UTC12:00AMFRI");
    assert_eq!(text(1), "PARIS 1:00AMFRI");
    let bare: Vec<bool> = rows[1].iter().map(|p| p.bare).collect();
    assert_eq!(bare.iter().filter(|b| **b).count(), 1);
    assert!(bare[5 + 2]);
    assert!(rows[1].iter().all(|p| p.area.y == 403 + 137 && p.frame.seam_y.is_none()));
    assert_eq!(rows[1][0].area.x, layout.name_x);
    assert_eq!(rows[1][5].area.x, layout.time_x);
    assert_eq!(rows[1][10].area.x, layout.am_pm_x);
    assert_eq!(rows[1][12].area.x, layout.weekday_x);
}

#[test]
fn dots_of_a_face() {
    let mut config = AppConfig::default();
    let rect = Rect { x: 0, y: 0, width: 1920, height: 1080 };
    assert_eq!(clock_dots(&clock_layout(&config, &rect, false)).len(), 2);
    config.show_seconds = false;
    assert_eq!(clock_dots(&clock_layout(&config, &rect, false)).len(), 1);
}
