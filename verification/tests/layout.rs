use flip_clock::board_layout::{board_layout, BoardField};
use flip_clock::config::AppConfig;
use flip_clock::layout::{centering_margin, clock_layout, Rect};

fn full_hd() -> Rect {
    Rect { x: 0, y: 0, width: 1920, height: 1080 }
}

#[test]
fn clock_layout_on_a_full_hd_surface() {
    let l = clock_layout(&AppConfig::default(), &full_hd(), false);
    assert_eq!(l.cards, 6);
    assert_eq!(l.card_height, 367);
    assert_eq!(l.card_width, 220);
    assert_eq!(l.spacing, 8);
    assert_eq!(l.group_gap, 24);
    assert_eq!(l.total_width, 1392);
    assert_eq!(l.start_x, 264);
    assert_eq!(l.start_y, 356);
    assert_eq!(l.font_size, 293);
    assert_eq!(l.corner_radius, 8);
}

#[test]
fn clock_layout_without_seconds() {
    let mut config = AppConfig::default();
    config.show_seconds = false;
    let l = clock_layout(&config, &full_hd(), false);
    assert_eq!(l.cards, 4);
    assert_eq!(l.total_width, 920);
    assert_eq!(l.start_x, 500);
    assert!(l.card(4).is_none());
    assert!(l.separator(0).is_some());
    assert!(l.separator(1).is_none());
}

#[test]
fn clock_layout_of_a_preview() {
    let rect = Rect { x: 0, y: 0, width: 400, height: 225 };
    let l = clock_layout(&AppConfig::default(), &rect, true);
    assert_eq!(l.card_height, 76);
    assert_eq!(l.card_width, 45);
    assert_eq!(l.spacing, 1);
    assert_eq!(l.group_gap, 3);
    assert_eq!(l.total_width, 279);
    assert_eq!(l.start_x, 60);
    assert_eq!(l.start_y, 74);
    assert_eq!(l.font_size, 60);
    assert_eq!(l.corner_radius, 4);
}

#[test]
fn clock_block_is_centered_in_its_surface() {
    let rect = Rect { x: 1920, y: -100, width: 1920, height: 1080 };
    let l = clock_layout(&AppConfig::default(), &rect, false);
    assert_eq!(l.start_x, 1920 + 264);
    assert_eq!(l.start_y, -100 + 356);
    let left = l.start_x - rect.x as i64;
    let right = rect.x as i64 + rect.width as i64 - (l.start_x + l.total_width);
    assert!(l.start_x + l.total_width <= rect.x as i64 + rect.width as i64);
    assert!(right == left || right == left + 1);
    let centre = (l.start_x as f64 + l.total_width as f64 / 2.0) - rect.x as f64;
    assert!((centre - rect.width as f64 / 2.0).abs() <= 0.5);
}

#[test]
fn clock_cards_tile_the_block() {
    let l = clock_layout(&AppConfig::default(), &full_hd(), false);
    let xs: Vec<i64> = (0..6).map(|i| l.card(i).unwrap().x).collect();
    assert_eq!(xs, vec![264, 492, 736, 964, 1208, 1436]);
    for i in 0..6 {
        let b = l.card(i).unwrap();
        assert_eq!((b.y, b.width, b.height), (356, 220, 367));
    }
    assert_eq!(xs[5] + 220, l.start_x + l.total_width);
    assert!(l.card(6).is_none());
}

#[test]
fn separators_sit_in_the_gaps() {
    let l = clock_layout(&AppConfig::default(), &full_hd(), false);
    let first = l.separator(0).unwrap();
    assert_eq!(
        (first.center_x, first.upper_y, first.lower_y, first.dot_radius),
        (724, 484, 594, 18)
    );
    assert_eq!(l.separator(1).unwrap().center_x, 1196);
    assert!(l.separator(2).is_none());
    assert!(l.separator(usize::MAX).is_none());
}

#[test]
fn content_wider_than_the_surface_sticks_out_evenly() {
    let rect = Rect { x: 0, y: 0, width: 100, height: 1000 };
    let l = clock_layout(&AppConfig::default(), &rect, false);
    assert_eq!(l.card_height, 340);
    assert_eq!(l.card_width, 204);
    assert_eq!(l.total_width, 1296);
    assert_eq!(l.start_x, -598);
    assert!(l.start_x + l.total_width > 100);
}

#[test]
fn settings_out_of_range_do_not_fail() {
    let mut config = AppConfig::default();
    config.scale = u16::MAX;
    config.spacing = u16::MAX;
    config.corner_radius = u16::MAX;
    let rect = Rect { x: i32::MIN, y: i32::MAX, width: u32::MAX, height: u32::MAX };
    let l = clock_layout(&config, &rect, true);
    assert_eq!(l.card_height, u32::MAX as i64 * 4 * 65_535 / 10_000);
    assert_eq!(l.corner_radius, 32_767);
    assert!(l.card(5).is_some());
    let b = board_layout(&config, &rect, usize::MAX);
    assert_eq!(b.row_height, 0);
    assert!(b.cell(BoardField::Name, usize::MAX - 1, u16::MAX).is_some());
    config.scale = 0;
    let l = clock_layout(&config, &full_hd(), false);
    assert_eq!((l.card_height, l.total_width, l.start_x, l.start_y), (0, 0, 960, 540));
}

#[test]
fn layouts_do_not_remember_each_other() {
    let config = AppConfig::default();
    let small = Rect { x: 0, y: 0, width: 400, height: 225 };
    let first = clock_layout(&config, &full_hd(), false);
    let between = clock_layout(&config, &small, false);
    let again = clock_layout(&config, &full_hd(), false);
    assert_eq!(between.card_height, 76);
    assert_eq!(
        (first.card_width, first.start_x, first.start_y, first.total_width),
        (again.card_width, again.start_x, again.start_y, again.total_width)
    );
}

#[test]
fn centering_rounds_towards_the_origin_side() {
    assert_eq!(centering_margin(5, 2), 1);
    assert_eq!(centering_margin(2, 5), -2);
    assert_eq!(centering_margin(100, 1297), -599);
    assert_eq!(centering_margin(7, 7), 0);
    assert_eq!(centering_margin(u64::MAX, 0), i64::MAX);
    assert_eq!(centering_margin(0, u64::MAX), i64::MIN);
    assert_eq!(centering_margin(0, u64::MAX - 1), i64::MIN + 1);
}

#[test]
fn board_layout_on_a_full_hd_surface() {
    let l = board_layout(&AppConfig::default(), &full_hd(), 10);
    assert_eq!(l.rows, 10);
    assert_eq!(l.margin, 17);
    assert_eq!(l.row_height, 104);
    assert_eq!(l.card_height, 83);
    assert_eq!(l.card_width, 49);
    assert_eq!(l.spacing, 4);
    assert_eq!(l.font_size, 58);
    assert_eq!(l.corner_radius, 4);
    assert_eq!(l.first_row_y, 20);
    assert_eq!(l.name_x, 17);
    assert_eq!(l.weekday_x, 1748);
    assert_eq!(l.am_pm_x, 1573);
    assert_eq!(l.time_x, 1239);
}

#[test]
fn board_cells_by_field_row_and_index() {
    let l = board_layout(&AppConfig::default(), &full_hd(), 10);
    let b = l.cell(BoardField::Time, 2, 3).unwrap();
    assert_eq!((b.x, b.y, b.width, b.height), (1398, 228, 49, 83));
    assert_eq!(l.cell(BoardField::Name, 0, 0).unwrap().x, 17);
    assert_eq!(l.cell(BoardField::Name, 9, 13).unwrap().x, 17 + 13 * 53);
    assert_eq!(l.cell(BoardField::Weekday, 9, 2).unwrap().x + 49, 1920 - 17);
    assert_eq!(l.cell(BoardField::AmPm, 9, 1).unwrap().y, 20 + 9 * 104);
    assert!(l.cell(BoardField::Time, 10, 0).is_none());
    assert!(l.cell(BoardField::Time, 0, 5).is_none());
    assert!(l.cell(BoardField::AmPm, 0, 2).is_none());
    assert!(l.cell(BoardField::Weekday, 0, 3).is_none());
}

#[test]
fn board_rows_are_capped_in_height() {
    let l = board_layout(&AppConfig::default(), &full_hd(), 2);
    assert_eq!(l.row_height, 137);
    assert_eq!(l.card_height, 109);
    assert_eq!(l.card_width, 65);
    assert_eq!(l.spacing, 6);
    assert_eq!(l.first_row_y, 403);
    let none = board_layout(&AppConfig::default(), &full_hd(), 0);
    assert_eq!(none.row_height, 137);
    assert_eq!(none.first_row_y, 540);
    assert!(none.cell(BoardField::Time, 0, 0).is_none());
}

#[test]
fn board_margins_that_meet_leave_no_rows() {
    let mut config = AppConfig::default();
    config.scale = 1_000;
    let rect = Rect { x: 0, y: 0, width: 300, height: 30 };
    let l = board_layout(&config, &rect, 3);
    assert_eq!(l.margin, 20);
    assert_eq!(l.row_height, 0);
    assert_eq!(l.card_height, 0);
    assert_eq!(l.first_row_y, 15);
}
