use flip_clock::board::{am_pm_glyphs, cities, time_glyphs, City, DepartureBoard, DepartureBoardRow};
use flip_clock::cells::FlipCells;
use flip_clock::zone::{local_time, LocalTime, Weekday};

const FRIDAY: i64 = 1_431_648_000;

fn text(field: &FlipCells) -> String {
    (0..field.len()).map(|i| field.cell(i).unwrap().current()).collect()
}

fn previous(field: &FlipCells) -> String {
    (0..field.len()).map(|i| field.cell(i).unwrap().previous()).collect()
}

fn starts(field: &FlipCells) -> Vec<Option<u64>> {
    (0..field.len()).map(|i| field.cell(i).unwrap().animation_start()).collect()
}

fn shown(row: &DepartureBoardRow) -> (String, String, String) {
    (text(row.time()), text(row.am_pm()), text(row.weekday()))
}

fn two_cities() -> Vec<City> {
    vec![City::new("UTC", 0, 0), City::new("STOCKHOLM", 1, 0)]
}

#[test]
fn standard_cities_are_ten() {
    let table = cities();
    let listed: Vec<(&str, i32, i32)> =
        table.iter().map(|c| (c.name.as_str(), c.offset_hours, c.offset_minutes)).collect();
    assert_eq!(
        listed,
        vec![
            ("HAWAII", -10, 0),
            ("LOS ANGELES", -8, 0),
            ("NEW YORK (EST)", -5, 0),
            ("UTC", 0, 0),
            ("LONDON", 0, 0),
            ("STOCKHOLM", 1, 0),
            ("PARIS", 1, 0),
            ("HANOI", 7, 0),
            ("BRISBANE", 10, 0),
            ("WELLINGTON", 12, 0),
        ]
    );
}

#[test]
fn city_offsets_in_seconds() {
    assert_eq!(City::new("A", 1, 0).offset_seconds(), 3_600);
    assert_eq!(City::new("B", -10, 0).offset_seconds(), -36_000);
    assert_eq!(City::new("C", 5, 30).offset_seconds(), 19_800);
    assert_eq!(City::new("D", 23, 59).offset_seconds(), 86_340);
    assert_eq!(City::new("E", 24, 0).offset_seconds(), 0);
    assert_eq!(City::new("F", -24, 0).offset_seconds(), 0);
    assert_eq!(City::new("G", i32::MAX, i32::MAX).offset_seconds(), 0);
    assert_eq!(City::new("H", i32::MIN, i32::MIN).offset_seconds(), 0);
}

#[test]
fn glyphs_of_a_civil_time() {
    let t = LocalTime { is_pm: true, hour12: 2, minute: 5, weekday: Weekday::Thu };
    assert_eq!(time_glyphs(&t).iter().collect::<String>(), " 2:05");
    assert_eq!(am_pm_glyphs(&t).iter().collect::<String>(), "PM");
    let t = LocalTime { is_pm: false, hour12: 12, minute: 40, weekday: Weekday::Thu };
    assert_eq!(time_glyphs(&t).iter().collect::<String>(), "12:40");
    assert_eq!(am_pm_glyphs(&t).iter().collect::<String>(), "AM");
}

#[test]
fn blank_board_shows_nothing() {
    let board = DepartureBoard::blank(two_cities());
    assert_eq!(board.len(), 2);
    assert_eq!(board.last_update(), None);
    let row = board.row(1).unwrap();
    assert_eq!(shown(row), ("  :  ".to_string(), "  ".to_string(), "   ".to_string()));
    assert_eq!(row.city().name, "STOCKHOLM");
    assert!(board.row(2).is_none());
}

#[test]
fn new_board_is_at_rest_on_the_instant() {
    let board = DepartureBoard::new(cities(), FRIDAY, 7);
    assert_eq!(board.len(), 10);
    assert_eq!(board.last_update(), Some(7));
    let expected = [
        (" 2:00", "PM", "THU"),
        (" 4:00", "PM", "THU"),
        (" 7:00", "PM", "THU"),
        ("12:00", "AM", "FRI"),
        ("12:00", "AM", "FRI"),
        (" 1:00", "AM", "FRI"),
        (" 1:00", "AM", "FRI"),
        (" 7:00", "AM", "FRI"),
        ("10:00", "AM", "FRI"),
        ("12:00", "PM", "FRI"),
    ];
    for (i, want) in expected.iter().enumerate() {
        let row = board.row(i).unwrap();
        let got = shown(row);
        assert_eq!((got.0.as_str(), got.1.as_str(), got.2.as_str()), *want);
        assert_eq!(previous(row.time()), got.0);
        assert_eq!(previous(row.am_pm()), got.1);
        assert_eq!(previous(row.weekday()), got.2);
        assert!(!row.time().is_animating());
        assert!(!row.am_pm().is_animating());
        assert!(!row.weekday().is_animating());
    }
}

#[test]
fn city_one_hour_east_shows_one_hour_more() {
    let board = DepartureBoard::new(two_cities(), FRIDAY + 9 * 3_600 + 41 * 60, 0);
    assert_eq!(text(board.row(0).unwrap().time()), " 9:41");
    assert_eq!(text(board.row(1).unwrap().time()), "10:41");
}

#[test]
fn board_is_recomputed_at_most_ten_times_a_second() {
    let mut board = DepartureBoard::new(two_cities(), FRIDAY, 1_000);
    board.update(FRIDAY + 60, 1_099);
    assert_eq!(text(board.row(0).unwrap().time()), "12:00");
    assert_eq!(board.last_update(), Some(1_000));
    board.update(FRIDAY + 60, 999);
    assert_eq!(text(board.row(0).unwrap().time()), "12:00");
    board.update(FRIDAY + 60, 1_100);
    assert_eq!(text(board.row(0).unwrap().time()), "12:01");
    assert_eq!(board.last_update(), Some(1_100));
}

#[test]
fn minute_change_flips_only_what_changed() {
    let mut board = DepartureBoard::new(two_cities(), FRIDAY, 0);
    board.update(FRIDAY + 60, 500);
    let row = board.row(0).unwrap();
    assert_eq!(text(row.time()), "12:01");
    assert_eq!(previous(row.time()), "12:00");
    assert_eq!(starts(row.time()), vec![None, None, None, None, Some(500)]);
    assert_eq!(starts(row.am_pm()), vec![None, None]);
    assert_eq!(starts(row.weekday()), vec![None, None, None]);
    assert!(row.time().progress(2, 600, 600).unwrap().is_complete());
    assert_eq!(row.time().progress(4, 800, 600).unwrap().elapsed, 300);
}

#[test]
fn unchanged_instant_leaves_flips_running() {
    let mut board = DepartureBoard::new(two_cities(), FRIDAY, 0);
    board.update(FRIDAY + 60, 500);
    board.update(FRIDAY + 61, 700);
    let row = board.row(0).unwrap();
    assert_eq!(starts(row.time()), vec![None, None, None, None, Some(500)]);
    assert_eq!(board.last_update(), Some(700));
}

#[test]
fn change_during_a_flip_snaps_the_field_first() {
    let mut board = DepartureBoard::new(two_cities(), FRIDAY + 9 * 60, 0);
    board.update(FRIDAY + 10 * 60, 500);
    let row = board.row(0).unwrap();
    assert_eq!(text(row.time()), "12:10");
    assert_eq!(previous(row.time()), "12:09");
    assert_eq!(starts(row.time()), vec![None, None, None, Some(500), Some(500)]);
    board.update(FRIDAY + 11 * 60, 700);
    let row = board.row(0).unwrap();
    assert_eq!(text(row.time()), "12:11");
    assert_eq!(previous(row.time()), "12:10");
    assert_eq!(starts(row.time()), vec![None, None, None, None, Some(700)]);
}

#[test]
fn weekday_flips_at_local_midnight_only() {
    let before = FRIDAY + 22 * 3_600 + 59 * 60 + 59;
    let mut board = DepartureBoard::new(two_cities(), before, 0);
    assert_eq!(shown(board.row(1).unwrap()).2, "FRI");
    board.update(before + 1, 1_000);
    let utc = board.row(0).unwrap();
    let east = board.row(1).unwrap();
    assert_eq!(shown(utc), ("11:00".to_string(), "PM".to_string(), "FRI".to_string()));
    assert_eq!(shown(east), ("12:00".to_string(), "AM".to_string(), "SAT".to_string()));
    assert_eq!(starts(utc.weekday()), vec![None, None, None]);
    assert_eq!(starts(east.weekday()), vec![Some(1_000), Some(1_000), Some(1_000)]);
    assert_eq!(previous(east.weekday()), "FRI");
    assert_eq!(starts(east.am_pm()), vec![Some(1_000), None]);
}

#[test]
fn instant_out_of_range_is_ignored() {
    let mut board = DepartureBoard::new(two_cities(), FRIDAY, 0);
    board.update(i64::MAX, 5_000);
    assert_eq!(text(board.row(0).unwrap().time()), "12:00");
    assert_eq!(board.last_update(), Some(0));
    let blank = DepartureBoard::new(two_cities(), i64::MIN, 0);
    assert_eq!(text(blank.row(0).unwrap().time()), "  :  ");
    assert_eq!(blank.last_update(), None);
}

#[test]
fn board_settles_completed_flips_once() {
    let mut board = DepartureBoard::new(two_cities(), FRIDAY, 0);
    board.update(FRIDAY + 60, 500);
    assert!(!board.settle_completed(1_099, 600));
    assert!(board.settle_completed(1_100, 600));
    assert!(!board.settle_completed(1_101, 600));
    let row = board.row(1).unwrap();
    assert_eq!(previous(row.time()), " 1:01");
    assert!(!row.time().is_animating());
}

#[test]
fn row_shows_a_civil_time() {
    let mut row = DepartureBoardRow::new(City::new("HANOI", 7, 0));
    let t = local_time(FRIDAY, row.city().offset_seconds()).unwrap();
    row.show(&t, 9);
    assert_eq!(shown(&row), (" 7:00".to_string(), "AM".to_string(), "FRI".to_string()));
    assert_eq!(previous(row.time()), "  :  ");
    assert_eq!(starts(row.time()), vec![None, Some(9), None, Some(9), Some(9)]);
    assert!(!row.settle_completed(608, 600));
    row.rest();
    assert_eq!(previous(row.time()), " 7:00");
    assert!(!row.weekday().is_animating());
}
