use flip_clock::board::{City, DepartureBoardRow};
use flip_clock::board_layout::board_layout;
use flip_clock::clock::{ClockFace, TimeOfDay};
use flip_clock::config::AppConfig;
use flip_clock::digit::DigitFlipState;
use flip_clock::layout::{clock_layout, CardBox, Rect};
use flip_clock::render::{card_frame, card_shape, clock_cards, row_cards, CardShape};

#[test]
fn card_frame_of_a_resting_cell() {
    let cell = DigitFlipState::new('8');
    let card = CardBox { x: 10, y: 100, width: 60, height: 101 };
    let f = card_frame(&cell, &card, 5, 600);
    assert_eq!((f.glyph, f.split_y, f.seam_y), ('8', 150, None));
}

#[test]
fn card_frame_of_a_flipping_cell() {
    let mut cell = DigitFlipState::new('8');
    cell.update('9', 1_000);
    let card = CardBox { x: 10, y: 100, width: 60, height: 200 };
    let at = |now: u64| {
        let f = card_frame(&cell, &card, now, 600);
        (f.glyph, f.split_y, f.seam_y)
    };
    assert_eq!(at(1_000), ('8', 200, None));
    assert_eq!(at(1_150), ('8', 200, Some(150)));
    assert_eq!(at(1_300), ('8', 200, Some(200)));
    assert_eq!(at(1_301), ('9', 200, Some(200)));
    assert_eq!(at(1_599), ('9', 200, Some(299)));
    assert_eq!(at(1_600), ('9', 200, None));
}

#[test]
fn clock_cards_pair_cells_with_boxes() {
    let config = AppConfig::default();
    let rect = Rect { x: 0, y: 0, width: 400, height: 225 };
    let layout = clock_layout(&config, &rect, true);
    let four = ClockFace::new(&TimeOfDay::new(9, 41, 0).unwrap(), false, false);
    let cards = clock_cards(&four, &layout, 0, 600);
    assert_eq!(cards.len(), 4);
    assert_eq!(cards.iter().map(|p| p.frame.glyph).collect::<String>(), "0941");
    assert_eq!(cards[3].area.x, layout.card(3).unwrap().x);
    assert_eq!(cards[3].frame.split_y, 74 + 38);
}

#[test]
fn row_cards_run_from_name_to_weekday() {
    let config = AppConfig::default();
    let rect = Rect { x: 0, y: 0, width: 1920, height: 1080 };
    let layout = board_layout(&config, &rect, 10);
    let row = DepartureBoardRow::new(City::new("HANOI", 7, 0));
    let cards = row_cards(&row, &layout, 2, 0, 600);
    assert_eq!(cards.len(), 5 + 5 + 2 + 3);
    assert_eq!(cards.iter().map(|p| p.frame.glyph).collect::<String>(), "HANOI  :       ");
    assert_eq!(cards[1].area.x, 17 + 53);
    assert_eq!(cards[5 + 3].area.x, 1398);
    assert!(cards.iter().all(|p| p.area.y == 228));
    assert!(cards[7].bare);
    assert!(row_cards(&row, &layout, 10, 0, 600).is_empty());
}

#[test]
fn corner_radius_decides_the_outline() {
    assert_eq!(card_shape(8), CardShape::Rounded { radius: 8 });
    assert_eq!(card_shape(1), CardShape::Rounded { radius: 1 });
    assert_eq!(card_shape(0), CardShape::Rectangle);
    assert_eq!(card_shape(-3), CardShape::Rectangle);
}
