use brick_sorter::gate::{classify, has_arrived, DropzoneFraction, SizeCategory};
use brick_sorter::geometry::BoundingBox;

fn bx(x: i64, width: u64) -> BoundingBox {
    BoundingBox { x, y: 0, width, height: 20 }
}

#[test]
fn classify_above_threshold_is_large() {
    assert_eq!(classify(350, 300), SizeCategory::Large);
}

#[test]
fn classify_below_threshold_is_small() {
    assert_eq!(classify(250, 300), SizeCategory::Small);
}

#[test]
fn classify_at_threshold_is_small() {
    assert_eq!(classify(300, 300), SizeCategory::Small);
    assert_eq!(classify(301, 300), SizeCategory::Large);
}

#[test]
fn box_short_of_dropzone_has_not_arrived() {
    assert!(!has_arrived(&bx(200, 40), 480, DropzoneFraction::half()));
}

#[test]
fn box_past_dropzone_has_arrived() {
    assert!(has_arrived(&bx(225, 40), 480, DropzoneFraction::half()));
}

#[test]
fn box_exactly_at_dropzone_has_arrived() {
    assert!(has_arrived(&bx(220, 40), 480, DropzoneFraction::half()));
    assert!(!has_arrived(&bx(219, 40), 480, DropzoneFraction::half()));
}

#[test]
fn odd_width_rounds_half_down() {
    // 41 / 2 is 20: the trigger is at 240 - 20.
    assert!(has_arrived(&bx(220, 41), 480, DropzoneFraction::half()));
    assert!(!has_arrived(&bx(219, 41), 480, DropzoneFraction::half()));
}

#[test]
fn fractional_trigger_line_is_exact() {
    // 641 / 2 = 320.5: a leading edge at 320 is short of it, 321 is past.
    let half = DropzoneFraction::half();
    assert!(!has_arrived(&bx(320, 1), 641, half));
    assert!(has_arrived(&bx(321, 1), 641, half));
}

#[test]
fn other_fractions() {
    let third = DropzoneFraction::new(1, 3).unwrap();
    assert!(has_arrived(&bx(200, 0), 600, third));
    assert!(!has_arrived(&bx(199, 0), 600, third));
}

#[test]
fn zero_denominator_is_refused() {
    assert_eq!(DropzoneFraction::new(1, 0), None);
    assert_eq!(
        DropzoneFraction::new(2, 5),
        Some(DropzoneFraction { numerator: 2, denominator: 5 })
    );
}

#[test]
fn gate_and_classifier_repeat_their_answers() {
    let b = bx(210, 60);
    let first = (classify(310, 300), has_arrived(&b, 480, DropzoneFraction::half()));
    let second = (classify(310, 300), has_arrived(&b, 480, DropzoneFraction::half()));
    assert_eq!(first, second);
    assert_eq!(first, (SizeCategory::Large, true));
}
