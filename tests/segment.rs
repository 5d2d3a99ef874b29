use brick_sorter::segment::{segment, ColorRange, Hsv};

#[test]
fn mask_marks_pixels_inside_the_range() {
    let blue = ColorRange::blue();
    let hsv = vec![
        100, 200, 200, // blue
        89, 200, 200, // hue too low
        140, 100, 255, // on the upper and lower bounds
        120, 99, 200, // saturation too low
        5, 200, 200, // red
    ];
    assert_eq!(segment(&hsv, &blue), vec![255, 0, 255, 0, 0]);
    assert_eq!(segment(&hsv, &ColorRange::red()), vec![0, 0, 0, 0, 255]);
}

#[test]
fn trailing_bytes_are_ignored() {
    let hsv = vec![0, 150, 150, 7, 7];
    assert_eq!(segment(&hsv, &ColorRange::red()), vec![255]);
    assert_eq!(segment(&vec![], &ColorRange::red()), Vec::<u8>::new());
}

#[test]
fn standard_ranges() {
    assert_eq!(
        ColorRange::red(),
        ColorRange { low: Hsv { h: 0, s: 100, v: 100 }, high: Hsv { h: 10, s: 255, v: 255 } }
    );
    assert!(ColorRange::blue().contains(Hsv { h: 90, s: 100, v: 100 }));
    assert!(!ColorRange::blue().contains(Hsv { h: 141, s: 100, v: 100 }));
}
