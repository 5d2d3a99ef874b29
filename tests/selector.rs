use brick_sorter::geometry::{BoundingBox, Point};
use brick_sorter::selector::{choose_between, find_rightmost_contour, select, Candidate, Color};

/// The outline of a `w` by `h` rectangle of pixels at `x`, `y`: twice its
/// area is `2 * (w - 1) * (h - 1)`.
fn rect(x: i32, y: i32, w: i32, h: i32) -> Vec<Point> {
    vec![
        Point { x, y },
        Point { x: x + w - 1, y },
        Point { x: x + w - 1, y: y + h - 1 },
        Point { x, y: y + h - 1 },
    ]
}

fn candidate(color: Color, x: i64, width: u64) -> Candidate {
    Candidate { color, contour: 0, bbox: BoundingBox { x, y: 0, width, height: 10 }, twice_area: 0 }
}

#[test]
fn small_contours_give_no_candidate() {
    // Each encloses 9 * 9 = 81 < 100.
    let red = vec![rect(0, 0, 10, 10), rect(50, 0, 10, 10)];
    let blue = vec![rect(100, 0, 10, 10)];
    assert_eq!(select(&red, &blue, 100, 100), None);
}

#[test]
fn no_contours_give_no_candidate() {
    assert_eq!(select(&vec![], &vec![], 0, 0), None);
}

#[test]
fn pointless_contour_is_never_selected() {
    let red = vec![vec![]];
    assert_eq!(select(&red, &vec![], 0, 0), None);
}

#[test]
fn contour_at_minimum_area_is_eligible() {
    // 10 * 10 = 100 exactly.
    let red = vec![rect(0, 0, 11, 11)];
    let c = select(&red, &vec![], 100, 100).unwrap();
    assert_eq!(c.color, Color::Red);
    assert_eq!(c.twice_area, 200);
    assert_eq!(select(&red, &vec![], 101, 101), None);
}

#[test]
fn greater_x_wins_across_colours() {
    let r = choose_between(
        Some(candidate(Color::Red, 80, 40)),
        Some(candidate(Color::Blue, 100, 50)),
    );
    assert_eq!(r, Some(candidate(Color::Blue, 100, 50)));
}

#[test]
fn equal_x_across_colours_gives_red() {
    let r = choose_between(
        Some(candidate(Color::Red, 100, 40)),
        Some(candidate(Color::Blue, 100, 50)),
    );
    assert_eq!(r, Some(candidate(Color::Red, 100, 40)));
}

#[test]
fn one_colour_alone_is_chosen() {
    assert_eq!(
        choose_between(None, Some(candidate(Color::Blue, 3, 5))),
        Some(candidate(Color::Blue, 3, 5))
    );
    assert_eq!(
        choose_between(Some(candidate(Color::Red, 3, 5)), None),
        Some(candidate(Color::Red, 3, 5))
    );
    assert_eq!(choose_between(None, None), None);
}

#[test]
fn select_from_contours_prefers_rightmost_colour() {
    let red = vec![rect(80, 0, 40, 40)];
    let blue = vec![rect(100, 0, 50, 40)];
    let c = select(&red, &blue, 100, 100).unwrap();
    assert_eq!(c.color, Color::Blue);
    assert_eq!(c.bbox, BoundingBox { x: 100, y: 0, width: 50, height: 40 });
    assert_eq!(c.twice_area, 2 * 49 * 39);

    let tie_blue = vec![rect(80, 10, 50, 40)];
    let c = select(&red, &tie_blue, 100, 100).unwrap();
    assert_eq!(c.color, Color::Red);
    assert_eq!(c.bbox.x, 80);
}

#[test]
fn rightmost_eligible_contour_of_a_colour() {
    let cs = vec![
        rect(10, 0, 20, 20),
        rect(300, 0, 5, 5),
        rect(120, 0, 20, 20),
        rect(60, 0, 20, 20),
    ];
    let c = find_rightmost_contour(&cs, 100, Color::Blue).unwrap();
    assert_eq!(c.contour, 2);
    assert_eq!(c.color, Color::Blue);
    assert_eq!(c.bbox.x, 120);
}

#[test]
fn first_of_equally_placed_contours_wins() {
    let cs = vec![rect(5, 0, 2, 2), rect(40, 0, 20, 20), rect(40, 50, 30, 30)];
    let c = find_rightmost_contour(&cs, 100, Color::Red).unwrap();
    assert_eq!(c.contour, 1);
}

#[test]
fn contour_at_left_edge_is_selected() {
    let cs = vec![rect(0, 0, 20, 20)];
    let c = find_rightmost_contour(&cs, 100, Color::Red).unwrap();
    assert_eq!(c.contour, 0);
    assert_eq!(c.bbox.x, 0);
}

#[test]
fn per_colour_minimum_areas_apply_separately() {
    let red = vec![rect(200, 0, 20, 20)];
    let blue = vec![rect(10, 0, 20, 20)];
    let c = select(&red, &blue, 1000, 100).unwrap();
    assert_eq!(c.color, Color::Blue);
}
