//! Choice of the one object to act on in a frame: the rightmost contour of
//! sufficient area in each colour, then the rightmost of the two colours.
use vstd::prelude::*;
use crate::geometry::{
    bounding_rect, contour_twice_area, is_bounding_box_of, left_edge, twice_area, BoundingBox,
    Point,
};

verus! {

/// The colours that the machine sorts.
#[derive(Debug, Clone, Copy, PartialEq, Eq, Structural)]
pub enum Color {
    Red,
    Blue,
}

/// The object chosen in a frame: its colour, which contour of that colour it
/// is, that contour's bounding box and twice its enclosed area.
#[derive(Debug, Clone, Copy, PartialEq, Eq, Structural)]
pub struct Candidate {
    pub color: Color,
    pub contour: usize,
    pub bbox: BoundingBox,
    pub twice_area: u128,
}

/// A contour takes part in the selection when it has points and encloses at
/// least `min_area`.
pub open spec fn eligible(c: Seq<Point>, min_area: u32) -> bool {
    c.len() > 0 && twice_area(c) >= 2 * min_area
}

/// Some contour among `cs` takes part in the selection.
pub open spec fn any_eligible(cs: Seq<Vec<Point>>, min_area: u32) -> bool {
    exists|j: int| 0 <= j < cs.len() && #[trigger] eligible(cs[j]@, min_area)
}

/// Contour `i` is the rightmost eligible one of `cs`: no eligible contour lies
/// further right, and every earlier eligible one lies strictly further left
/// (the first of equally placed contours wins).
pub open spec fn is_rightmost(cs: Seq<Vec<Point>>, min_area: u32, i: int) -> bool {
    &&& 0 <= i < cs.len()
    &&& eligible(cs[i]@, min_area)
    &&& forall|j: int|
        0 <= j < cs.len() && #[trigger] eligible(cs[j]@, min_area) ==> left_edge(cs[j]@)
            <= left_edge(cs[i]@)
    &&& forall|j: int|
        0 <= j < i && #[trigger] eligible(cs[j]@, min_area) ==> left_edge(cs[j]@) < left_edge(
            cs[i]@,
        )
}

/// `c` describes contour `c.contour` of `cs` in colour `color`.
pub open spec fn describes(c: Candidate, color: Color, cs: Seq<Vec<Point>>) -> bool {
    &&& c.color == color
    &&& 0 <= c.contour < cs.len()
    &&& is_bounding_box_of(c.bbox, cs[c.contour as int]@)
    &&& c.twice_area == twice_area(cs[c.contour as int]@)
}

/// The rightmost eligible contour of one colour, or `None` when no contour
/// of that colour is eligible.
pub fn find_rightmost_contour(contours: &Vec<Vec<Point>>, min_area: u32, color: Color) -> (r:
    Option<Candidate>)
    ensures
        r.is_none() <==> !any_eligible(contours@, min_area),
        r.is_some() ==> describes(r.unwrap(), color, contours@) && is_rightmost(
            contours@,
            min_area,
            r.unwrap().contour as int,
        ),
{
    let mut best: Option<Candidate> = None;
    let mut i: usize = 0;
    let threshold: u128 = 2 * (min_area as u128);
    while i < contours.len()
        invariant
            0 <= i <= contours@.len(),
            threshold == 2 * min_area,
            best.is_none() <==> !(exists|j: int|
                0 <= j < i && #[trigger] eligible(contours@[j]@, min_area)),
            best.is_some() ==> {
                let b = best.unwrap();
                &&& describes(b, color, contours@)
                &&& b.contour < i
                &&& eligible(contours@[b.contour as int]@, min_area)
                &&& b.bbox.x == left_edge(contours@[b.contour as int]@)
                &&& forall|j: int|
                    0 <= j < i && #[trigger] eligible(contours@[j]@, min_area) ==> left_edge(
                        contours@[j]@,
                    ) <= b.bbox.x
                &&& forall|j: int|
                    0 <= j < b.contour && #[trigger] eligible(contours@[j]@, min_area)
                        ==> left_edge(contours@[j]@) < b.bbox.x
            },
        decreases contours@.len() - i,
    {
        let contour = &contours[i];
        let area = contour_twice_area(contour);
        let rect = bounding_rect(contour);
        match rect {
            Some(bbox) => {
                if area >= threshold {
                    let replace = match best {
                        None => true,
                        Some(b) => b.bbox.x < bbox.x,
                    };
                    if replace {
                        best = Some(Candidate { color, contour: i, bbox, twice_area: area });
                    }
                }
            },
            None => {},
        }
        proof {
            if eligible(contours@[i as int]@, min_area) {
                assert(best.is_some());
            } else {
                assert(forall|j: int|
                    0 <= j < i + 1 && #[trigger] eligible(contours@[j]@, min_area) ==> j < i);
            }
        }
        i = i + 1;
    }
    best
}

/// The candidate further right of the two; on equal `x` the red one.
pub fn choose_between(red: Option<Candidate>, blue: Option<Candidate>) -> (r: Option<Candidate>)
    ensures
        r == match (red, blue) {
            (Some(rc), Some(bc)) => if bc.bbox.x > rc.bbox.x {
                blue
            } else {
                red
            },
            (Some(_), None) => red,
            (None, _) => blue,
        },
{
    match (red, blue) {
        (Some(rc), Some(bc)) => if bc.bbox.x > rc.bbox.x {
            blue
        } else {
            red
        },
        (Some(_), None) => red,
        (None, _) => blue,
    }
}

/// No contour of either colour is eligible, so nothing is selected.
pub open spec fn selection_absent(
    red: Seq<Vec<Point>>,
    blue: Seq<Vec<Point>>,
    min_red: u32,
    min_blue: u32,
) -> bool {
    !any_eligible(red, min_red) && !any_eligible(blue, min_blue)
}

/// `c` is the object to act on: the rightmost eligible contour of its
/// colour, further right than every eligible contour of the other colour, or
/// as far right when it is red.
pub open spec fn is_selection(
    red: Seq<Vec<Point>>,
    blue: Seq<Vec<Point>>,
    min_red: u32,
    min_blue: u32,
    c: Candidate,
) -> bool {
    match c.color {
        Color::Red => {
            &&& describes(c, Color::Red, red)
            &&& is_rightmost(red, min_red, c.contour as int)
            &&& forall|j: int|
                0 <= j < blue.len() && #[trigger] eligible(blue[j]@, min_blue) ==> left_edge(
                    blue[j]@,
                ) <= c.bbox.x
        },
        Color::Blue => {
            &&& describes(c, Color::Blue, blue)
            &&& is_rightmost(blue, min_blue, c.contour as int)
            &&& forall|j: int|
                0 <= j < red.len() && #[trigger] eligible(red[j]@, min_red) ==> left_edge(red[j]@)
                    < c.bbox.x
        },
    }
}

/// The single object to act on in a frame: the rightmost eligible contour of
/// each colour, then the one of the two further right (red on a tie), or
/// `None` when no contour of either colour is eligible.
pub fn select(red: &Vec<Vec<Point>>, blue: &Vec<Vec<Point>>, min_red: u32, min_blue: u32) -> (r:
    Option<Candidate>)
    ensures
        r.is_none() <==> selection_absent(red@, blue@, min_red, min_blue),
        r.is_some() ==> is_selection(red@, blue@, min_red, min_blue, r.unwrap()),
{
    let red_best = find_rightmost_contour(red, min_red, Color::Red);
    let blue_best = find_rightmost_contour(blue, min_blue, Color::Blue);
    choose_between(red_best, blue_best)
}

/// When every contour encloses less than its colour's minimum area, no
/// object is selected.
pub proof fn lemma_small_contours_select_nothing(
    red: Seq<Vec<Point>>,
    blue: Seq<Vec<Point>>,
    min_red: u32,
    min_blue: u32,
)
    requires
        forall|i: int| 0 <= i < red.len() ==> twice_area(#[trigger] red[i]@) < 2 * min_red,
        forall|i: int| 0 <= i < blue.len() ==> twice_area(#[trigger] blue[i]@) < 2 * min_blue,
    ensures
        selection_absent(red, blue, min_red, min_blue),
{
}

proof fn lemma_rightmost_unique(cs: Seq<Vec<Point>>, min_area: u32, i: int, k: int)
    requires
        is_rightmost(cs, min_area, i),
        is_rightmost(cs, min_area, k),
    ensures
        i == k,
{
    assert(eligible(cs[i]@, min_area));
    assert(eligible(cs[k]@, min_area));
}

/// At most one object is the selection of a frame: the choice, colour
/// included, is fixed by the contours and the minimum areas.
pub proof fn lemma_selection_unique(
    red: Seq<Vec<Point>>,
    blue: Seq<Vec<Point>>,
    min_red: u32,
    min_blue: u32,
    c1: Candidate,
    c2: Candidate,
)
    requires
        is_selection(red, blue, min_red, min_blue, c1),
        is_selection(red, blue, min_red, min_blue, c2),
    ensures
        c1 == c2,
{
    if c1.color == Color::Red && c2.color == Color::Blue {
        assert(eligible(blue[c2.contour as int]@, min_blue));
    } else if c1.color == Color::Blue && c2.color == Color::Red {
        assert(eligible(blue[c1.contour as int]@, min_blue));
    } else if c1.color == Color::Red {
        lemma_rightmost_unique(red, min_red, c1.contour as int, c2.contour as int);
    } else {
        lemma_rightmost_unique(blue, min_blue, c1.contour as int, c2.contour as int);
    }
}

} // verus!
