//! When an object has reached the drop zone, and which size class it is in.
use vstd::prelude::*;
use crate::geometry::BoundingBox;

verus! {

/// Size class of an object, from the width of its bounding box.
#[derive(Debug, Clone, Copy, PartialEq, Eq, Structural)]
pub enum SizeCategory {
    Small,
    Large,
}

/// The size class of a box of the given width.
pub open spec fn size_of(width: int, size_threshold: int) -> SizeCategory {
    if width > size_threshold {
        SizeCategory::Large
    } else {
        SizeCategory::Small
    }
}

/// `Large` exactly when the width is strictly above the threshold.
pub fn classify(width: u64, size_threshold: u64) -> (r: SizeCategory)
    ensures
        r == size_of(width as int, size_threshold as int),
{
    if width > size_threshold {
        SizeCategory::Large
    } else {
        SizeCategory::Small
    }
}

/// Position of the drop zone along the frame's width, as the fraction
/// `numerator / denominator` of it.
#[derive(Debug, Clone, Copy, PartialEq, Eq, Structural)]
pub struct DropzoneFraction {
    pub numerator: u32,
    pub denominator: u32,
}

impl DropzoneFraction {
    pub open spec fn wf(self) -> bool {
        self.denominator > 0
    }

    /// The fraction `numerator / denominator`; `None` for a zero denominator.
    pub fn new(numerator: u32, denominator: u32) -> (r: Option<DropzoneFraction>)
        ensures
            denominator == 0 <==> r.is_none(),
            r.is_some() ==> r.unwrap().wf() && r.unwrap().numerator == numerator
                && r.unwrap().denominator == denominator,
    {
        if denominator == 0 {
            None
        } else {
            Some(DropzoneFraction { numerator, denominator })
        }
    }

    /// One half: the middle of the frame.
    pub fn half() -> (r: DropzoneFraction)
        ensures
            r.wf(),
            r.numerator == 1,
            r.denominator == 2,
    {
        DropzoneFraction { numerator: 1, denominator: 2 }
    }
}

/// The box has reached the trigger line `frame_width * fraction`, measured from
/// its centre: `x >= frame_width * fraction - width / 2`, with `width / 2`
/// rounded down and the trigger line taken exactly.
pub open spec fn arrived(b: BoundingBox, frame_width: int, fraction: DropzoneFraction) -> bool {
    (b.x + b.width / 2) * fraction.denominator >= frame_width * fraction.numerator
}

/// Whether the box has reached the drop zone.
pub fn has_arrived(b: &BoundingBox, frame_width: u32, fraction: DropzoneFraction) -> (r: bool)
    requires
        fraction.wf(),
    ensures
        r == arrived(*b, frame_width as int, fraction),
{
    let lead: i128 = b.x as i128 + (b.width / 2) as i128;
    proof {
        let (l, d) = (lead as int, fraction.denominator as int);
        assert(l * d <= 0x1_0000_0000_0000_0000_0000_0000) by (nonlinear_arith)
            requires
                l <= 0x1_0000_0000_0000_0000,
                0 < d <= 0x1_0000_0000,
        ;
        assert(l * d >= -0x1_0000_0000_0000_0000_0000_0000) by (nonlinear_arith)
            requires
                l >= -0x1_0000_0000_0000_0000,
                0 < d <= 0x1_0000_0000,
        ;
        let (w, n) = (frame_width as int, fraction.numerator as int);
        assert(0 <= w * n <= 0x1_0000_0000_0000_0000) by (nonlinear_arith)
            requires
                0 <= w <= 0x1_0000_0000,
                0 <= n <= 0x1_0000_0000,
        ;
    }
    let lhs: i128 = lead * (fraction.denominator as i128);
    let rhs: i128 = (frame_width as i128) * (fraction.numerator as i128);
    lhs >= rhs
}

/// Classification and arrival are functions of their inputs alone: two calls
/// with the same inputs give the same answer.
pub proof fn lemma_gate_and_size_are_deterministic(
    width: u64,
    size_threshold: u64,
    b: BoundingBox,
    frame_width: u32,
    fraction: DropzoneFraction,
    first_size: SizeCategory,
    second_size: SizeCategory,
    first_arrival: bool,
    second_arrival: bool,
)
    requires
        fraction.wf(),
        first_size == size_of(width as int, size_threshold as int),
        second_size == size_of(width as int, size_threshold as int),
        first_arrival == arrived(b, frame_width as int, fraction),
        second_arrival == arrived(b, frame_width as int, fraction),
    ensures
        first_size == second_size,
        first_arrival == second_arrival,
{
}

} // verus!
