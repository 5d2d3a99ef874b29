//! Binary colour masks over a frame held in hue-saturation-value form.
use vstd::prelude::*;

verus! {

/// One pixel in hue-saturation-value form, 8 bits per channel.
#[derive(Debug, Clone, Copy, PartialEq, Eq, Structural)]
pub struct Hsv {
    pub h: u8,
    pub s: u8,
    pub v: u8,
}

/// Inclusive bounds on each channel that make up one colour.
#[derive(Debug, Clone, Copy, PartialEq, Eq, Structural)]
pub struct ColorRange {
    pub low: Hsv,
    pub high: Hsv,
}

/// Every channel of the pixel lies within the range's bounds.
pub open spec fn within(r: ColorRange, h: u8, s: u8, v: u8) -> bool {
    &&& r.low.h <= h <= r.high.h
    &&& r.low.s <= s <= r.high.s
    &&& r.low.v <= v <= r.high.v
}

/// Mask value of a pixel: 255 inside the range, 0 outside.
pub open spec fn mask_value(r: ColorRange, h: u8, s: u8, v: u8) -> u8 {
    if within(r, h, s, v) {
        255
    } else {
        0
    }
}

impl ColorRange {
    /// Blue: hue 90 to 140, saturation and value at least 100.
    pub fn blue() -> (r: ColorRange)
        ensures
            r.low == (Hsv { h: 90, s: 100, v: 100 }),
            r.high == (Hsv { h: 140, s: 255, v: 255 }),
    {
        ColorRange { low: Hsv { h: 90, s: 100, v: 100 }, high: Hsv { h: 140, s: 255, v: 255 } }
    }

    /// Red: hue 0 to 10, saturation and value at least 100.
    pub fn red() -> (r: ColorRange)
        ensures
            r.low == (Hsv { h: 0, s: 100, v: 100 }),
            r.high == (Hsv { h: 10, s: 255, v: 255 }),
    {
        ColorRange { low: Hsv { h: 0, s: 100, v: 100 }, high: Hsv { h: 10, s: 255, v: 255 } }
    }

    /// Whether one pixel belongs to this colour.
    pub fn contains(&self, px: Hsv) -> (r: bool)
        ensures
            r == within(*self, px.h, px.s, px.v),
    {
        self.low.h <= px.h && px.h <= self.high.h && self.low.s <= px.s && px.s <= self.high.s
            && self.low.v <= px.v && px.v <= self.high.v
    }
}

/// The mask of one colour over a frame stored as interleaved `h, s, v` bytes,
/// one byte per pixel: 255 where the pixel lies within the range, else 0.
/// Bytes after the last whole pixel are ignored.
pub fn segment(hsv: &Vec<u8>, range: &ColorRange) -> (mask: Vec<u8>)
    ensures
        mask@.len() == hsv@.len() / 3,
        forall|i: int|
            0 <= i < mask@.len() ==> #[trigger] mask@[i] == mask_value(
                *range,
                hsv@[3 * i],
                hsv@[3 * i + 1],
                hsv@[3 * i + 2],
            ),
{
    let len: usize = hsv.len();
    let n: usize = len / 3;
    let mut mask: Vec<u8> = Vec::with_capacity(n);
    let mut i: usize = 0;
    while i < n
        invariant
            len == hsv@.len(),
            n == len / 3,
            0 <= i <= n,
            mask@.len() == i,
            forall|k: int|
                0 <= k < i ==> #[trigger] mask@[k] == mask_value(
                    *range,
                    hsv@[3 * k],
                    hsv@[3 * k + 1],
                    hsv@[3 * k + 2],
                ),
        decreases n - i,
    {
        proof {
            assert(3 * (i as int) + 2 < len as int) by (nonlinear_arith)
                requires
                    (i as int) < (len as int) / 3,
                    len >= 0,
            ;
        }
        let px = Hsv { h: hsv[3 * i], s: hsv[3 * i + 1], v: hsv[3 * i + 2] };
        let value: u8 = if range.contains(px) { 255 } else { 0 };
        mask.push(value);
        i = i + 1;
    }
    mask
}

} // verus!
