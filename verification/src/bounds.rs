use vstd::prelude::*;

verus! {

/// A point or displacement in 3-space. Coordinates are fixed-point:
/// one unit of a field is one hundredth of a world unit.
#[derive(Clone, Copy, Debug, PartialEq, Eq, Structural)]
pub struct Vec3i {
    pub x: i64,
    pub y: i64,
    pub z: i64,
}

/// A closed interval on one axis, in fixed-point coordinates.
#[derive(Clone, Copy, Debug, PartialEq, Eq, Structural)]
pub struct AxisRange {
    pub min: i64,
    pub max: i64,
}

/// An axis-aligned box: one closed interval per axis.
#[derive(Clone, Copy, Debug, PartialEq, Eq, Structural)]
pub struct Bound {
    pub x_range: AxisRange,
    pub y_range: AxisRange,
    pub z_range: AxisRange,
}

impl AxisRange {
    /// The interval is non-empty: its minimum does not exceed its maximum.
    pub open spec fn wf(self) -> bool {
        self.min <= self.max
    }

    /// The value lies inside the closed interval.
    pub open spec fn contains(self, v: int) -> bool {
        self.min <= v <= self.max
    }
}

impl Bound {
    /// Every axis interval is non-empty.
    pub open spec fn wf(self) -> bool {
        self.x_range.wf() && self.y_range.wf() && self.z_range.wf()
    }

    /// The point lies inside the box on all three axes.
    pub open spec fn contains(self, p: Vec3i) -> bool {
        self.x_range.contains(p.x as int) && self.y_range.contains(p.y as int)
            && self.z_range.contains(p.z as int)
    }
}

/// Clamp a value into `[lo, hi]`, applying the upper bound first and the
/// lower bound second, as the executable code does.
pub open spec fn clamped(v: int, lo: int, hi: int) -> int {
    let capped = if v > hi {
        hi
    } else {
        v
    };
    if capped < lo {
        lo
    } else {
        capped
    }
}

/// The translated point: the delta is added to the position and each axis
/// of the sum is clamped into the bound's interval for that axis.
pub open spec fn translate_clamped(position: Vec3i, delta: Vec3i, bound: Bound) -> Vec3i {
    Vec3i {
        x: clamped(position.x + delta.x, bound.x_range.min as int, bound.x_range.max as int) as i64,
        y: clamped(position.y + delta.y, bound.y_range.min as int, bound.y_range.max as int) as i64,
        z: clamped(position.z + delta.z, bound.z_range.min as int, bound.z_range.max as int) as i64,
    }
}

fn clamp_axis(p: i64, d: i64, range: &AxisRange) -> (r: i64)
    requires
        range.wf(),
    ensures
        r == clamped(p + d, range.min as int, range.max as int),
        range.contains(r as int),
{
    let sum: i128 = p as i128 + d as i128;
    let capped: i128 = if sum > range.max as i128 {
        range.max as i128
    } else {
        sum
    };
    let raised: i128 = if capped < range.min as i128 {
        range.min as i128
    } else {
        capped
    };
    raised as i64
}

/// Translate `position` by `delta` and clamp the result into `bound`.
///
/// The result is total over all fixed-point inputs: an overshoot of any
/// size is pulled back to the boundary, and a position that starts outside
/// the box is clamped into it even when the delta is zero.
pub fn clamp_translate(position: Vec3i, delta: Vec3i, bound: &Bound) -> (result: Vec3i)
    requires
        bound.wf(),
    ensures
        result == translate_clamped(position, delta, *bound),
        bound.contains(result),
{
    let x = clamp_axis(position.x, delta.x, &bound.x_range);
    let y = clamp_axis(position.y, delta.y, &bound.y_range);
    let z = clamp_axis(position.z, delta.z, &bound.z_range);
    Vec3i { x, y, z }
}

/// Translate the position in place: the stored point becomes the clamped
/// sum of the old point and the delta.
pub fn translate_with_bounds(position: &mut Vec3i, delta: Vec3i, bound: &Bound)
    requires
        bound.wf(),
    ensures
        *final(position) == translate_clamped(*old(position), delta, *bound),
        bound.contains(*final(position)),
{
    *position = clamp_translate(*position, delta, bound);
}

/// Containment: for every position, every delta, and every well-formed
/// bound, the translated point lies inside the box on all three axes.
pub proof fn lemma_translate_contained(position: Vec3i, delta: Vec3i, bound: Bound)
    requires
        bound.wf(),
    ensures
        bound.contains(translate_clamped(position, delta, bound)),
{
}

/// No movement: a position already inside the bound is left exactly in
/// place by a zero delta.
pub proof fn lemma_translate_identity(position: Vec3i, bound: Bound)
    requires
        bound.wf(),
        bound.contains(position),
    ensures
        translate_clamped(position, (Vec3i { x: 0, y: 0, z: 0 }), bound) == position,
{
}

/// Degenerate interval: where an axis interval has collapsed to a single
/// value, the translated point takes that value on the axis, whatever the
/// position and the delta.
pub proof fn lemma_degenerate_axis_pins(position: Vec3i, delta: Vec3i, bound: Bound)
    requires
        bound.wf(),
    ensures
        bound.x_range.min == bound.x_range.max ==> translate_clamped(position, delta, bound).x
            == bound.x_range.min,
        bound.y_range.min == bound.y_range.max ==> translate_clamped(position, delta, bound).y
            == bound.y_range.min,
        bound.z_range.min == bound.z_range.max ==> translate_clamped(position, delta, bound).z
            == bound.z_range.min,
{
}

} // verus!
