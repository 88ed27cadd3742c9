use crate::bounds::AxisRange;
use crate::bounds::Bound;
use crate::bounds::Vec3i;
use crate::bounds::translate_clamped;
use crate::bounds::translate_with_bounds;
use vstd::prelude::*;

verus! {

/// Fixed-point units per world unit: coordinates count hundredths.
pub const COORD_SCALE: i64 = 100;

/// Distance a held directional key moves the object in one tick:
/// 0.1 world units.
pub const TICK_STEP: i64 = 10;

/// The x coordinate of the fixed start point the reset key returns the
/// object to: (0, 0.5, 0) in world units.
pub const RESET_X: i64 = 0;

/// The y coordinate of the fixed start point: 0.5 world units.
pub const RESET_Y: i64 = 50;

/// The z coordinate of the fixed start point.
pub const RESET_Z: i64 = 0;

/// Lower edge of the default box on every axis: -10 world units.
pub const BOUND_MIN: i64 = -1000;

/// Upper edge of the default box on every axis: 10 world units.
pub const BOUND_MAX: i64 = 1000;

/// The held state of the five logical buttons, sampled once per tick.
#[derive(Clone, Copy, Debug, PartialEq, Eq, Structural)]
pub struct InputState {
    pub reset: bool,
    pub up: bool,
    pub down: bool,
    pub left: bool,
    pub right: bool,
}

/// The point the reset key returns the object to.
pub open spec fn reset_point() -> Vec3i {
    Vec3i { x: RESET_X, y: RESET_Y, z: RESET_Z }
}

/// The default box: the interval `[-10, 10]` in world units on every axis.
pub open spec fn default_bound() -> Bound {
    Bound {
        x_range: AxisRange { min: BOUND_MIN, max: BOUND_MAX },
        y_range: AxisRange { min: BOUND_MIN, max: BOUND_MAX },
        z_range: AxisRange { min: BOUND_MIN, max: BOUND_MAX },
    }
}

/// The net unit count on one axis: the key for the positive direction
/// contributes +1, the key for the negative direction -1, and the two
/// cancel when held together.
pub open spec fn axis_units(neg: bool, pos: bool) -> int {
    (if pos {
        1int
    } else {
        0int
    }) - (if neg {
        1int
    } else {
        0int
    })
}

/// The delta one tick of held keys asks for: the per-axis unit counts
/// scaled by the per-tick step. Left and right drive the x axis, up and
/// down the z axis (up toward -z); nothing moves the y axis.
pub open spec fn input_delta(input: InputState) -> Vec3i {
    Vec3i {
        x: (axis_units(input.left, input.right) * TICK_STEP) as i64,
        y: 0,
        z: (axis_units(input.up, input.down) * TICK_STEP) as i64,
    }
}

/// Accumulate the delta the held directional keys ask for in one tick.
///
/// Contributions are additive: opposite keys held together cancel to a
/// zero net delta on their axis rather than excluding one another.
pub fn movement_delta(input: &InputState) -> (delta: Vec3i)
    ensures
        delta == input_delta(*input),
        input.left && input.right ==> delta.x == 0,
        input.up && input.down ==> delta.z == 0,
{
    let mut units_x: i64 = 0;
    let mut units_z: i64 = 0;
    if input.up {
        units_z = units_z - 1;
    }
    if input.down {
        units_z = units_z + 1;
    }
    if input.left {
        units_x = units_x - 1;
    }
    if input.right {
        units_x = units_x + 1;
    }
    Vec3i { x: units_x * TICK_STEP, y: 0, z: units_z * TICK_STEP }
}

/// Advance the object by one tick of input.
///
/// When the reset key is held it takes precedence: the position becomes
/// the fixed reset point, whatever it was before and whatever other keys
/// are held. Otherwise the accumulated delta is applied and the result is
/// clamped into the default box.
pub fn movement_system(input: &InputState, position: &mut Vec3i)
    ensures
        input.reset ==> *final(position) == reset_point(),
        !input.reset ==> *final(position) == translate_clamped(
            *old(position),
            input_delta(*input),
            default_bound(),
        ),
        default_bound().contains(*final(position)),
{
    if input.reset {
        position.x = RESET_X;
        position.y = RESET_Y;
        position.z = RESET_Z;
    } else {
        let delta = movement_delta(input);
        let bound = Bound {
            x_range: AxisRange { min: BOUND_MIN, max: BOUND_MAX },
            y_range: AxisRange { min: BOUND_MIN, max: BOUND_MAX },
            z_range: AxisRange { min: BOUND_MIN, max: BOUND_MAX },
        };
        translate_with_bounds(position, delta, &bound);
    }
}

} // verus!

