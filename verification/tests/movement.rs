use bounded_cube::bounds::Vec3i;
use bounded_cube::movement::{movement_delta, movement_system, InputState, RESET_Y, TICK_STEP};

fn keys(reset: bool, up: bool, down: bool, left: bool, right: bool) -> InputState {
    InputState { reset, up, down, left, right }
}

#[test]
fn single_keys_give_unit_steps() {
    assert_eq!(movement_delta(&keys(false, true, false, false, false)), Vec3i {
        x: 0,
        y: 0,
        z: -TICK_STEP,
    });
    assert_eq!(movement_delta(&keys(false, false, true, false, false)), Vec3i {
        x: 0,
        y: 0,
        z: TICK_STEP,
    });
    assert_eq!(movement_delta(&keys(false, false, false, true, false)), Vec3i {
        x: -TICK_STEP,
        y: 0,
        z: 0,
    });
    assert_eq!(movement_delta(&keys(false, false, false, false, true)), Vec3i {
        x: TICK_STEP,
        y: 0,
        z: 0,
    });
}

#[test]
fn opposite_keys_cancel() {
    let d = movement_delta(&keys(false, false, false, true, true));
    assert_eq!(d.x, 0);
    let d = movement_delta(&keys(false, true, true, false, false));
    assert_eq!(d.z, 0);
    let d = movement_delta(&keys(false, true, true, true, true));
    assert_eq!(d, Vec3i { x: 0, y: 0, z: 0 });
}

#[test]
fn diagonal_keys_add_per_axis() {
    let d = movement_delta(&keys(false, true, false, false, true));
    assert_eq!(d, Vec3i { x: TICK_STEP, y: 0, z: -TICK_STEP });
}

#[test]
fn no_keys_no_move() {
    let mut p = Vec3i { x: 123, y: 50, z: -456 };
    movement_system(&keys(false, false, false, false, false), &mut p);
    assert_eq!(p, Vec3i { x: 123, y: 50, z: -456 });
}

#[test]
fn reset_overrides_everything() {
    let mut p = Vec3i { x: 999, y: -1000, z: 370 };
    movement_system(&keys(true, true, true, true, true), &mut p);
    assert_eq!(p, Vec3i { x: 0, y: RESET_Y, z: 0 });

    let mut q = Vec3i { x: -1, y: 2, z: -3 };
    movement_system(&keys(true, false, false, false, false), &mut q);
    assert_eq!(q, Vec3i { x: 0, y: RESET_Y, z: 0 });
}

#[test]
fn step_from_start_moves_one_tick() {
    let mut p = Vec3i { x: 0, y: 50, z: 0 };
    movement_system(&keys(false, false, false, false, true), &mut p);
    assert_eq!(p, Vec3i { x: TICK_STEP, y: 50, z: 0 });
}

#[test]
fn step_at_edge_stays_in_box() {
    let mut p = Vec3i { x: 995, y: 50, z: -995 };
    movement_system(&keys(false, true, false, false, true), &mut p);
    assert_eq!(p, Vec3i { x: 1000, y: 50, z: -1000 });
}

#[test]
fn repeated_ticks_walk_to_the_wall_and_stop() {
    let mut p = Vec3i { x: 0, y: 50, z: 0 };
    for _ in 0..200 {
        movement_system(&keys(false, false, false, true, false), &mut p);
    }
    assert_eq!(p, Vec3i { x: -1000, y: 50, z: 0 });
}
