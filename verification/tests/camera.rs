use std::cell::Cell;
use voxel_core::camera::{
    movement, Angles, Axis, Camera, CaptureState, HeldKeys, Orientation, PointerDelta, Projection,
    Vec3,
};
use voxel_core::frame::{settle_reload, FrameInput, Session, LOOK_SENSITIVITY, MOVE_SPEED};

const PROJECTION: Projection =
    Projection { fov: 785_398, aspect: 1_000_000, near: 100_000, far: 1_000_000_000 };

const NONE: HeldKeys = HeldKeys { forward: false, backward: false, left: false, right: false };
const W: HeldKeys = HeldKeys { forward: true, ..NONE };
const S: HeldKeys = HeldKeys { backward: true, ..NONE };
const A: HeldKeys = HeldKeys { left: true, ..NONE };
const D: HeldKeys = HeldKeys { right: true, ..NONE };

const SECOND: i32 = 1_000_000;

fn identity(_yaw: i64, _pitch: i64) -> Orientation {
    Orientation::identity()
}

fn quiet() -> FrameInput {
    FrameInput {
        activate: false,
        cancel: false,
        reload: false,
        held: NONE,
        pointer_delta: PointerDelta { x: 0, y: 0 },
        dt: 16_667,
        aspect: 1_777_778,
    }
}

#[test]
fn sensitivity_is_a_thousandth_and_speed_a_hundred() {
    assert_eq!(LOOK_SENSITIVITY, 1_000);
    assert_eq!(MOVE_SPEED, 100_000_000);
}

#[test]
fn new_camera_stands_at_the_origin() {
    let camera = Camera::new(PROJECTION);
    assert_eq!(camera.position, Vec3 { x: 0, y: 0, z: 0 });
    assert_eq!(camera.angles, Angles { yaw: 0, pitch: 0 });
    assert_eq!(camera.projection, PROJECTION);
}

#[test]
fn identity_orientation_has_unit_axes() {
    assert_eq!(
        Orientation::identity(),
        Orientation {
            right: Axis { x: 1_000_000, y: 0, z: 0 },
            back: Axis { x: 0, y: 0, z: 1_000_000 }
        }
    );
    assert_eq!(HeldKeys::none(), NONE);
}

#[test]
fn look_is_ignored_while_released() {
    let mut camera = Camera::new(PROJECTION);
    camera.angles = Angles { yaw: 123, pitch: -456 };
    let before = camera;
    camera.integrate_look(
        CaptureState::Released,
        PointerDelta { x: 40_000_000, y: -7_000_000 },
        LOOK_SENSITIVITY,
    );
    assert_eq!(camera, before);
    camera.integrate_look(
        CaptureState::Released,
        PointerDelta { x: i32::MAX, y: i32::MIN },
        i32::MAX,
    );
    assert_eq!(camera, before);
}

#[test]
fn look_is_ignored_while_released_even_at_the_end_of_the_range() {
    let mut camera = Camera::new(PROJECTION);
    camera.angles = Angles { yaw: i64::MAX, pitch: i64::MIN };
    let before = camera;
    camera.integrate_look(
        CaptureState::Released,
        PointerDelta { x: i32::MAX, y: i32::MIN },
        LOOK_SENSITIVITY,
    );
    assert_eq!(camera, before);
}

#[test]
fn look_adds_delta_times_sensitivity_while_captured() {
    let mut camera = Camera::new(PROJECTION);
    camera.integrate_look(
        CaptureState::Captured,
        PointerDelta { x: 3_000_000, y: -2_000_000 },
        LOOK_SENSITIVITY,
    );
    assert_eq!(camera.angles, Angles { yaw: 3_000, pitch: -2_000 });
    camera.integrate_look(
        CaptureState::Captured,
        PointerDelta { x: 500_000, y: 250_000 },
        LOOK_SENSITIVITY,
    );
    assert_eq!(camera.angles, Angles { yaw: 3_500, pitch: -1_750 });
    camera.integrate_look(
        CaptureState::Captured,
        PointerDelta { x: -1_000_000, y: 1_000_000 },
        2_000_000,
    );
    assert_eq!(camera.angles, Angles { yaw: -1_996_500, pitch: 1_998_250 });
    assert_eq!(camera.position, Vec3 { x: 0, y: 0, z: 0 });
    assert_eq!(camera.projection, PROJECTION);
}

#[test]
fn turned_is_none_where_the_angle_does_not_fit() {
    let angles = Angles { yaw: i64::MAX - 999, pitch: 0 };
    assert_eq!(
        angles.turned(PointerDelta { x: 999_000, y: 0 }, LOOK_SENSITIVITY),
        Some(Angles { yaw: i64::MAX, pitch: 0 })
    );
    assert_eq!(angles.turned(PointerDelta { x: 1_000_000, y: 0 }, LOOK_SENSITIVITY), None);
    let angles = Angles { yaw: 0, pitch: i64::MIN };
    assert_eq!(angles.turned(PointerDelta { x: 0, y: -1_000 }, LOOK_SENSITIVITY), None);
    assert_eq!(
        angles.turned(PointerDelta { x: 0, y: -999 }, LOOK_SENSITIVITY),
        Some(Angles { yaw: 0, pitch: i64::MIN })
    );
}

#[test]
fn forward_alone_moves_a_hundred_along_minus_z() {
    let mut camera = Camera::new(PROJECTION);
    camera.integrate_move(W, Orientation::identity(), SECOND, MOVE_SPEED);
    assert_eq!(camera.position, Vec3 { x: 0, y: 0, z: -100_000_000 });
}

#[test]
fn forward_and_right_together_are_not_normalised() {
    let mut camera = Camera::new(PROJECTION);
    let both = HeldKeys { forward: true, right: true, ..NONE };
    camera.integrate_move(both, Orientation::identity(), SECOND, MOVE_SPEED);
    assert_eq!(camera.position, Vec3 { x: 100_000_000, y: 0, z: -100_000_000 });
    assert_eq!(camera.angles, Angles { yaw: 0, pitch: 0 });
    assert_eq!(camera.projection, PROJECTION);
}

#[test]
fn each_key_has_its_direction() {
    let o = Orientation::identity();
    assert_eq!(movement(NONE, o), Vec3 { x: 0, y: 0, z: 0 });
    assert_eq!(movement(W, o), Vec3 { x: 0, y: 0, z: -1_000_000 });
    assert_eq!(movement(S, o), Vec3 { x: 0, y: 0, z: 1_000_000 });
    assert_eq!(movement(D, o), Vec3 { x: 1_000_000, y: 0, z: 0 });
    assert_eq!(movement(A, o), Vec3 { x: -1_000_000, y: 0, z: 0 });
}

#[test]
fn opposite_keys_cancel() {
    let o = Orientation::identity();
    let ws = HeldKeys { forward: true, backward: true, ..NONE };
    let ad = HeldKeys { left: true, right: true, ..NONE };
    let all = HeldKeys { forward: true, backward: true, left: true, right: true };
    assert_eq!(movement(ws, o), Vec3 { x: 0, y: 0, z: 0 });
    assert_eq!(movement(ad, o), Vec3 { x: 0, y: 0, z: 0 });
    assert_eq!(movement(all, o), Vec3 { x: 0, y: 0, z: 0 });
    let wsd = HeldKeys { forward: true, backward: true, right: true, ..NONE };
    assert_eq!(movement(wsd, o), Vec3 { x: 1_000_000, y: 0, z: 0 });
}

#[test]
fn movement_follows_the_orientation() {
    // a quarter turn about y: the camera's right is world -z, its back world +x
    let turned = Orientation {
        right: Axis { x: 0, y: 0, z: -1_000_000 },
        back: Axis { x: 1_000_000, y: 0, z: 0 },
    };
    assert_eq!(movement(W, turned), Vec3 { x: -1_000_000, y: 0, z: 0 });
    assert_eq!(movement(D, turned), Vec3 { x: 0, y: 0, z: -1_000_000 });
    // looking up by 30 degrees: back tilts up
    let tilted = Orientation {
        right: Axis { x: 1_000_000, y: 0, z: 0 },
        back: Axis { x: 0, y: -500_000, z: 866_025 },
    };
    let sa = HeldKeys { backward: true, left: true, ..NONE };
    assert_eq!(movement(sa, tilted), Vec3 { x: -1_000_000, y: -500_000, z: 866_025 });
    let mut camera = Camera::new(PROJECTION);
    camera.position = Vec3 { x: 10, y: 20, z: 30 };
    camera.integrate_move(sa, tilted, 500_000, 2_000_000);
    assert_eq!(camera.position, Vec3 { x: -999_990, y: -499_980, z: 866_055 });
}

#[test]
fn two_keys_reach_farther_than_one() {
    let o = Orientation::identity();
    let squared = |v: Vec3| (v.x as i128) * (v.x as i128) + (v.y as i128) * (v.y as i128)
        + (v.z as i128) * (v.z as i128);
    let both = HeldKeys { forward: true, right: true, ..NONE };
    assert!(squared(movement(both, o)) > squared(movement(W, o)));
    assert!(squared(movement(both, o)) > squared(movement(D, o)));
    assert_eq!(squared(movement(both, o)), 2 * squared(movement(W, o)));
}

#[test]
fn a_frame_moves_by_speed_times_dt() {
    let mut camera = Camera::new(PROJECTION);
    camera.integrate_move(D, Orientation::identity(), 16_667, MOVE_SPEED);
    assert_eq!(camera.position, Vec3 { x: 1_666_700, y: 0, z: 0 });
    camera.integrate_move(A, Orientation::identity(), 16_667, MOVE_SPEED);
    assert_eq!(camera.position, Vec3 { x: 0, y: 0, z: 0 });
    camera.integrate_move(NONE, Orientation::identity(), SECOND, MOVE_SPEED);
    assert_eq!(camera.position, Vec3 { x: 0, y: 0, z: 0 });
    camera.integrate_move(W, Orientation::identity(), 0, MOVE_SPEED);
    assert_eq!(camera.position, Vec3 { x: 0, y: 0, z: 0 });
}

#[test]
fn moved_is_none_where_the_position_does_not_fit() {
    let edge = Vec3 { x: i64::MAX - 5, y: 0, z: i64::MIN + 5 };
    let step = Vec3 { x: 1_000_000, y: 0, z: -1_000_000 };
    assert_eq!(
        edge.moved(step, 5, 1_000_000),
        Some(Vec3 { x: i64::MAX, y: 0, z: i64::MIN })
    );
    assert_eq!(edge.moved(step, 6, 1_000_000), None);
    assert_eq!(edge.moved(Vec3 { x: 0, y: 0, z: -1_000_000 }, 6, 1_000_000), None);
    assert_eq!(edge.moved(Vec3 { x: 1_000_000, y: 0, z: 0 }, 6, 1_000_000), None);
    assert_eq!(
        edge.moved(Vec3 { x: 0, y: 7_000_000, z: 0 }, 6, 1_000_000),
        Some(Vec3 { x: i64::MAX - 5, y: 42, z: i64::MIN + 5 })
    );
}

#[test]
fn set_aspect_changes_the_aspect_only() {
    let mut camera = Camera::new(PROJECTION);
    camera.position = Vec3 { x: 1, y: 2, z: 3 };
    camera.angles = Angles { yaw: 4, pitch: 5 };
    camera.set_aspect(1_777_778);
    assert_eq!(
        camera.projection,
        Projection { fov: 785_398, aspect: 1_777_778, near: 100_000, far: 1_000_000_000 }
    );
    assert_eq!(camera.position, Vec3 { x: 1, y: 2, z: 3 });
    assert_eq!(camera.angles, Angles { yaw: 4, pitch: 5 });
}

#[test]
fn capture_follows_activation_and_cancel() {
    let released = CaptureState::Released;
    let captured = CaptureState::Captured;
    assert_eq!(released.next(false, false), released);
    assert_eq!(captured.next(false, false), captured);
    assert_eq!(released.next(true, false), captured);
    assert_eq!(captured.next(true, false), captured);
    assert_eq!(released.next(false, true), released);
    assert_eq!(captured.next(false, true), released);
    assert_eq!(released.next(true, true), released);
    assert_eq!(captured.next(true, true), released);
    assert!(captured.looks());
    assert!(!released.looks());
}

#[test]
fn session_starts_released_at_the_origin() {
    let session = Session::new(PROJECTION);
    assert_eq!(session.capture, CaptureState::Released);
    assert_eq!(session.camera, Camera::new(PROJECTION));
}

#[test]
fn update_ignores_the_pointer_until_it_is_captured() {
    let mut session = Session::new(PROJECTION);
    let mut input = quiet();
    input.pointer_delta = PointerDelta { x: 9_000_000, y: 9_000_000 };
    let report = session.update(&input, identity);
    assert!(!report.looked);
    assert_eq!(session.capture, CaptureState::Released);
    assert_eq!(session.camera.angles, Angles { yaw: 0, pitch: 0 });

    input.activate = true;
    let report = session.update(&input, identity);
    assert!(report.looked);
    assert_eq!(session.capture, CaptureState::Captured);
    assert_eq!(session.camera.angles, Angles { yaw: 9_000, pitch: 9_000 });

    input.activate = false;
    let report = session.update(&input, identity);
    assert!(report.looked);
    assert_eq!(session.camera.angles, Angles { yaw: 18_000, pitch: 18_000 });

    input.cancel = true;
    let report = session.update(&input, identity);
    assert!(!report.looked);
    assert_eq!(session.capture, CaptureState::Released);
    assert_eq!(session.camera.angles, Angles { yaw: 18_000, pitch: 18_000 });

    input.activate = true;
    let report = session.update(&input, identity);
    assert!(!report.looked);
    assert_eq!(session.capture, CaptureState::Released);
    assert_eq!(session.camera.angles, Angles { yaw: 18_000, pitch: 18_000 });
}

#[test]
fn update_asks_for_the_orientation_once_with_the_new_angles() {
    let asked = Cell::new(0usize);
    let seen = Cell::new((0i64, 0i64));
    let orient = |yaw: i64, pitch: i64| {
        asked.set(asked.get() + 1);
        seen.set((yaw, pitch));
        Orientation {
            right: Axis { x: 0, y: 0, z: -1_000_000 },
            back: Axis { x: 1_000_000, y: 0, z: 0 },
        }
    };
    let mut session = Session::new(PROJECTION);
    session.capture = CaptureState::Captured;
    let mut input = quiet();
    input.pointer_delta = PointerDelta { x: 2_000_000, y: -1_000_000 };
    input.held = W;
    input.dt = SECOND;
    let report = session.update(&input, orient);
    assert_eq!(asked.get(), 1);
    assert_eq!(seen.get(), (2_000, -1_000));
    assert!(report.looked);
    assert!(report.moved);
    assert!(!report.reload);
    assert_eq!(
        report.orientation,
        Orientation {
            right: Axis { x: 0, y: 0, z: -1_000_000 },
            back: Axis { x: 1_000_000, y: 0, z: 0 }
        }
    );
    assert_eq!(session.camera.position, Vec3 { x: -100_000_000, y: 0, z: 0 });
    assert_eq!(session.camera.projection.aspect, 1_777_778);
    assert_eq!(session.camera.projection.fov, 785_398);
}

#[test]
fn update_moves_whether_or_not_the_pointer_is_captured() {
    let mut session = Session::new(PROJECTION);
    let mut input = quiet();
    input.held = HeldKeys { forward: true, right: true, ..NONE };
    input.dt = SECOND;
    let report = session.update(&input, identity);
    assert!(report.moved);
    assert_eq!(session.capture, CaptureState::Released);
    assert_eq!(session.camera.position, Vec3 { x: 100_000_000, y: 0, z: -100_000_000 });
}

#[test]
fn update_passes_the_reload_request_on() {
    let mut session = Session::new(PROJECTION);
    let mut input = quiet();
    assert!(!session.update(&input, identity).reload);
    input.reload = true;
    assert!(session.update(&input, identity).reload);
}

#[test]
fn update_leaves_out_what_does_not_fit() {
    let mut session = Session::new(PROJECTION);
    session.capture = CaptureState::Captured;
    session.camera.angles = Angles { yaw: i64::MAX, pitch: 7 };
    session.camera.position = Vec3 { x: 0, y: 0, z: i64::MIN };
    let mut input = quiet();
    input.pointer_delta = PointerDelta { x: 1_000_000, y: 1_000_000 };
    input.held = W;
    let report = session.update(&input, identity);
    assert!(!report.looked);
    assert!(!report.moved);
    assert_eq!(session.camera.angles, Angles { yaw: i64::MAX, pitch: 7 });
    assert_eq!(session.camera.position, Vec3 { x: 0, y: 0, z: i64::MIN });
    assert_eq!(session.camera.projection.aspect, 1_777_778);
}

#[test]
fn a_reload_that_succeeds_replaces_the_resource() {
    let mut pipeline: &str = "old pipeline";
    let attempt: Result<&str, String> = Ok("new pipeline");
    assert_eq!(settle_reload(&mut pipeline, attempt), None);
    assert_eq!(pipeline, "new pipeline");
}

#[test]
fn a_reload_that_fails_keeps_the_resource() {
    let mut pipeline: &str = "old pipeline";
    let attempt: Result<&str, String> = Err(String::from("compile error"));
    assert_eq!(settle_reload(&mut pipeline, attempt), Some(String::from("compile error")));
    assert_eq!(pipeline, "old pipeline");
}
