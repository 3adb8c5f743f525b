//! One frame of the session: what the inputs of a frame do to the pointer
//! capture and to the camera, and what becomes of a reload that was asked for.

use vstd::prelude::*;
use crate::camera::{
    movement, Camera, CaptureState, HeldKeys, Orientation, PointerDelta, Projection,
};

verus! {

/// How far one pointer count turns the camera: a thousandth of a radian.
pub const LOOK_SENSITIVITY: i32 = 1_000;

/// How fast the camera moves: a hundred units a second.
pub const MOVE_SPEED: i32 = 100_000_000;

/// What one frame brings in.
#[derive(Clone, Copy, PartialEq, Eq, Debug, Structural)]
pub struct FrameInput {
    /// The activation input (the primary click) was pressed.
    pub activate: bool,
    /// The cancel input (escape) was pressed.
    pub cancel: bool,
    /// The reload input was pressed.
    pub reload: bool,
    /// The movement keys that are held.
    pub held: HeldKeys,
    /// How far the pointer moved since the last frame.
    pub pointer_delta: PointerDelta,
    /// The time since the last frame, in millionths of a second.
    pub dt: i32,
    /// The viewport's width over its height, in millionths.
    pub aspect: i32,
}

/// What one frame came to.
#[derive(Clone, Copy, PartialEq, Eq, Debug, Structural)]
pub struct FrameReport {
    /// The orientation that belongs to the camera's angles after the frame.
    pub orientation: Orientation,
    /// Whether the pointer delta was added to the angles.
    pub looked: bool,
    /// Whether the movement was added to the position.
    pub moved: bool,
    /// Whether the pipeline is to be reloaded.
    pub reload: bool,
}

/// The camera and the state of the pointer capture.
#[derive(Clone, Copy, PartialEq, Eq, Debug, Structural)]
pub struct Session {
    pub camera: Camera,
    pub capture: CaptureState,
}

impl Session {
    /// A session whose camera stands at the origin, with the pointer released.
    pub fn new(projection: Projection) -> (session: Session)
        ensures
            session.camera == Camera::new(projection),
            session.capture == CaptureState::Released,
    {
        Session { camera: Camera::new(projection), capture: CaptureState::Released }
    }

    /// Takes the session through one frame, in this order.
    ///
    /// The capture state follows the activation and cancel inputs. If the
    /// pointer is captured then, the pointer delta turns the camera at
    /// [`LOOK_SENSITIVITY`]. `orient` is asked once, for the orientation that
    /// belongs to the angles as they are now. The held keys move the camera
    /// along that orientation at [`MOVE_SPEED`]. The aspect ratio is set to the
    /// frame's. A turn or a move is left out, and reported so, only where 64
    /// bits do not hold its result.
    pub fn update<O: Fn(i64, i64) -> Orientation>(
        &mut self,
        input: &FrameInput,
        orient: O,
    ) -> (report: FrameReport)
        requires
            forall|yaw: i64, pitch: i64| call_requires(orient, (yaw, pitch)),
        ensures
            final(self).capture == old(self).capture.next(input.activate, input.cancel),
            ({
                let angles = old(self).camera.angles;
                let delta = input.pointer_delta;
                &&& final(self).capture == CaptureState::Released ==> final(self).camera.angles
                    == angles
                &&& report.looked == (final(self).capture == CaptureState::Captured
                    && angles.turn_fits(delta, LOOK_SENSITIVITY))
                &&& report.looked ==> final(self).camera.angles.yaw == angles.yaw_after(
                    delta,
                    LOOK_SENSITIVITY,
                )
                &&& report.looked ==> final(self).camera.angles.pitch == angles.pitch_after(
                    delta,
                    LOOK_SENSITIVITY,
                )
                &&& !report.looked ==> final(self).camera.angles == angles
            }),
            call_ensures(
                orient,
                (final(self).camera.angles.yaw, final(self).camera.angles.pitch),
                report.orientation,
            ),
            ({
                let from = old(self).camera.position;
                let by = movement(input.held, report.orientation);
                &&& report.moved == from.move_fits(by, input.dt, MOVE_SPEED)
                &&& report.moved ==> final(self).camera.position.x == from.x_after(
                    by,
                    input.dt,
                    MOVE_SPEED,
                )
                &&& report.moved ==> final(self).camera.position.y == from.y_after(
                    by,
                    input.dt,
                    MOVE_SPEED,
                )
                &&& report.moved ==> final(self).camera.position.z == from.z_after(
                    by,
                    input.dt,
                    MOVE_SPEED,
                )
                &&& !report.moved ==> final(self).camera.position == from
            }),
            final(self).camera.projection == (Projection {
                aspect: input.aspect,
                ..old(self).camera.projection
            }),
            report.reload == input.reload,
    {
        self.capture = self.capture.next(input.activate, input.cancel);
        let looked: bool = self.capture.looks() && self.camera.angles.turned(
            input.pointer_delta,
            LOOK_SENSITIVITY,
        ).is_some();
        if looked {
            self.camera.integrate_look(self.capture, input.pointer_delta, LOOK_SENSITIVITY);
        }
        let orientation: Orientation = orient(self.camera.angles.yaw, self.camera.angles.pitch);
        let moved: bool = self.camera.position.moved(
            movement(input.held, orientation),
            input.dt,
            MOVE_SPEED,
        ).is_some();
        if moved {
            self.camera.integrate_move(input.held, orientation, input.dt, MOVE_SPEED);
        }
        self.camera.set_aspect(input.aspect);
        FrameReport { orientation, looked, moved, reload: input.reload }
    }
}

/// What becomes of a reload: a new resource takes the place of the current
/// one; a failure leaves the current one in use and is handed back to be
/// reported.
pub fn settle_reload<T, E>(current: &mut T, attempt: Result<T, E>) -> (failure: Option<E>)
    ensures
        match attempt {
            Ok(fresh) => *final(current) == fresh && failure is None,
            Err(cause) => *final(current) == *old(current) && failure == Some(cause),
        },
{
    match attempt {
        Ok(fresh) => {
            *current = fresh;
            None
        },
        Err(cause) => Some(cause),
    }
}

} // verus!
