//! The first-person camera: where it stands, where it looks, and how pointer
//! and keys move it.
//!
//! The camera keeps a yaw and a pitch and nothing else about its orientation,
//! so no roll can creep in. Turning the two angles into axes takes sines and
//! cosines; that is the caller's part, and the axes come back in as an
//! [`Orientation`].

use vstd::prelude::*;
use crate::units::{product, product3, times, times3, UNIT};

verus! {

/// A point or a displacement in world space, in millionths.
#[derive(Clone, Copy, PartialEq, Eq, Debug, Structural)]
pub struct Vec3 {
    pub x: i64,
    pub y: i64,
    pub z: i64,
}

/// An axis in world space, in millionths: `1_000_000` is a length of one.
#[derive(Clone, Copy, PartialEq, Eq, Debug, Structural)]
pub struct Axis {
    pub x: i32,
    pub y: i32,
    pub z: i32,
}

/// Where the camera's own axes point in world space: `right` is the image of
/// its +X, `back` the image of its +Z. The camera looks along -Z.
///
/// The orientation that belongs to a yaw and a pitch is the rotation by minus
/// the pitch about x, followed by the rotation by minus the yaw about y. This
/// crate takes the caller's word for it.
#[derive(Clone, Copy, PartialEq, Eq, Debug, Structural)]
pub struct Orientation {
    pub right: Axis,
    pub back: Axis,
}

/// How far the pointer moved, in millionths of a count.
#[derive(Clone, Copy, PartialEq, Eq, Debug, Structural)]
pub struct PointerDelta {
    pub x: i32,
    pub y: i32,
}

/// Accumulated yaw and pitch, in millionths of a radian.
#[derive(Clone, Copy, PartialEq, Eq, Debug, Structural)]
pub struct Angles {
    pub yaw: i64,
    pub pitch: i64,
}

/// The perspective projection's settings, in millionths (the field of view in
/// millionths of a radian).
#[derive(Clone, Copy, PartialEq, Eq, Debug, Structural)]
pub struct Projection {
    pub fov: i32,
    pub aspect: i32,
    pub near: i32,
    pub far: i32,
}

/// Which of the four movement keys are held: W, S, A and D.
#[derive(Clone, Copy, PartialEq, Eq, Debug, Structural)]
pub struct HeldKeys {
    pub forward: bool,
    pub backward: bool,
    pub left: bool,
    pub right: bool,
}

/// Whether the pointer belongs to the camera.
#[derive(Clone, Copy, PartialEq, Eq, Debug, Structural)]
pub enum CaptureState {
    Released,
    Captured,
}

/// The camera: projection settings, a position, and the angles it looks along.
#[derive(Clone, Copy, PartialEq, Eq, Debug, Structural)]
pub struct Camera {
    pub projection: Projection,
    pub position: Vec3,
    pub angles: Angles,
}

/// `value` where `on` holds, else nothing.
pub open spec fn gated(on: bool, value: int) -> int {
    if on {
        value
    } else {
        0
    }
}

/// One coordinate of the movement that the held keys ask for, given the same
/// coordinate of the two axes: D adds `right`, A takes it away, S adds `back`,
/// W takes it away. Nothing is normalised.
pub open spec fn pull(held: HeldKeys, right: int, back: int) -> int {
    gated(held.right, right) - gated(held.left, right) + gated(held.backward, back) - gated(
        held.forward,
        back,
    )
}

/// The movement in world space that the held keys ask for.
pub open spec fn spec_movement(held: HeldKeys, orientation: Orientation) -> Vec3 {
    Vec3 {
        x: pull(held, orientation.right.x as int, orientation.back.x as int) as i64,
        y: pull(held, orientation.right.y as int, orientation.back.y as int) as i64,
        z: pull(held, orientation.right.z as int, orientation.back.z as int) as i64,
    }
}

/// The square of a vector's length.
pub open spec fn length_squared(v: Vec3) -> int {
    v.x * v.x + v.y * v.y + v.z * v.z
}

impl CaptureState {
    /// The state after one frame's inputs: the cancel input releases the
    /// pointer, and wins over the activation input; the activation input
    /// captures it; without either the state stays.
    pub open spec fn spec_next(self, activate: bool, cancel: bool) -> CaptureState {
        if cancel {
            CaptureState::Released
        } else if activate {
            CaptureState::Captured
        } else {
            self
        }
    }

    /// The state after one frame's inputs.
    #[verifier::when_used_as_spec(spec_next)]
    pub fn next(self, activate: bool, cancel: bool) -> (after: CaptureState)
        ensures
            after == self.spec_next(activate, cancel),
            cancel ==> after == CaptureState::Released,
            activate && !cancel ==> after == CaptureState::Captured,
            !activate && !cancel ==> after == self,
    {
        if cancel {
            CaptureState::Released
        } else if activate {
            CaptureState::Captured
        } else {
            self
        }
    }

    /// Whether pointer movement turns the camera in this state.
    pub fn looks(self) -> (active: bool)
        ensures
            active == (self == CaptureState::Captured),
    {
        match self {
            CaptureState::Captured => true,
            CaptureState::Released => false,
        }
    }
}

impl Orientation {
    /// The orientation of a camera that was never turned.
    pub open spec fn spec_identity() -> Orientation {
        Orientation { right: Axis { x: UNIT, y: 0, z: 0 }, back: Axis { x: 0, y: 0, z: UNIT } }
    }

    /// The orientation of a camera that was never turned.
    #[verifier::when_used_as_spec(spec_identity)]
    pub fn identity() -> (o: Orientation)
        ensures
            o == Orientation::spec_identity(),
    {
        Orientation { right: Axis { x: UNIT, y: 0, z: 0 }, back: Axis { x: 0, y: 0, z: UNIT } }
    }

    /// Whether the two axes are perpendicular and neither is zero.
    pub open spec fn perpendicular(self) -> bool {
        &&& self.right.x * self.back.x + self.right.y * self.back.y + self.right.z * self.back.z
            == 0
        &&& self.right.x != 0 || self.right.y != 0 || self.right.z != 0
        &&& self.back.x != 0 || self.back.y != 0 || self.back.z != 0
    }
}

impl HeldKeys {
    /// No key held.
    pub fn none() -> (held: HeldKeys)
        ensures
            held == (HeldKeys { forward: false, backward: false, left: false, right: false }),
    {
        HeldKeys { forward: false, backward: false, left: false, right: false }
    }
}

/// One coordinate of the movement that the held keys ask for.
fn pull_of(held: HeldKeys, right: i32, back: i32) -> (sum: i64)
    ensures
        sum == pull(held, right as int, back as int),
{
    let mut sum: i64 = 0;
    if held.forward {
        sum = sum - back as i64;
    }
    if held.backward {
        sum = sum + back as i64;
    }
    if held.right {
        sum = sum + right as i64;
    }
    if held.left {
        sum = sum - right as i64;
    }
    sum
}

/// The movement in world space that the held keys ask for: the camera's
/// direction of travel in its own space (W is -Z, S is +Z, D is +X, A is -X,
/// added up as they are held) carried over to the axes of `orientation`.
#[verifier::when_used_as_spec(spec_movement)]
pub fn movement(held: HeldKeys, orientation: Orientation) -> (m: Vec3)
    ensures
        m == spec_movement(held, orientation),
        m.x == pull(held, orientation.right.x as int, orientation.back.x as int),
        m.y == pull(held, orientation.right.y as int, orientation.back.y as int),
        m.z == pull(held, orientation.right.z as int, orientation.back.z as int),
{
    Vec3 {
        x: pull_of(held, orientation.right.x, orientation.back.x),
        y: pull_of(held, orientation.right.y, orientation.back.y),
        z: pull_of(held, orientation.right.z, orientation.back.z),
    }
}

impl Angles {
    /// The yaw after a pointer delta: the old yaw plus delta times sensitivity.
    pub open spec fn yaw_after(self, delta: PointerDelta, sensitivity: i32) -> int {
        self.yaw + product(delta.x as int, sensitivity as int)
    }

    /// The pitch after a pointer delta: the old pitch plus delta times
    /// sensitivity.
    pub open spec fn pitch_after(self, delta: PointerDelta, sensitivity: i32) -> int {
        self.pitch + product(delta.y as int, sensitivity as int)
    }

    /// Whether both angles after a pointer delta are ones that 64 bits hold.
    pub open spec fn turn_fits(self, delta: PointerDelta, sensitivity: i32) -> bool {
        &&& i64::MIN <= self.yaw_after(delta, sensitivity) <= i64::MAX
        &&& i64::MIN <= self.pitch_after(delta, sensitivity) <= i64::MAX
    }

    /// The angles after a pointer delta, or `None` where 64 bits do not hold
    /// them.
    pub fn turned(&self, delta: PointerDelta, sensitivity: i32) -> (after: Option<Angles>)
        ensures
            after is Some <==> self.turn_fits(delta, sensitivity),
            after matches Some(a) ==> ({
                &&& a.yaw == self.yaw_after(delta, sensitivity)
                &&& a.pitch == self.pitch_after(delta, sensitivity)
            }),
    {
        let yaw = self.yaw.checked_add(times(delta.x, sensitivity));
        let pitch = self.pitch.checked_add(times(delta.y, sensitivity));
        match (yaw, pitch) {
            (Some(yaw), Some(pitch)) => Some(Angles { yaw, pitch }),
            _ => None,
        }
    }
}

impl Vec3 {
    /// The x coordinate after moving by `movement` for `dt` at `speed`.
    pub open spec fn x_after(self, movement: Vec3, dt: i32, speed: i32) -> int {
        self.x + product3(movement.x as int, dt as int, speed as int)
    }

    /// The y coordinate after moving by `movement` for `dt` at `speed`.
    pub open spec fn y_after(self, movement: Vec3, dt: i32, speed: i32) -> int {
        self.y + product3(movement.y as int, dt as int, speed as int)
    }

    /// The z coordinate after moving by `movement` for `dt` at `speed`.
    pub open spec fn z_after(self, movement: Vec3, dt: i32, speed: i32) -> int {
        self.z + product3(movement.z as int, dt as int, speed as int)
    }

    /// Whether the point after the move is one that 64 bits hold.
    pub open spec fn move_fits(self, movement: Vec3, dt: i32, speed: i32) -> bool {
        &&& i64::MIN <= self.x_after(movement, dt, speed) <= i64::MAX
        &&& i64::MIN <= self.y_after(movement, dt, speed) <= i64::MAX
        &&& i64::MIN <= self.z_after(movement, dt, speed) <= i64::MAX
    }

    /// The point after moving by `movement * dt * speed`, or `None` where 64
    /// bits do not hold it.
    pub fn moved(&self, movement: Vec3, dt: i32, speed: i32) -> (after: Option<Vec3>)
        ensures
            after is Some <==> self.move_fits(movement, dt, speed),
            after matches Some(p) ==> ({
                &&& p.x == self.x_after(movement, dt, speed)
                &&& p.y == self.y_after(movement, dt, speed)
                &&& p.z == self.z_after(movement, dt, speed)
            }),
    {
        let x = shifted(self.x, times3(movement.x, dt, speed));
        let y = shifted(self.y, times3(movement.y, dt, speed));
        let z = shifted(self.z, times3(movement.z, dt, speed));
        match (x, y, z) {
            (Some(x), Some(y), Some(z)) => Some(Vec3 { x, y, z }),
            _ => None,
        }
    }
}

/// `from + by`, or `None` where 64 bits do not hold it.
fn shifted(from: i64, by: i128) -> (sum: Option<i64>)
    ensures
        sum is Some <==> i64::MIN <= from + by <= i64::MAX,
        sum matches Some(s) ==> s == from + by,
{
    if by < i64::MIN as i128 - from as i128 || by > i64::MAX as i128 - from as i128 {
        None
    } else {
        Some((from as i128 + by) as i64)
    }
}

impl Camera {
    /// A camera at the origin that was never turned.
    pub open spec fn spec_new(projection: Projection) -> Camera {
        Camera {
            projection,
            position: Vec3 { x: 0, y: 0, z: 0 },
            angles: Angles { yaw: 0, pitch: 0 },
        }
    }

    /// A camera at the origin that was never turned.
    #[verifier::when_used_as_spec(spec_new)]
    pub fn new(projection: Projection) -> (camera: Camera)
        ensures
            camera == Camera::spec_new(projection),
    {
        Camera {
            projection,
            position: Vec3 { x: 0, y: 0, z: 0 },
            angles: Angles { yaw: 0, pitch: 0 },
        }
    }

    /// Turns the camera by a pointer delta: while the pointer is captured,
    /// `delta * sensitivity` is added to the angles, `x` to the yaw and `y`
    /// to the pitch. While it is released the delta is
    /// ignored.
    pub fn integrate_look(&mut self, capture: CaptureState, delta: PointerDelta, sensitivity: i32)
        requires
            capture == CaptureState::Captured ==> old(self).angles.turn_fits(delta, sensitivity),
        ensures
            capture == CaptureState::Released ==> *final(self) == *old(self),
            capture == CaptureState::Captured ==> ({
                &&& final(self).angles.yaw == old(self).angles.yaw_after(delta, sensitivity)
                &&& final(self).angles.pitch == old(self).angles.pitch_after(delta, sensitivity)
            }),
            final(self).position == old(self).position,
            final(self).projection == old(self).projection,
    {
        if capture.looks() {
            let after = self.angles.turned(delta, sensitivity);
            self.angles = after.unwrap();
        }
    }

    /// Moves the camera: the movement that the held keys ask for along the
    /// axes of `orientation`, times `dt`, times `speed`, is added to the
    /// position.
    pub fn integrate_move(
        &mut self,
        held: HeldKeys,
        orientation: Orientation,
        dt: i32,
        speed: i32,
    )
        requires
            old(self).position.move_fits(movement(held, orientation), dt, speed),
        ensures
            ({
                let by = movement(held, orientation);
                &&& final(self).position.x == old(self).position.x_after(by, dt, speed)
                &&& final(self).position.y == old(self).position.y_after(by, dt, speed)
                &&& final(self).position.z == old(self).position.z_after(by, dt, speed)
            }),
            final(self).angles == old(self).angles,
            final(self).projection == old(self).projection,
    {
        let after = self.position.moved(movement(held, orientation), dt, speed);
        self.position = after.unwrap();
    }

    /// Sets the projection's aspect ratio and nothing else.
    pub fn set_aspect(&mut self, ratio: i32)
        ensures
            final(self).projection.aspect == ratio,
            final(self).projection.fov == old(self).projection.fov,
            final(self).projection.near == old(self).projection.near,
            final(self).projection.far == old(self).projection.far,
            final(self).position == old(self).position,
            final(self).angles == old(self).angles,
    {
        self.projection.aspect = ratio;
    }
}

/// The squares of a difference and of a negative, written out.
proof fn lemma_squares(a: int, b: int, difference: int, negative: int)
    by (nonlinear_arith)
    requires
        difference == a - b,
        negative == -b,
    ensures
        difference * difference == a * a - 2 * (a * b) + b * b,
        negative * negative == b * b,
        a * a >= 0,
        b * b >= 0,
        a != 0 ==> a * a > 0,
        b != 0 ==> b * b > 0,
{
}

/// With perpendicular axes, holding two keys of different axes moves the
/// camera strictly farther than either key alone: the two movements are added
/// up, and their sum is not cut back to the length of one.
pub proof fn lemma_two_keys_reach_farther(orientation: Orientation)
    requires
        orientation.perpendicular(),
    ensures
        ({
            let none = HeldKeys { forward: false, backward: false, left: false, right: false };
            let w = HeldKeys { forward: true, ..none };
            let d = HeldKeys { right: true, ..none };
            let both = HeldKeys { forward: true, right: true, ..none };
            &&& length_squared(movement(both, orientation)) > length_squared(
                movement(w, orientation),
            )
            &&& length_squared(movement(both, orientation)) > length_squared(
                movement(d, orientation),
            )
        }),
{
    let none = HeldKeys { forward: false, backward: false, left: false, right: false };
    let w = movement(HeldKeys { forward: true, ..none }, orientation);
    let d = movement(HeldKeys { right: true, ..none }, orientation);
    let both = movement(HeldKeys { forward: true, right: true, ..none }, orientation);
    lemma_squares(d.x as int, orientation.back.x as int, both.x as int, w.x as int);
    lemma_squares(d.y as int, orientation.back.y as int, both.y as int, w.y as int);
    lemma_squares(d.z as int, orientation.back.z as int, both.z as int, w.z as int);
}

} // verus!
