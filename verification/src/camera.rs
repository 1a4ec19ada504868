//! The camera and what moves it.
//!
//! The state of the camera is kept in whole numbers, so that turning and
//! moving it add up without loss. Angles are counted in millionths of a
//! degree, lengths in billionths of a world unit, and the way of the pointer
//! in thousandths of a unit of the screen. Whoever builds matrices from the
//! camera converts at that point.

use vstd::prelude::*;

verus! {

/// The steepest pitch, up or down, in millionths of a degree: one degree
/// short of the pole, where forward and up would fall together.
pub const PITCH_LIMIT: i64 = 89_000_000;

/// Half a turn in millionths of a degree.
pub const HALF_TURN: u32 = 180_000_000;

/// A value held to the range between `low` and `high`.
pub open spec fn clamped(value: int, low: int, high: int) -> int {
    if value < low {
        low
    } else if value > high {
        high
    } else {
        value
    }
}

/// A pitch held to the range that the camera allows.
pub open spec fn clamped_pitch(pitch: int) -> int {
    clamped(pitch, -PITCH_LIMIT as int, PITCH_LIMIT as int)
}

/// A value held to the range of the machine's 64-bit numbers.
pub open spec fn saturated(value: int) -> int {
    clamped(value, i64::MIN as int, i64::MAX as int)
}

/// Where the camera stands, where it looks and what it sees.
#[derive(Clone, Copy, Debug, PartialEq, Eq)]
pub struct Camera {
    /// The place of the camera, in billionths of a world unit.
    pub position: [i64; 3],
    /// The angle of the view around the up axis, in millionths of a degree.
    pub yaw: i64,
    /// The angle of the view above the horizon, in millionths of a degree.
    pub pitch: i64,
    /// The vertical field of view, in millionths of a degree.
    pub fovy: u32,
    /// The width and the height of the surface; their ratio is the aspect.
    pub aspect: (u32, u32),
    /// The distance of the near clip plane, in billionths of a world unit.
    pub near: u64,
    /// The distance of the far clip plane, in billionths of a world unit.
    pub far: u64,
}

/// The field of view is inside half a turn, the surface has an extent, and
/// the near plane lies in front of the viewer and before the far plane.
pub open spec fn valid_projection(fovy: u32, aspect: (u32, u32), near: u64, far: u64) -> bool {
    &&& 0 < fovy < HALF_TURN
    &&& aspect.0 > 0
    &&& aspect.1 > 0
    &&& 0 < near < far
}

/// The position after a move by `step` at `move_speed`.
pub open spec fn translated(position: Seq<i64>, step: Seq<i64>, move_speed: u32) -> Seq<i64> {
    Seq::new(3, |k: int| saturated(position[k] + step[k] * move_speed) as i64)
}

/// The yaw after a turn by `x_delta` at `rotation_speed`: thousandths of a
/// unit times thousandths of a degree for each unit are millionths of a
/// degree.
pub open spec fn turned_yaw(yaw: i64, x_delta: i64, rotation_speed: u32) -> i64 {
    saturated(yaw + x_delta * rotation_speed) as i64
}

/// The pitch after a turn by `y_delta` at `rotation_speed`. A pointer that
/// moves down the screen, where y grows, lowers the view.
pub open spec fn turned_pitch(pitch: i64, y_delta: i64, rotation_speed: u32) -> i64 {
    clamped_pitch(pitch - y_delta * rotation_speed) as i64
}

/// Whether the projection is a valid one.
pub fn valid_projection_holds(fovy: u32, aspect: (u32, u32), near: u64, far: u64) -> (valid: bool)
    ensures
        valid == valid_projection(fovy, aspect, near, far),
{
    0 < fovy && fovy < HALF_TURN && aspect.0 > 0 && aspect.1 > 0 && 0 < near && near < far
}

impl Camera {
    /// The pitch stays off the poles and the projection is a valid one.
    pub open spec fn wf(&self) -> bool {
        &&& -PITCH_LIMIT <= self.pitch <= PITCH_LIMIT
        &&& valid_projection(self.fovy, self.aspect, self.near, self.far)
    }

    /// A camera at `position` that looks along `yaw` and `pitch`. A pitch
    /// beyond the limit is held at the limit.
    pub fn new(
        position: [i64; 3],
        yaw: i64,
        pitch: i64,
        fovy: u32,
        aspect: (u32, u32),
        near: u64,
        far: u64,
    ) -> (camera: Camera)
        requires
            valid_projection(fovy, aspect, near, far),
        ensures
            camera == (Camera {
                position,
                yaw,
                pitch: clamped_pitch(pitch as int) as i64,
                fovy,
                aspect,
                near,
                far,
            }),
            camera.wf(),
    {
        let pitch: i64 = if pitch < -PITCH_LIMIT {
            -PITCH_LIMIT
        } else if pitch > PITCH_LIMIT {
            PITCH_LIMIT
        } else {
            pitch
        };
        Camera { position, yaw, pitch, fovy, aspect, near, far }
    }

    /// Takes the extent of a resized surface. An extent without width or
    /// height is passed over.
    pub fn set_aspect(&mut self, width: u32, height: u32)
        requires
            old(self).wf(),
        ensures
            width > 0 && height > 0 ==> *final(self) == (Camera {
                aspect: (width, height),
                ..*old(self)
            }),
            width == 0 || height == 0 ==> *final(self) == *old(self),
            final(self).wf(),
    {
        if width > 0 && height > 0 {
            self.aspect = (width, height);
        }
    }

    pub fn get_position(&self) -> (position: [i64; 3])
        ensures
            position == self.position,
    {
        self.position
    }
}

/// Turns what the input asks for into moves and turns of a camera.
#[derive(Clone, Copy, Debug, PartialEq, Eq)]
pub struct CameraController {
    /// Thousandths of a world unit for each second.
    pub move_speed: u32,
    /// Thousandths of a degree for each unit that the pointer moves.
    pub rotation_speed: u32,
}

/// The sum of two numbers, held to the range of the machine's 64-bit numbers.
fn saturating_sum(a: i128, b: i128) -> (sum: i64)
    requires
        -0x1_0000_0000_0000_0000_0000_0000 <= a <= 0x1_0000_0000_0000_0000_0000_0000,
        -0x1_0000_0000_0000_0000_0000_0000 <= b <= 0x1_0000_0000_0000_0000_0000_0000,
    ensures
        sum == saturated(a + b),
{
    let sum: i128 = a + b;
    if sum < i64::MIN as i128 {
        i64::MIN
    } else if sum > i64::MAX as i128 {
        i64::MAX
    } else {
        sum as i64
    }
}

/// The product of a distance on the input and a speed.
fn scaled(delta: i64, speed: u32) -> (product: i128)
    ensures
        product == delta * speed,
        -0x8000_0000_0000_0000_0000_0000 <= product <= 0x8000_0000_0000_0000_0000_0000,
{
    assert(-0x8000_0000_0000_0000_0000_0000 <= delta * speed <= 0x8000_0000_0000_0000_0000_0000)
        by (nonlinear_arith)
        requires
            -0x8000_0000_0000_0000 <= delta <= 0x7fff_ffff_ffff_ffff,
            0 <= speed <= 0xffff_ffff,
    ;
    delta as i128 * speed as i128
}

impl CameraController {
    pub fn new(move_speed: u32, rotation_speed: u32) -> (controller: CameraController)
        ensures
            controller == (CameraController { move_speed, rotation_speed }),
    {
        CameraController { move_speed, rotation_speed }
    }

    /// Moves the camera by `step` times the move speed. `step` is the
    /// direction of the move, of length one or zero, times the seconds that
    /// have passed, in millionths. Nothing else of the camera changes. A
    /// coordinate that leaves the range of the machine's numbers stays at its
    /// end.
    pub fn translate(&self, camera: &mut Camera, step: [i64; 3])
        ensures
            final(camera).position@ == translated(old(camera).position@, step@, self.move_speed),
            *final(camera) == (Camera { position: final(camera).position, ..*old(camera) }),
            step@ == seq![0i64, 0i64, 0i64] ==> *final(camera) == *old(camera),
    {
        let x: i64 = saturating_sum(camera.position[0] as i128, scaled(step[0], self.move_speed));
        let y: i64 = saturating_sum(camera.position[1] as i128, scaled(step[1], self.move_speed));
        let z: i64 = saturating_sum(camera.position[2] as i128, scaled(step[2], self.move_speed));
        let position: [i64; 3] = [x, y, z];
        proof {
            assert(position@ =~= translated(old(camera).position@, step@, self.move_speed));
            if step@ == seq![0i64, 0i64, 0i64] {
                lemma_translate_zero(old(camera).position@, self.move_speed);
                assert(position =~= old(camera).position);
            }
        }
        camera.position = position;
    }

    /// Turns the camera by the distance that the pointer has moved, in
    /// thousandths of a unit of the screen: the yaw by `delta.0` times the
    /// rotation speed, the pitch against `delta.1` times the rotation speed.
    /// A pitch beyond the limit is held at the limit. Nothing else of the
    /// camera changes.
    pub fn rotate(&self, camera: &mut Camera, delta: (i64, i64))
        requires
            old(camera).wf(),
        ensures
            final(camera).yaw == turned_yaw(old(camera).yaw, delta.0, self.rotation_speed),
            final(camera).pitch == turned_pitch(old(camera).pitch, delta.1, self.rotation_speed),
            *final(camera) == (Camera {
                yaw: final(camera).yaw,
                pitch: final(camera).pitch,
                ..*old(camera)
            }),
            final(camera).wf(),
    {
        let yaw: i64 = saturating_sum(camera.yaw as i128, scaled(delta.0, self.rotation_speed));
        let wanted: i128 = camera.pitch as i128 - scaled(delta.1, self.rotation_speed);
        let pitch: i64 = if wanted < -PITCH_LIMIT as i128 {
            -PITCH_LIMIT
        } else if wanted > PITCH_LIMIT as i128 {
            PITCH_LIMIT
        } else {
            wanted as i64
        };
        camera.yaw = yaw;
        camera.pitch = pitch;
    }
}

/// A turn that would carry the pitch beyond the limit leaves it at the limit,
/// not at the sum; and the same turn once more leaves it there.
pub proof fn lemma_pitch_saturates(pitch: i64, y_delta: i64, rotation_speed: u32)
    requires
        -PITCH_LIMIT <= pitch <= PITCH_LIMIT,
    ensures
        pitch - y_delta * rotation_speed > PITCH_LIMIT ==> turned_pitch(
            pitch,
            y_delta,
            rotation_speed,
        ) == PITCH_LIMIT && turned_pitch(PITCH_LIMIT, y_delta, rotation_speed) == PITCH_LIMIT,
        pitch - y_delta * rotation_speed < -PITCH_LIMIT ==> turned_pitch(
            pitch,
            y_delta,
            rotation_speed,
        ) == -PITCH_LIMIT && turned_pitch((-PITCH_LIMIT) as i64, y_delta, rotation_speed) == -PITCH_LIMIT,
        -PITCH_LIMIT <= turned_pitch(pitch, y_delta, rotation_speed) <= PITCH_LIMIT,
{
}

/// A pointer that has not moved leaves yaw and pitch as they are.
pub proof fn lemma_rotate_zero(camera: Camera, rotation_speed: u32)
    requires
        camera.wf(),
    ensures
        turned_yaw(camera.yaw, 0, rotation_speed) == camera.yaw,
        turned_pitch(camera.pitch, 0, rotation_speed) == camera.pitch,
{
}

/// A move of length zero leaves the position as it is, however much time has
/// passed and whatever the speed.
pub proof fn lemma_translate_zero(position: Seq<i64>, move_speed: u32)
    requires
        position.len() == 3,
    ensures
        translated(position, seq![0i64, 0i64, 0i64], move_speed) == position,
{
    let still = seq![0i64, 0i64, 0i64];
    assert forall|k: int| 0 <= k < 3 implies translated(position, still, move_speed)[k]
        == position[k] by {
        assert(still[k] == 0);
        assert(still[k] * move_speed == 0) by (nonlinear_arith)
            requires
                still[k] == 0,
        ;
    }
    assert(translated(position, still, move_speed) =~= position);
}

} // verus!
