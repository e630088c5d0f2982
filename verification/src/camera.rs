//! The camera controller: vertical translation driven by held keys, with
//! the orientation re-derived after every move to face a fixed world
//! target.

use vstd::prelude::*;

verus! {

/// The fixed world point the camera always faces, in thousandths of a
/// world unit.
pub const TARGET_X_MILLI: i64 = 0;

pub const TARGET_Y_MILLI: i64 = 0;

pub const TARGET_Z_MILLI: i64 = -5000;

/// Vertical speed while a movement key is held, in thousandths of a world
/// unit per millisecond (four world units per second).
pub const CAMERA_RATE_MILLI_PER_MS: i64 = 4;

/// The camera's pose: a position and the direction it faces, both in
/// thousandths of a world unit. The facing direction is never integrated:
/// it is recomputed from the position after every translation, so it
/// always points from the position toward the fixed target.
#[derive(Clone, Copy, PartialEq, Eq, Structural, Debug)]
pub struct CameraPose {
    pub x: i64,
    pub y: i64,
    pub z: i64,
    /// Direction to the target: `TARGET - position`, unnormalized.
    pub face_x: i64,
    pub face_y: i64,
    pub face_z: i64,
}

/// The camera's orientation points at the fixed target: the stored facing
/// direction is exactly the vector from the position to the target.
pub open spec fn aimed_at_target(c: CameraPose) -> bool {
    &&& c.face_x == TARGET_X_MILLI - c.x
    &&& c.face_y == TARGET_Y_MILLI - c.y
    &&& c.face_z == TARGET_Z_MILLI - c.z
}

/// The vertical position after one controller step: each held key
/// contributes an independent displacement of rate times delta; both keys
/// held cancel exactly.
pub open spec fn spec_camera_y(c: CameraPose, dt_ms: u64, down_held: bool, up_held: bool) -> int {
    c.y - (if down_held {
        CAMERA_RATE_MILLI_PER_MS * dt_ms
    } else {
        0
    }) + (if up_held {
        CAMERA_RATE_MILLI_PER_MS * dt_ms
    } else {
        0
    })
}

impl CameraPose {
    /// A camera at the given position, facing the fixed target.
    pub fn new(x: i64, y: i64, z: i64) -> (c: CameraPose)
        requires
            i64::MIN <= TARGET_X_MILLI - x <= i64::MAX,
            i64::MIN <= TARGET_Y_MILLI - y <= i64::MAX,
            i64::MIN <= TARGET_Z_MILLI - z <= i64::MAX,
        ensures
            c.x == x && c.y == y && c.z == z,
            aimed_at_target(c),
    {
        CameraPose {
            x,
            y,
            z,
            face_x: TARGET_X_MILLI - x,
            face_y: TARGET_Y_MILLI - y,
            face_z: TARGET_Z_MILLI - z,
        }
    }

    /// One controller step. The two directional commands are independent
    /// — both may be active in the same frame — and after any
    /// displacement the orientation is recomputed to look at the fixed
    /// target, never integrated.
    pub fn translate_step(&mut self, dt_ms: u64, down_held: bool, up_held: bool)
        requires
            aimed_at_target(*old(self)),
            CAMERA_RATE_MILLI_PER_MS * dt_ms <= i64::MAX,
            down_held ==> i64::MIN < old(self).y - CAMERA_RATE_MILLI_PER_MS * dt_ms,
            up_held && !down_held ==> old(self).y + CAMERA_RATE_MILLI_PER_MS * dt_ms
                <= i64::MAX,
        ensures
            final(self).y == spec_camera_y(*old(self), dt_ms, down_held, up_held),
            final(self).x == old(self).x,
            final(self).z == old(self).z,
            aimed_at_target(*final(self)),
    {
        proof {
            // The stored facing of a well-aimed camera shows that the
            // negated coordinates are representable.
            assert(TARGET_Y_MILLI - old(self).y == old(self).face_y);
        }
        let step = CAMERA_RATE_MILLI_PER_MS * (dt_ms as i64);
        if down_held {
            self.y = self.y - step;
            self.face_y = TARGET_Y_MILLI - self.y;
        }
        if up_held {
            self.y = self.y + step;
            self.face_y = TARGET_Y_MILLI - self.y;
        }
    }
}

/// Translating up and then down for the same duration, with no other
/// input, returns the camera to its starting height (and position, since
/// only the vertical coordinate ever moves).
pub proof fn lemma_up_then_down_returns(c1: CameraPose, c2: CameraPose, dt_ms: u64)
    requires
        c2.y == spec_camera_y(c1, dt_ms, false, true),
        c2.x == c1.x,
        c2.z == c1.z,
    ensures
        spec_camera_y(c2, dt_ms, true, false) == c1.y,
{
}

} // verus!
