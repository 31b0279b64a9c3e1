//! Steering decisions: which way the held keys push the torso.
use vstd::prelude::*;

verus! {

/// The keys that steer the torso, each `true` while held.
#[derive(Clone, Copy, Debug, PartialEq, Eq, Structural)]
pub struct MoveKeys {
    /// Moves away from the camera (towards negative z).
    pub forward: bool,
    /// Moves towards the camera (towards positive z).
    pub back: bool,
    /// Moves towards negative x.
    pub left: bool,
    /// Moves towards positive x.
    pub right: bool,
    /// Raises the torso.
    pub rise: bool,
    /// Lowers the torso.
    pub sink: bool,
}

/// Which way a tick of held keys pushes the torso, one unit step per axis.
///
/// `vel_x` and `vel_z` scale the change of horizontal velocity, `lift` the
/// change of height; each is -1, 0 or 1.
#[derive(Clone, Copy, Debug, PartialEq, Eq, Structural)]
pub struct MoveIntent {
    pub vel_x: i8,
    pub vel_z: i8,
    pub lift: i8,
}

/// The step along one axis: +1 for the positive key alone, -1 for the
/// negative key alone, 0 for both or neither.
pub open spec fn axis_step(negative: bool, positive: bool) -> int {
    (if positive { 1int } else { 0int }) - (if negative { 1int } else { 0int })
}

/// The step along one axis from its two keys.
pub fn axis(negative: bool, positive: bool) -> (r: i8)
    ensures
        r as int == axis_step(negative, positive),
        -1 <= r <= 1,
{
    let up: i8 = if positive { 1 } else { 0 };
    let down: i8 = if negative { 1 } else { 0 };
    up - down
}

impl MoveIntent {
    /// The push of the held keys: left/right on x, forward/back on z
    /// (forward is negative z), rise/sink on height.
    pub fn from_keys(keys: &MoveKeys) -> (r: MoveIntent)
        ensures
            r.vel_x as int == axis_step(keys.left, keys.right),
            r.vel_z as int == axis_step(keys.forward, keys.back),
            r.lift as int == axis_step(keys.sink, keys.rise),
    {
        MoveIntent {
            vel_x: axis(keys.left, keys.right),
            vel_z: axis(keys.forward, keys.back),
            lift: axis(keys.sink, keys.rise),
        }
    }

    /// Whether the keys push the torso at all.
    pub fn is_still(&self) -> (r: bool)
        ensures
            r == (self.vel_x == 0 && self.vel_z == 0 && self.lift == 0),
    {
        self.vel_x == 0 && self.vel_z == 0 && self.lift == 0
    }
}

} // verus!
