use vstd::prelude::*;
use crate::assets::{MaterialHandle, MeshHandle};

verus! {

/// Three coordinates in thousandths of a world unit.
#[derive(Clone, Copy, Debug, PartialEq, Eq, Structural)]
pub struct Vec3Milli {
    pub x: i32,
    pub y: i32,
    pub z: i32,
}

/// Angular velocity about the X and the Z axis, in microradians per second.
#[derive(Clone, Copy, Debug, PartialEq, Eq, Structural)]
pub struct AngularRate {
    pub x: i32,
    pub z: i32,
}

/// Accumulated rotation about the X and the Z axis, in picoradians: a rate in
/// microradians per second times a time in microseconds.
#[derive(Clone, Copy, Debug, PartialEq, Eq, Structural)]
pub struct Rotation {
    pub x: i128,
    pub z: i128,
}

/// Where an object stands, how far it has turned and how large it is.
#[derive(Clone, Copy, Debug, PartialEq, Eq, Structural)]
pub struct Transform {
    pub position: Vec3Milli,
    pub rotation: Rotation,
    pub scale: Vec3Milli,
}

/// The one object of the 3-D scene that turns while the pipeline runs.
#[derive(Clone, Copy, Debug, PartialEq, Eq, Structural)]
pub struct AnimatedObject {
    pub transform: Transform,
    pub mesh: MeshHandle,
    pub material: MaterialHandle,
    pub rate: AngularRate,
}

/// Whether an angle can be held in an accumulator.
pub open spec fn angle_fits(angle: int) -> bool {
    i128::MIN <= angle <= i128::MAX
}

/// The nearest angle that an accumulator can hold.
pub open spec fn clamp_angle(angle: int) -> i128 {
    if angle < i128::MIN {
        i128::MIN
    } else if angle > i128::MAX {
        i128::MAX
    } else {
        angle as i128
    }
}

/// An accumulated angle after `delta` microseconds more at `rate`.
pub open spec fn turned(angle: i128, rate: i32, delta: u64) -> i128 {
    clamp_angle(angle + rate * delta)
}

/// The time that a sequence of frames takes in all, in microseconds.
pub open spec fn elapsed(deltas: Seq<u64>) -> int
    decreases deltas.len(),
{
    if deltas.len() == 0 {
        0
    } else {
        deltas[0] + elapsed(deltas.drop_first())
    }
}

/// Adds `rate * delta` to an accumulated angle, stopping at the ends of the
/// accumulator's range.
pub fn turn(angle: i128, rate: i32, delta: u64) -> (next: i128)
    ensures
        next == turned(angle, rate, delta),
{
    assert(-0x8000_0000 * 0xffff_ffff_ffff_ffff <= rate * delta <= 0x8000_0000
        * 0xffff_ffff_ffff_ffff) by (nonlinear_arith)
        requires
            -0x8000_0000 <= rate <= 0x8000_0000,
            0 <= delta <= 0xffff_ffff_ffff_ffff,
    ;
    let step: i128 = (rate as i128) * (delta as i128);
    if step >= 0 {
        if angle > i128::MAX - step {
            i128::MAX
        } else {
            angle + step
        }
    } else {
        if angle < i128::MIN - step {
            i128::MIN
        } else {
            angle + step
        }
    }
}

impl AnimatedObject {
    /// An object that has not turned yet.
    pub fn new(
        mesh: MeshHandle,
        material: MaterialHandle,
        position: Vec3Milli,
        scale: Vec3Milli,
        rate: AngularRate,
    ) -> (object: AnimatedObject)
        ensures
            object == (AnimatedObject {
                transform: Transform { position, rotation: Rotation { x: 0, z: 0 }, scale },
                mesh,
                material,
                rate,
            }),
    {
        AnimatedObject {
            transform: Transform { position, rotation: Rotation { x: 0, z: 0 }, scale },
            mesh,
            material,
            rate,
        }
    }

    /// The object one frame of `delta` microseconds later: each axis has
    /// turned by its own rate times the time, and nothing else has changed.
    pub open spec fn advanced(self, delta: u64) -> AnimatedObject {
        AnimatedObject {
            transform: Transform {
                rotation: Rotation {
                    x: turned(self.transform.rotation.x, self.rate.x, delta),
                    z: turned(self.transform.rotation.z, self.rate.z, delta),
                },
                ..self.transform
            },
            ..self
        }
    }

    /// The object after a sequence of frames, one after the other.
    pub open spec fn replayed(self, deltas: Seq<u64>) -> AnimatedObject
        decreases deltas.len(),
    {
        if deltas.len() == 0 {
            self
        } else {
            self.advanced(deltas[0]).replayed(deltas.drop_first())
        }
    }

    /// Whether the rotation that the frames add up to can be held on both
    /// axes.
    pub open spec fn can_hold(self, deltas: Seq<u64>) -> bool {
        &&& angle_fits(self.transform.rotation.x + self.rate.x * elapsed(deltas))
        &&& angle_fits(self.transform.rotation.z + self.rate.z * elapsed(deltas))
    }

    /// Turns the object by the time that has passed since the last frame.
    pub fn advance(&mut self, delta: u64)
        ensures
            *final(self) == old(self).advanced(delta),
    {
        self.transform.rotation.x = turn(self.transform.rotation.x, self.rate.x, delta);
        self.transform.rotation.z = turn(self.transform.rotation.z, self.rate.z, delta);
    }
}

/// No sequence of frames takes a negative time.
pub proof fn lemma_elapsed_nonnegative(deltas: Seq<u64>)
    ensures
        elapsed(deltas) >= 0,
    decreases deltas.len(),
{
    if deltas.len() > 0 {
        lemma_elapsed_nonnegative(deltas.drop_first());
    }
}

/// An angle that lies between two angles that fit, fits: with a part `d` of
/// the whole time `d + e`, the turn `rate * d` lies between none and the whole
/// turn.
proof fn lemma_partial_turn_fits(angle: int, rate: int, d: int, e: int)
    requires
        angle_fits(angle),
        angle_fits(angle + rate * (d + e)),
        d >= 0,
        e >= 0,
    ensures
        angle_fits(angle + rate * d),
        angle + rate * d + rate * e == angle + rate * (d + e),
{
    assert(rate * (d + e) == rate * d + rate * e) by (nonlinear_arith);
    assert(rate >= 0 ==> 0 <= rate * d && 0 <= rate * e) by (nonlinear_arith)
        requires
            d >= 0,
            e >= 0,
    ;
    assert(rate <= 0 ==> 0 >= rate * d && 0 >= rate * e) by (nonlinear_arith)
        requires
            d >= 0,
            e >= 0,
    ;
}

/// Over any sequence of frames, the rotation that the object accumulates on
/// each axis is that axis's rate times the time that the frames take in all,
/// as long as the accumulators can hold it; nothing else about the object
/// changes.
pub proof fn lemma_rotation_is_rate_times_elapsed(object: AnimatedObject, deltas: Seq<u64>)
    requires
        object.can_hold(deltas),
    ensures
        object.replayed(deltas).transform.rotation.x == object.transform.rotation.x
            + object.rate.x * elapsed(deltas),
        object.replayed(deltas).transform.rotation.z == object.transform.rotation.z
            + object.rate.z * elapsed(deltas),
        object.replayed(deltas) == (AnimatedObject {
            transform: Transform {
                rotation: object.replayed(deltas).transform.rotation,
                ..object.transform
            },
            ..object
        }),
    decreases deltas.len(),
{
    if deltas.len() == 0 {
        assert(object.rate.x * 0 == 0);
        assert(object.rate.z * 0 == 0);
    } else {
        let d = deltas[0];
        let rest = deltas.drop_first();
        lemma_elapsed_nonnegative(rest);
        lemma_partial_turn_fits(
            object.transform.rotation.x as int,
            object.rate.x as int,
            d as int,
            elapsed(rest),
        );
        lemma_partial_turn_fits(
            object.transform.rotation.z as int,
            object.rate.z as int,
            d as int,
            elapsed(rest),
        );
        lemma_rotation_is_rate_times_elapsed(object.advanced(d), rest);
    }
}

/// The rotation does not depend on how the time is cut into frames: two
/// sequences of frames that take the same time in all leave the object in
/// the same state.
pub proof fn lemma_frame_rate_independence(object: AnimatedObject, a: Seq<u64>, b: Seq<u64>)
    requires
        elapsed(a) == elapsed(b),
        object.can_hold(a),
    ensures
        object.replayed(a) == object.replayed(b),
{
    lemma_rotation_is_rate_times_elapsed(object, a);
    lemma_rotation_is_rate_times_elapsed(object, b);
}

} // verus!
