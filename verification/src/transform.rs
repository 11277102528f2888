//! A transform model and the idle routine's write discipline.
//!
//! The host engine owns each entity's transform — translation, rotation and
//! scale — and grants the idle routine exclusive mutable access once per
//! frame.  The routine's one permitted side effect is writing the X and Y
//! rotation components; it must never introduce values into translation,
//! scale, or the other rotation components.  `apply_rotation` is that write,
//! with the discipline in its contract, generic over the host's scalar type
//! so that the proof does not depend on the scalar's arithmetic.

use vstd::prelude::*;

verus! {

/// A three-component vector of host scalars.
pub struct Vector3<T> {
    pub x: T,
    pub y: T,
    pub z: T,
}

/// A four-component quaternion of host scalars.
pub struct Quaternion<T> {
    pub x: T,
    pub y: T,
    pub z: T,
    pub w: T,
}

/// An entity transform: translation, rotation and scale.
pub struct Transform3<T> {
    pub translation: Vector3<T>,
    pub rotation: Quaternion<T>,
    pub scale: Vector3<T>,
}

/// Write the evaluated idle-animation rotations into a transform.
///
/// `y` and `x` carry the scalar the host evaluated for the corresponding
/// axis command, or `None` where the command was to keep the axis.  The
/// contract is the routine's whole write discipline: translation and scale
/// are returned exactly as they were, as are the Z and W rotation
/// components, and each of the X and Y components either takes the supplied
/// scalar or keeps its old value.
pub fn apply_rotation<T>(t: &mut Transform3<T>, y: Option<T>, x: Option<T>)
    ensures
        final(t).translation == old(t).translation,
        final(t).scale == old(t).scale,
        final(t).rotation.z == old(t).rotation.z,
        final(t).rotation.w == old(t).rotation.w,
        (match y {
            Some(v) => final(t).rotation.y == v,
            None => final(t).rotation.y == old(t).rotation.y,
        }),
        (match x {
            Some(v) => final(t).rotation.x == v,
            None => final(t).rotation.x == old(t).rotation.x,
        }),
{
    match y {
        Some(v) => {
            t.rotation.y = v;
        }
        None => {}
    }
    match x {
        Some(v) => {
            t.rotation.x = v;
        }
        None => {}
    }
}

} // verus!
