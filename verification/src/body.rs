//! The body data model: a point mass with its current position, the position
//! one tick earlier, and the acceleration being accumulated this tick.

use crate::fixed::in_range;
use crate::vec3::{v3_in_range, v3_scale, v3_sub, v3_zero, V3, Vec3};
use vstd::prelude::*;

verus! {

/// The mathematical value of a body.
pub struct BodyV {
    pub mass: int,
    pub position: V3,
    pub last_position: V3,
    pub acceleration: V3,
}

/// A point mass in the simulation. `mass` is strictly positive and never
/// mutated; `last_position` holds the position one tick in the past, standing
/// in for a velocity field; `acceleration` is transient within a tick.
#[derive(Clone, Copy, Debug, PartialEq, Eq, Structural)]
pub struct Body {
    pub mass: i64,
    pub position: Vec3,
    pub last_position: Vec3,
    pub acceleration: Vec3,
}

impl View for Body {
    type V = BodyV;

    open spec fn view(&self) -> BodyV {
        BodyV {
            mass: self.mass as int,
            position: self.position@,
            last_position: self.last_position@,
            acceleration: self.acceleration@,
        }
    }
}

/// Well-formed body: positive mass and representable coordinates.
pub open spec fn body_wf(b: BodyV) -> bool {
    &&& b.mass > 0
    &&& in_range(b.mass)
    &&& v3_in_range(b.position)
    &&& v3_in_range(b.last_position)
    &&& v3_in_range(b.acceleration)
}

/// The velocity a body's state encodes: the displacement covered over the
/// last tick, `position - last_position`.
pub open spec fn body_velocity(b: BodyV) -> V3 {
    v3_sub(b.position, b.last_position)
}

impl Body {
    /// Create a body from its mass, starting position and starting velocity
    /// (displacement per unit time). The effective velocity is recorded by
    /// seeding `last_position = position - velocity * dt`; acceleration
    /// starts at zero.
    pub fn new(mass: i64, position: Vec3, velocity: Vec3, dt: i64) -> (b: Body)
        requires
            mass > 0,
            v3_in_range(position@),
        ensures
            b@.mass == mass as int,
            b@.position == position@,
            b@.last_position == v3_sub(position@, v3_scale(velocity@, dt as int)),
            b@.acceleration == v3_zero(),
            body_wf(b@),
    {
        Body {
            mass,
            position,
            last_position: position.sub(velocity.scale(dt)),
            acceleration: Vec3::zero(),
        }
    }
}

} // verus!
