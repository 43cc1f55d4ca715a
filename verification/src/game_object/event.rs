//! The closed set of gameplay effects one entity can send another.
//! Events are ephemeral: produced by a collision check and consumed at
//! once by the receiving entity's handler, never stored.

use crate::math::{abs_i, Vec2, GEOM_LIMIT, SCALE_LIMIT};
use vstd::prelude::*;

verus! {

/// A gameplay effect addressed to one entity.
#[derive(Clone, Copy, Debug, PartialEq, Eq, Structural)]
pub enum Event {
    /// Knockback of the given magnitude away from a point of origin;
    /// the receiver works the direction out from its own position.
    ImpulseFrom { from: Vec2, magnitude: i64 },
    /// A velocity change applied as-is, not scaled by tick duration.
    Impulse(Vec2),
    /// Health reduction; health has no floor, it may go negative.
    Damage(i64),
}

/// Payload bounds under which an event can always be applied without
/// arithmetic overflow.
pub open spec fn event_ok(e: Event) -> bool {
    match e {
        Event::ImpulseFrom { from, magnitude } => abs_i(from.x as int) <= GEOM_LIMIT / 2
            && abs_i(from.y as int) <= GEOM_LIMIT / 2 && abs_i(magnitude as int) <= SCALE_LIMIT,
        Event::Impulse(v) => abs_i(v.x as int) <= SCALE_LIMIT && abs_i(v.y as int) <= SCALE_LIMIT,
        Event::Damage(n) => abs_i(n as int) <= SCALE_LIMIT,
    }
}

} // verus!
