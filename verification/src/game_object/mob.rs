//! The hostile mob archetype: a shared body plus a blacklist of targets
//! it damages on contact and a simple pursuit AI that accelerates
//! toward a set target point after each step.

use crate::assets::{DrawableAsset, Rgba};
use crate::math::{abs_i, scaled_toward, Vec2, COORD_LIMIT, GEOM_LIMIT, SCALE_LIMIT};
use super::basic_cuboid::{current_color, event_amp, stepped, BasicCuboid};
use super::collision::{overlaps, overlaps_at, Collision, Hitbox};
use super::event::{event_ok, Event};
use super::physics::ActorPhysics;
use super::{CanSetMoveTarget, HasCollisionEvents, HasHitbox, Object, ObjectID, Renderable};
use vstd::prelude::*;

verus! {

/// A hostile mob's walk acceleration, milliunits/s^2 (1000 units/s^2).
pub const MOB_WALK_ACCELERATION: i64 = 1_000_000;

/// Knockback magnitude a mob deals on contact, milliunits/s.
pub const MOB_KNOCKBACK: i64 = 2_000_000;

/// Drag constant of a mob's body (1/s).
pub const MOB_DRAG: i64 = 2;

/// Starting health of a mob.
pub const MOB_HEALTH: i64 = 5;

/// Side of a mob's box, in milliunits (10 world units).
pub const MOB_EXTENT: i64 = 10_000;

/// The hostile mob: a shared body, the identities that trigger its
/// contact damage, and an optional pursuit target.
pub struct Dummy {
    pub implementation: BasicCuboid,
    pub blacklist: Vec<ObjectID>,
    pub target: Option<Vec2>,
}

/// A mob after one tick of its own behaviour: the body steps, then the
/// pursuit AI re-aims the walk acceleration at the target, if any.
pub open spec fn stepped_dummy(d: Dummy) -> Dummy {
    let b = stepped(d.implementation);
    match d.target {
        Some(t) => Dummy {
            implementation: BasicCuboid {
                physics: ActorPhysics {
                    acceleration: scaled_toward(
                        Vec2 { x: (t.x - b.position.x) as i64, y: (t.y - b.position.y) as i64 },
                        b.walk_acceleration as int,
                    ),
                    ..b.physics
                },
                ..b
            },
            ..d
        },
        None => Dummy { implementation: b, ..d },
    }
}

/// The exact body of a fresh mob at a position.
pub open spec fn initial_mob_body(position: Vec2) -> BasicCuboid {
    BasicCuboid {
        walk_acceleration: MOB_WALK_ACCELERATION,
        mesh: DrawableAsset::Player,
        hitbox: Hitbox(Vec2 { x: MOB_EXTENT, y: MOB_EXTENT }),
        physics: ActorPhysics {
            velocity: Vec2 { x: 0, y: 0 },
            acceleration: Vec2 { x: 0, y: 0 },
            drag: super::physics::Drag { drag_constant: MOB_DRAG, acceleration: Vec2 { x: 0, y: 0 } },
        },
        position,
        health: MOB_HEALTH,
        time_since_hurt: super::basic_cuboid::HURT_TIMER_START,
        id: ObjectID { value: 0 },
        color: Rgba { r: 222, g: 184, b: 135, a: 200 },
    }
}

/// One mob step keeps the mob within a tick's worth of growth; the
/// pursuit AI re-aims the acceleration but keeps it within the walk
/// strength.
pub proof fn lemma_stepped_dummy_bounds(d: Dummy)
    requires
        d.implementation.physics.wf(),
        0 <= d.implementation.walk_acceleration <= COORD_LIMIT,
        abs_i(d.implementation.position.x as int) <= COORD_LIMIT,
        abs_i(d.implementation.position.y as int) <= COORD_LIMIT,
        abs_i(d.implementation.physics.velocity.x as int) <= COORD_LIMIT,
        abs_i(d.implementation.physics.velocity.y as int) <= COORD_LIMIT,
        abs_i(d.implementation.physics.acceleration.x as int) <= COORD_LIMIT,
        abs_i(d.implementation.physics.acceleration.y as int) <= COORD_LIMIT,
        d.target is Some ==> abs_i(d.target->0.x as int) <= COORD_LIMIT && abs_i(
            d.target->0.y as int) <= COORD_LIMIT,
    ensures
        abs_i(stepped_dummy(d).implementation.physics.velocity.x as int) <= 3 * COORD_LIMIT,
        abs_i(stepped_dummy(d).implementation.physics.velocity.y as int) <= 3 * COORD_LIMIT,
        abs_i(stepped_dummy(d).implementation.position.x as int) <= COORD_LIMIT + COORD_LIMIT
            / 10,
        abs_i(stepped_dummy(d).implementation.position.y as int) <= COORD_LIMIT + COORD_LIMIT
            / 10,
        abs_i(stepped_dummy(d).implementation.physics.acceleration.x as int) <= COORD_LIMIT,
        abs_i(stepped_dummy(d).implementation.physics.acceleration.y as int) <= COORD_LIMIT,
        stepped_dummy(d).implementation.physics.drag.drag_constant
            == d.implementation.physics.drag.drag_constant,
        stepped_dummy(d).implementation.health == d.implementation.health,
        stepped_dummy(d).implementation.hitbox == d.implementation.hitbox,
        stepped_dummy(d).implementation.id == d.implementation.id,
        stepped_dummy(d).implementation.walk_acceleration == d.implementation.walk_acceleration,
        stepped_dummy(d).blacklist == d.blacklist,
        stepped_dummy(d).target == d.target,
{
    super::basic_cuboid::lemma_stepped_bounds(d.implementation);
    match d.target {
        Some(t) => {
            let b = super::basic_cuboid::stepped(d.implementation);
            crate::math::lemma_scaled_toward_bound(
                Vec2 { x: (t.x - b.position.x) as i64, y: (t.y - b.position.y) as i64 },
                b.walk_acceleration as int,
            );
        },
        None => (),
    }
}

impl Dummy {
    /// A fresh mob at the given position, blacklisting the player.
    pub fn new(position: Vec2) -> (r: Dummy)
        ensures
            r.implementation == initial_mob_body(position),
            r.implementation.walk_acceleration == MOB_WALK_ACCELERATION,
            r.implementation.mesh == DrawableAsset::Player,
            r.implementation.hitbox.0 == (Vec2 { x: MOB_EXTENT, y: MOB_EXTENT }),
            r.implementation.physics.drag.drag_constant == MOB_DRAG,
            r.implementation.physics.velocity == (Vec2 { x: 0, y: 0 }),
            r.implementation.physics.acceleration == (Vec2 { x: 0, y: 0 }),
            r.implementation.position == position,
            r.implementation.health == MOB_HEALTH,
            r.implementation.id == (ObjectID { value: 0 }),
            r.implementation.color == (Rgba { r: 222, g: 184, b: 135, a: 200 }),
            r.blacklist@ =~= seq![ObjectID { value: 1 }],
            r.target is None,
    {
        let mut blacklist: Vec<ObjectID> = Vec::new();
        blacklist.push(ObjectID::new(1));
        Dummy {
            implementation: BasicCuboid::new(
                MOB_WALK_ACCELERATION,
                DrawableAsset::Player,
                Vec2 { x: MOB_EXTENT, y: MOB_EXTENT },
                MOB_DRAG,
                position,
                MOB_HEALTH,
                ObjectID::new(0),
                Rgba::new(222, 184, 135, 200),
            ),
            blacklist,
            target: None,
        }
    }

    /// Whether an identity is on this mob's contact-damage blacklist.
    fn blacklist_contains(&self, id: ObjectID) -> (r: bool)
        ensures
            r == self.blacklist@.contains(id),
    {
        let n = self.blacklist.len();
        let mut i: usize = 0;
        while i < n
            invariant
                0 <= i <= n,
                n == self.blacklist@.len(),
                forall|j: int| 0 <= j < i ==> self.blacklist@[j] != id,
            decreases n - i,
        {
            if self.blacklist[i] == id {
                return true;
            }
            i = i + 1;
        }
        false
    }

    /// Applies one event to the mob's body.
    pub fn recieve_event(&mut self, event: Event)
        requires
            event_ok(event),
            abs_i(old(self).implementation.physics.velocity.x as int) <= 8 * SCALE_LIMIT,
            abs_i(old(self).implementation.physics.velocity.y as int) <= 8 * SCALE_LIMIT,
            abs_i(old(self).implementation.health as int) <= 8 * SCALE_LIMIT,
            abs_i(old(self).implementation.position.x as int) <= GEOM_LIMIT / 2,
            abs_i(old(self).implementation.position.y as int) <= GEOM_LIMIT / 2,
        ensures
            *final(self) == (Dummy {
                implementation: super::basic_cuboid::after_event(old(self).implementation, event),
                ..*old(self)
            }),
            abs_i(final(self).implementation.physics.velocity.x as int) <= abs_i(
                old(self).implementation.physics.velocity.x as int) + event_amp(event),
            abs_i(final(self).implementation.physics.velocity.y as int) <= abs_i(
                old(self).implementation.physics.velocity.y as int) + event_amp(event),
            abs_i(final(self).implementation.health as int) <= abs_i(
                old(self).implementation.health as int) + event_amp(event),
    {
        self.implementation.recieve_event(event);
    }

    /// Applies one collision correction to the mob's body.
    pub fn recieve_collision(&mut self, collision: Collision)
        requires
            abs_i(old(self).implementation.position.x as int) <= 4 * GEOM_LIMIT,
            abs_i(old(self).implementation.position.y as int) <= 4 * GEOM_LIMIT,
            abs_i(collision.penetration.x as int) <= 4 * GEOM_LIMIT,
            abs_i(collision.penetration.y as int) <= 4 * GEOM_LIMIT,
        ensures
            *final(self) == (Dummy {
                implementation: super::basic_cuboid::after_collision(old(self).implementation,
                    collision.penetration),
                ..*old(self)
            }),
    {
        self.implementation.recieve_collision(collision);
    }

    /// One tick: the body steps, then the AI re-aims at the target.
    pub fn step(&mut self)
        requires
            old(self).implementation.physics.wf(),
            0 <= old(self).implementation.walk_acceleration <= SCALE_LIMIT,
            abs_i(old(self).implementation.physics.velocity.x as int) <= 10 * COORD_LIMIT,
            abs_i(old(self).implementation.physics.velocity.y as int) <= 10 * COORD_LIMIT,
            abs_i(old(self).implementation.physics.acceleration.x as int) <= 10 * COORD_LIMIT,
            abs_i(old(self).implementation.physics.acceleration.y as int) <= 10 * COORD_LIMIT,
            abs_i(old(self).implementation.position.x as int) <= COORD_LIMIT,
            abs_i(old(self).implementation.position.y as int) <= COORD_LIMIT,
            old(self).target is Some ==> abs_i(old(self).target->0.x as int) <= COORD_LIMIT
                && abs_i(old(self).target->0.y as int) <= COORD_LIMIT,
        ensures
            *final(self) == stepped_dummy(*old(self)),
    {
        self.implementation.step();
        match self.target {
            Some(t) => {
                let pos = self.implementation.position;
                let d = Vec2 { x: t.x - pos.x, y: t.y - pos.y };
                self.implementation.set_movement(d);
            },
            None => (),
        }
    }

    /// Whether the lifecycle cleanup should remove this mob.
    pub fn should_delete(&self) -> (r: bool)
        ensures
            r == (self.implementation.health <= 0),
    {
        self.implementation.should_delete()
    }

    /// Current health of the mob's body.
    pub fn get_health(&self) -> (r: i64)
        ensures
            r == self.implementation.health,
    {
        self.implementation.get_health()
    }

}

impl super::Renderable for Dummy {
    open spec fn asset_spec(&self) -> DrawableAsset {
        self.implementation.mesh
    }

    open spec fn color_spec(&self) -> Option<Rgba> {
        Some(current_color(self.implementation))
    }

    fn get_drawable_asset(&self) -> (r: DrawableAsset) {
        self.implementation.get_drawable_asset()
    }

    fn get_color(&self) -> (r: Option<Rgba>) {
        self.implementation.get_color()
    }
}

impl Object for Dummy {
    open spec fn pos_spec(&self) -> Vec2 {
        self.implementation.position
    }

    open spec fn id_spec(&self) -> ObjectID {
        self.implementation.id
    }

    fn get_position(&self) -> (r: Vec2) {
        self.implementation.position
    }

    fn get_id(&self) -> (r: ObjectID) {
        self.implementation.id
    }
}

impl HasHitbox for Dummy {
    open spec fn ext_spec(&self) -> Vec2 {
        self.implementation.hitbox.0
    }

    fn get_hitbox(&self) -> (r: &Hitbox) {
        &self.implementation.hitbox
    }
}

impl CanSetMoveTarget for Dummy {
    open spec fn with_target_spec(&self, target: Vec2) -> Dummy {
        Dummy { target: Some(target), ..*self }
    }

    fn set_target(&mut self, target: Vec2) {
        self.target = Some(target);
    }
}

impl HasCollisionEvents for Dummy {
    open spec fn emit_ok(&self) -> bool {
        &&& abs_i(self.implementation.position.x as int) <= GEOM_LIMIT / 2
        &&& abs_i(self.implementation.position.y as int) <= GEOM_LIMIT / 2
        &&& abs_i(self.implementation.hitbox.0.x as int) <= GEOM_LIMIT
        &&& abs_i(self.implementation.hitbox.0.y as int) <= GEOM_LIMIT
    }

    open spec fn events_spec(&self, pos: Vec2, ext: Vec2, id: ObjectID) -> Seq<Event> {
        if overlaps(self.implementation.position, self.implementation.hitbox.0, pos, ext)
            && self.blacklist@.contains(id) {
            seq![
                Event::Damage(1),
                Event::ImpulseFrom { from: self.implementation.position, magnitude: MOB_KNOCKBACK },
            ]
        } else {
            Seq::empty()
        }
    }

    open spec fn after_emit_spec(&self, pos: Vec2, ext: Vec2, id: ObjectID) -> Dummy {
        *self
    }

    proof fn emit_properties(&self, pos: Vec2, ext: Vec2, id: ObjectID, p: Vec2, e: Vec2,
        d: ObjectID) {
    }

    fn create_collision_event(&mut self, other_pos: Vec2, other_ext: Vec2, other_id: ObjectID)
        -> (evs: Vec<Event>) {
        let hit = overlaps_at(self.implementation.position, self.implementation.hitbox.vec(),
            other_pos, other_ext);
        if hit && self.blacklist_contains(other_id) {
            let mut effects: Vec<Event> = Vec::new();
            effects.push(Event::Damage(1));
            effects.push(
                Event::ImpulseFrom { from: self.implementation.position, magnitude: MOB_KNOCKBACK },
            );
            effects
        } else {
            Vec::new()
        }
    }
}

} // verus!
