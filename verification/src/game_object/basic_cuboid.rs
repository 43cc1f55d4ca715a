//! The shared "mob body": position, health, hitbox, motion state, hurt
//! timer and tint. Player and hostile-mob archetypes reuse it through
//! thin delegating wrappers that add their own pre/post step behaviour.

use crate::assets::{DrawableAsset, Rgba};
use crate::math::{abs_i, lemma_mul_bound, lemma_tdiv_bound, norm_sq, scale_to, scaled_toward,
    tdiv, Vec2, COORD_LIMIT, GEOM_LIMIT, SCALE_LIMIT};
use super::collision::{Collision, Hitbox};
use super::event::{event_ok, Event};
use super::physics::{drag_accel, vel_step, ActorPhysics, Drag};
use super::{HasHitbox, Object, ObjectID};
use vstd::prelude::*;

verus! {

/// Ticks the hurt tint stays on after taking damage (0.15 s).
pub const HURT_FLASH_TICKS: u64 = 9;

/// The hurt timer stops counting once it reaches this age (200 s).
pub const HURT_TIMER_CAP: u64 = 12000;

/// Initial hurt-timer value: old enough that a fresh body shows no tint
/// (300 s).
pub const HURT_TIMER_START: u64 = 18000;

/// Speeds at or below this dead-zone (10 units/s, in milliunits) are
/// treated as motion noise: they do not move the entity, though they
/// are not zeroed.
pub const SPEED_DEADZONE: i64 = 10_000;

/// The shared body every walking archetype delegates to.
#[derive(Clone, Copy)]
pub struct BasicCuboid {
    pub walk_acceleration: i64,
    pub mesh: DrawableAsset,
    pub hitbox: Hitbox,
    pub physics: ActorPhysics,
    pub position: Vec2,
    pub health: i64,
    pub time_since_hurt: u64,
    pub id: ObjectID,
    pub color: Rgba,
}

/// Where a body stands after one position update: it advances by one
/// tick's worth of velocity, except below the speed dead-zone.
pub open spec fn moved_pos(p: Vec2, v: Vec2) -> Vec2 {
    if norm_sq(v) > SPEED_DEADZONE * SPEED_DEADZONE {
        Vec2 {
            x: (p.x + tdiv(v.x as int, crate::TICKS_PER_SECOND as int)) as i64,
            y: (p.y + tdiv(v.y as int, crate::TICKS_PER_SECOND as int)) as i64,
        }
    } else {
        p
    }
}

/// A body after receiving one event: damage lowers health (no floor)
/// and restarts the hurt flash; impulses add to the velocity, knockback
/// from a point directed away from that point.
pub open spec fn after_event(c: BasicCuboid, e: Event) -> BasicCuboid {
    match e {
        Event::Damage(n) => BasicCuboid {
            health: (c.health - n) as i64,
            time_since_hurt: 0,
            ..c
        },
        Event::Impulse(v) => BasicCuboid {
            physics: ActorPhysics {
                velocity: Vec2 {
                    x: (c.physics.velocity.x + v.x) as i64,
                    y: (c.physics.velocity.y + v.y) as i64,
                },
                ..c.physics
            },
            ..c
        },
        Event::ImpulseFrom { from, magnitude } => {
            let d = Vec2 { x: (c.position.x - from.x) as i64, y: (c.position.y - from.y) as i64 };
            let i = scaled_toward(d, magnitude as int);
            BasicCuboid {
                physics: ActorPhysics {
                    velocity: Vec2 {
                        x: (c.physics.velocity.x + i.x) as i64,
                        y: (c.physics.velocity.y + i.y) as i64,
                    },
                    ..c.physics
                },
                ..c
            }
        },
    }
}

/// A body after a sequence of events, applied in sequence order.
pub open spec fn after_events(c: BasicCuboid, evs: Seq<Event>) -> BasicCuboid
    decreases evs.len(),
{
    if evs.len() == 0 {
        c
    } else {
        after_events(after_event(c, evs[0]), evs.skip(1))
    }
}

/// A body after one collision correction: the penetration is subtracted
/// from the position, and the velocity component on the corrected axis
/// is zeroed so the body stops pressing into the surface.
pub open spec fn after_collision(c: BasicCuboid, p: Vec2) -> BasicCuboid {
    let vel = c.physics.velocity;
    let corrected = if p.x != 0 && p.y == 0 {
        Vec2 { x: 0, y: vel.y }
    } else if p.x == 0 && p.y != 0 {
        Vec2 { x: vel.x, y: 0 }
    } else {
        vel
    };
    BasicCuboid {
        position: Vec2 { x: (c.position.x - p.x) as i64, y: (c.position.y - p.y) as i64 },
        physics: ActorPhysics { velocity: corrected, ..c.physics },
        ..c
    }
}

/// A body after one tick of its own step: velocity integrates with
/// drag, the position advances above the dead-zone, and the hurt timer
/// ages until its cap.
pub open spec fn stepped(c: BasicCuboid) -> BasicCuboid {
    let v = Vec2 {
        x: vel_step(c.physics.velocity.x as int, c.physics.acceleration.x as int,
            c.physics.drag.drag_constant as int) as i64,
        y: vel_step(c.physics.velocity.y as int, c.physics.acceleration.y as int,
            c.physics.drag.drag_constant as int) as i64,
    };
    BasicCuboid {
        physics: ActorPhysics {
            velocity: v,
            drag: Drag {
                drag_constant: c.physics.drag.drag_constant,
                acceleration: drag_accel(c.physics.velocity,
                    c.physics.drag.drag_constant as int),
            },
            ..c.physics
        },
        position: moved_pos(c.position, v),
        time_since_hurt: if c.time_since_hurt < HURT_TIMER_CAP {
            (c.time_since_hurt + 1) as u64
        } else {
            c.time_since_hurt
        },
        ..c
    }
}

/// The largest velocity change one event can cause on either axis, and
/// the largest health change: used to bound state growth per event.
pub open spec fn event_amp(e: Event) -> int {
    match e {
        Event::Damage(n) => abs_i(n as int),
        Event::Impulse(v) => abs_i(v.x as int) + abs_i(v.y as int),
        Event::ImpulseFrom { from, magnitude } => abs_i(magnitude as int),
    }
}

impl BasicCuboid {
    /// Bounds on the varying state under which every method of one
    /// simulation tick is safe from overflow.
    pub open spec fn ok(&self) -> bool {
        &&& self.physics.wf()
        &&& 0 <= self.walk_acceleration <= SCALE_LIMIT
        &&& abs_i(self.position.x as int) <= GEOM_LIMIT / 2
        &&& abs_i(self.position.y as int) <= GEOM_LIMIT / 2
        &&& abs_i(self.physics.velocity.x as int) <= SCALE_LIMIT
        &&& abs_i(self.physics.velocity.y as int) <= SCALE_LIMIT
        &&& abs_i(self.physics.acceleration.x as int) <= SCALE_LIMIT
        &&& abs_i(self.physics.acceleration.y as int) <= SCALE_LIMIT
        &&& abs_i(self.health as int) <= SCALE_LIMIT
        &&& abs_i(self.hitbox.0.x as int) <= GEOM_LIMIT
        &&& abs_i(self.hitbox.0.y as int) <= GEOM_LIMIT
    }

    /// A fully initialised body: at rest, hurt timer far in the past.
    pub fn new(
        walk_acceleration: i64,
        mesh: DrawableAsset,
        hitbox_vec: Vec2,
        drag_constant: i64,
        position: Vec2,
        health: i64,
        id: ObjectID,
        color: Rgba,
    ) -> (r: BasicCuboid)
        requires
            0 <= drag_constant <= crate::TICKS_PER_SECOND,
            0 <= walk_acceleration <= SCALE_LIMIT,
        ensures
            r.walk_acceleration == walk_acceleration,
            r.mesh == mesh,
            r.hitbox.0 == hitbox_vec,
            r.physics.velocity == (Vec2 { x: 0, y: 0 }),
            r.physics.acceleration == (Vec2 { x: 0, y: 0 }),
            r.physics.drag.drag_constant == drag_constant,
            r.physics.drag.acceleration == (Vec2 { x: 0, y: 0 }),
            r.position == position,
            r.health == health,
            r.time_since_hurt == HURT_TIMER_START,
            r.id == id,
            r.color == color,
    {
        BasicCuboid {
            walk_acceleration,
            mesh,
            hitbox: Hitbox::new(hitbox_vec),
            physics: ActorPhysics::new(drag_constant),
            position,
            health,
            time_since_hurt: HURT_TIMER_START,
            id,
            color,
        }
    }

    /// Current health; may be negative, deletion triggers at zero or
    /// below.
    pub fn get_health(&self) -> (r: i64)
        ensures
            r == self.health,
    {
        self.health
    }

    /// Points the applied acceleration along `direction` with the
    /// body's walk strength; a zero direction clears the acceleration.
    pub fn set_movement(&mut self, direction: Vec2)
        requires
            abs_i(direction.x as int) <= GEOM_LIMIT,
            abs_i(direction.y as int) <= GEOM_LIMIT,
            0 <= old(self).walk_acceleration <= SCALE_LIMIT,
        ensures
            *final(self) == (BasicCuboid {
                physics: ActorPhysics {
                    acceleration: scaled_toward(direction, old(self).walk_acceleration as int),
                    ..old(self).physics
                },
                ..*old(self)
            }),
    {
        let unit_accel = scale_to(direction, self.walk_acceleration);
        self.physics.set_acceleration(unit_accel);
    }

    /// Advances the position by one tick's worth of velocity, unless
    /// the speed is inside the dead-zone.
    pub fn update_position(&mut self)
        requires
            abs_i(old(self).position.x as int) <= GEOM_LIMIT,
            abs_i(old(self).position.y as int) <= GEOM_LIMIT,
            abs_i(old(self).physics.velocity.x as int) <= SCALE_LIMIT,
            abs_i(old(self).physics.velocity.y as int) <= SCALE_LIMIT,
        ensures
            *final(self) == (BasicCuboid {
                position: moved_pos(old(self).position, old(self).physics.velocity),
                ..*old(self)
            }),
            abs_i(final(self).position.x as int - old(self).position.x as int) * 60 <= abs_i(
                old(self).physics.velocity.x as int),
            abs_i(final(self).position.y as int - old(self).position.y as int) * 60 <= abs_i(
                old(self).physics.velocity.y as int),
    {
        let v = self.physics.get_velocity();
        proof {
            crate::math::lemma_mul_bound(v.x as int, v.x as int, SCALE_LIMIT as int,
                SCALE_LIMIT as int);
            crate::math::lemma_mul_bound(v.y as int, v.y as int, SCALE_LIMIT as int,
                SCALE_LIMIT as int);
            lemma_tdiv_bound(v.x as int, 60);
            lemma_tdiv_bound(v.y as int, 60);
            assert((SPEED_DEADZONE as int) * (SPEED_DEADZONE as int) == 100_000_000);
        }
        let sx: i128 = (v.x as i128) * (v.x as i128);
        let sy: i128 = (v.y as i128) * (v.y as i128);
        if sx + sy > (SPEED_DEADZONE as i128) * (SPEED_DEADZONE as i128) {
            let dx = crate::math::div_trunc(v.x, 60);
            let dy = crate::math::div_trunc(v.y, 60);
            self.position = Vec2 { x: self.position.x + dx, y: self.position.y + dy };
        }
    }

    /// Applies one collision correction to position and velocity.
    pub fn recieve_collision(&mut self, collision: Collision)
        requires
            abs_i(old(self).position.x as int) <= 4 * GEOM_LIMIT,
            abs_i(old(self).position.y as int) <= 4 * GEOM_LIMIT,
            abs_i(collision.penetration.x as int) <= 4 * GEOM_LIMIT,
            abs_i(collision.penetration.y as int) <= 4 * GEOM_LIMIT,
        ensures
            *final(self) == after_collision(*old(self), collision.penetration),
    {
        let p = collision.get_penetration();
        self.position = Vec2 { x: self.position.x - p.x, y: self.position.y - p.y };
        let mut v = self.physics.get_velocity();
        match (p.x == 0, p.y == 0) {
            (false, true) => {
                v.x = 0;
            },
            (true, false) => {
                v.y = 0;
            },
            _ => (),
        }
        self.physics.set_velocity(v);
    }

    /// Applies one event to this body.
    pub fn recieve_event(&mut self, event: Event)
        requires
            event_ok(event),
            abs_i(old(self).physics.velocity.x as int) <= 8 * SCALE_LIMIT,
            abs_i(old(self).physics.velocity.y as int) <= 8 * SCALE_LIMIT,
            abs_i(old(self).health as int) <= 8 * SCALE_LIMIT,
            abs_i(old(self).position.x as int) <= GEOM_LIMIT / 2,
            abs_i(old(self).position.y as int) <= GEOM_LIMIT / 2,
        ensures
            *final(self) == after_event(*old(self), event),
            abs_i(final(self).physics.velocity.x as int) <= abs_i(old(self).physics.velocity.x as int)
                + event_amp(event),
            abs_i(final(self).physics.velocity.y as int) <= abs_i(old(self).physics.velocity.y as int)
                + event_amp(event),
            abs_i(final(self).health as int) <= abs_i(old(self).health as int) + event_amp(event),
    {
        match event {
            Event::Damage(damage) => {
                self.health = self.health - damage;
                self.time_since_hurt = 0;
            },
            Event::Impulse(vector) => {
                self.physics.add_impulse(vector);
            },
            Event::ImpulseFrom { from, magnitude } => {
                let d = Vec2 { x: self.position.x - from.x, y: self.position.y - from.y };
                let i = scale_to(d, magnitude);
                self.physics.add_impulse(i);
            },
        }
    }

    /// Applies a sequence of events in order.
    pub fn recieve_events(&mut self, events: Vec<Event>)
        requires
            forall|i: int|
                0 <= i < events@.len() ==> event_ok(#[trigger] events@[i]) && event_amp(events@[i])
                    <= crate::math::COORD_LIMIT,
            abs_i(old(self).physics.velocity.x as int) + events@.len() * crate::math::COORD_LIMIT
                <= 8 * SCALE_LIMIT,
            abs_i(old(self).physics.velocity.y as int) + events@.len() * crate::math::COORD_LIMIT
                <= 8 * SCALE_LIMIT,
            abs_i(old(self).health as int) + events@.len() * crate::math::COORD_LIMIT <= 8
                * SCALE_LIMIT,
            abs_i(old(self).position.x as int) <= GEOM_LIMIT / 2,
            abs_i(old(self).position.y as int) <= GEOM_LIMIT / 2,
        ensures
            *final(self) == after_events(*old(self), events@),
            abs_i(final(self).physics.velocity.x as int) <= abs_i(old(self).physics.velocity.x as int)
                + events@.len() * crate::math::COORD_LIMIT,
            abs_i(final(self).physics.velocity.y as int) <= abs_i(old(self).physics.velocity.y as int)
                + events@.len() * crate::math::COORD_LIMIT,
            abs_i(final(self).health as int) <= abs_i(old(self).health as int) + events@.len()
                * crate::math::COORD_LIMIT,
    {
        let n = events.len();
        let mut idx: usize = 0;
        while idx < n
            invariant
                0 <= idx <= n,
                n == events@.len(),
                forall|i: int|
                    0 <= i < events@.len() ==> event_ok(#[trigger] events@[i]) && event_amp(
                        events@[i]) <= crate::math::COORD_LIMIT,
                *self == after_events(*old(self), events@.take(idx as int)),
                abs_i(self.physics.velocity.x as int) <= abs_i(old(self).physics.velocity.x as int)
                    + idx * crate::math::COORD_LIMIT,
                abs_i(self.physics.velocity.y as int) <= abs_i(old(self).physics.velocity.y as int)
                    + idx * crate::math::COORD_LIMIT,
                abs_i(self.health as int) <= abs_i(old(self).health as int) + idx
                    * crate::math::COORD_LIMIT,
                self.position == old(self).position,
                abs_i(old(self).physics.velocity.x as int) + events@.len()
                    * crate::math::COORD_LIMIT <= 8 * SCALE_LIMIT,
                abs_i(old(self).physics.velocity.y as int) + events@.len()
                    * crate::math::COORD_LIMIT <= 8 * SCALE_LIMIT,
                abs_i(old(self).health as int) + events@.len() * crate::math::COORD_LIMIT <= 8
                    * SCALE_LIMIT,
                abs_i(old(self).position.x as int) <= GEOM_LIMIT / 2,
                abs_i(old(self).position.y as int) <= GEOM_LIMIT / 2,
            decreases n - idx,
        {
            proof {
                lemma_after_events_position(*old(self), events@.take(idx as int));
                assert(events@.take(idx as int).push(events@[idx as int]) =~= events@.take(
                    idx as int + 1));
                lemma_after_events_snoc(*old(self), events@.take(idx as int),
                    events@[idx as int]);
                assert(idx * crate::math::COORD_LIMIT + crate::math::COORD_LIMIT == (idx + 1)
                    * crate::math::COORD_LIMIT) by (nonlinear_arith);
            }
            let e = events[idx];
            self.recieve_event(e);
            idx = idx + 1;
        }
        proof {
            assert(events@.take(n as int) =~= events@);
        }
    }

    /// One tick of the body's own behaviour: motion, then ageing of the
    /// hurt timer until its cap.
    pub fn step(&mut self)
        requires
            old(self).physics.wf(),
            abs_i(old(self).physics.velocity.x as int) <= 100 * GEOM_LIMIT,
            abs_i(old(self).physics.velocity.y as int) <= 100 * GEOM_LIMIT,
            abs_i(old(self).physics.acceleration.x as int) <= 100 * GEOM_LIMIT,
            abs_i(old(self).physics.acceleration.y as int) <= 100 * GEOM_LIMIT,
            abs_i(old(self).position.x as int) <= GEOM_LIMIT,
            abs_i(old(self).position.y as int) <= GEOM_LIMIT,
        ensures
            *final(self) == stepped(*old(self)),
            abs_i(final(self).physics.velocity.x as int) <= 2 * abs_i(
                old(self).physics.velocity.x as int) + abs_i(old(self).physics.acceleration.x as int),
            abs_i(final(self).physics.velocity.y as int) <= 2 * abs_i(
                old(self).physics.velocity.y as int) + abs_i(old(self).physics.acceleration.y as int),
            abs_i(final(self).position.x as int - old(self).position.x as int) * 60 <= abs_i(
                final(self).physics.velocity.x as int),
            abs_i(final(self).position.y as int - old(self).position.y as int) * 60 <= abs_i(
                final(self).physics.velocity.y as int),
    {
        self.physics.step();
        self.update_position();
        if self.time_since_hurt < HURT_TIMER_CAP {
            self.time_since_hurt = self.time_since_hurt + 1;
        }
    }

    /// Whether the lifecycle cleanup should remove this body.
    pub fn should_delete(&self) -> (r: bool)
        ensures
            r == (self.health <= 0),
    {
        self.health <= 0
    }
}

/// The colour a body shows: the hurt tint inside the flash window,
/// its own colour otherwise.
pub open spec fn current_color(c: BasicCuboid) -> Rgba {
    if c.time_since_hurt < HURT_FLASH_TICKS {
        Rgba { r: 230, g: 102, b: 102, a: 179 }
    } else {
        c.color
    }
}

/// Events never move a body: only its velocity, health and hurt timer
/// can change.
pub proof fn lemma_after_events_position(c: BasicCuboid, evs: Seq<Event>)
    ensures
        after_events(c, evs).position == c.position,
        after_events(c, evs).walk_acceleration == c.walk_acceleration,
        after_events(c, evs).physics.drag.drag_constant == c.physics.drag.drag_constant,
        after_events(c, evs).hitbox == c.hitbox,
        after_events(c, evs).id == c.id,
        after_events(c, evs).mesh == c.mesh,
        after_events(c, evs).color == c.color,
    decreases evs.len(),
{
    if evs.len() > 0 {
        lemma_after_events_position(after_event(c, evs[0]), evs.skip(1));
    }
}

/// One step keeps a body within a tick's worth of growth: the velocity
/// gains at most one tick of acceleration and the position at most one
/// tick of motion, and nothing else changes.
pub proof fn lemma_stepped_bounds(c: BasicCuboid)
    requires
        c.physics.wf(),
        abs_i(c.position.x as int) <= COORD_LIMIT,
        abs_i(c.position.y as int) <= COORD_LIMIT,
        abs_i(c.physics.velocity.x as int) <= COORD_LIMIT,
        abs_i(c.physics.velocity.y as int) <= COORD_LIMIT,
        abs_i(c.physics.acceleration.x as int) <= COORD_LIMIT,
        abs_i(c.physics.acceleration.y as int) <= COORD_LIMIT,
    ensures
        abs_i(stepped(c).physics.velocity.x as int) <= 3 * COORD_LIMIT,
        abs_i(stepped(c).physics.velocity.y as int) <= 3 * COORD_LIMIT,
        abs_i(stepped(c).position.x as int) <= COORD_LIMIT + COORD_LIMIT / 10,
        abs_i(stepped(c).position.y as int) <= COORD_LIMIT + COORD_LIMIT / 10,
        stepped(c).physics.acceleration == c.physics.acceleration,
        stepped(c).physics.drag.drag_constant == c.physics.drag.drag_constant,
        stepped(c).health == c.health,
        stepped(c).hitbox == c.hitbox,
        stepped(c).id == c.id,
        stepped(c).mesh == c.mesh,
        stepped(c).color == c.color,
        stepped(c).walk_acceleration == c.walk_acceleration,
{
    let cc = c.physics.drag.drag_constant as int;
    lemma_mul_bound(cc, c.physics.velocity.x as int, 60, COORD_LIMIT as int);
    lemma_mul_bound(cc, c.physics.velocity.y as int, 60, COORD_LIMIT as int);
    lemma_tdiv_bound(c.physics.acceleration.x - cc * c.physics.velocity.x, 60);
    lemma_tdiv_bound(c.physics.acceleration.y - cc * c.physics.velocity.y, 60);
    let vx = vel_step(c.physics.velocity.x as int, c.physics.acceleration.x as int, cc);
    let vy = vel_step(c.physics.velocity.y as int, c.physics.acceleration.y as int, cc);
    assert(abs_i(vx) <= 3 * COORD_LIMIT);
    assert(abs_i(vy) <= 3 * COORD_LIMIT);
    lemma_tdiv_bound(vx, 60);
    lemma_tdiv_bound(vy, 60);
}

/// Damage is additive: two damage events land exactly like one event
/// carrying their summed amount, so repeated small hits sum linearly on
/// health.
pub proof fn lemma_damage_additive(c: BasicCuboid, a: i64, b: i64)
    requires
        i64::MIN <= c.health - a <= i64::MAX,
        i64::MIN <= c.health - a - b <= i64::MAX,
        i64::MIN <= a + b <= i64::MAX,
    ensures
        after_event(after_event(c, Event::Damage(a)), Event::Damage(b)) == after_event(c,
            Event::Damage((a + b) as i64)),
{
}

/// Applying two event sequences one after the other equals applying
/// their concatenation.
pub proof fn lemma_after_events_app(c: BasicCuboid, s1: Seq<Event>, s2: Seq<Event>)
    ensures
        after_events(c, s1 + s2) == after_events(after_events(c, s1), s2),
    decreases s1.len(),
{
    if s1.len() == 0 {
        assert(s1 + s2 =~= s2);
        assert(after_events(c, s1) == c);
    } else {
        assert((s1 + s2)[0] == s1[0]);
        assert((s1 + s2).skip(1) =~= s1.skip(1) + s2);
        lemma_after_events_app(after_event(c, s1[0]), s1.skip(1), s2);
    }
}

/// Applying one more event after a sequence equals applying the
/// extended sequence.
pub proof fn lemma_after_events_snoc(c: BasicCuboid, evs: Seq<Event>, e: Event)
    ensures
        after_events(c, evs.push(e)) == after_event(after_events(c, evs), e),
    decreases evs.len(),
{
    if evs.len() == 0 {
        assert(evs.push(e).skip(1) =~= Seq::<Event>::empty());
        assert(evs.push(e)[0] == e);
        assert(after_events(c, evs) == c);
        assert(after_events(after_event(c, e), Seq::<Event>::empty()) == after_event(c, e));
        assert(after_events(c, evs.push(e)) == after_events(after_event(c, e), evs.push(e).skip(
            1)));
    } else {
        assert(evs.push(e)[0] == evs[0]);
        assert(evs.push(e).skip(1) =~= evs.skip(1).push(e));
        lemma_after_events_snoc(after_event(c, evs[0]), evs.skip(1), e);
    }
}

impl Object for BasicCuboid {
    open spec fn pos_spec(&self) -> Vec2 {
        self.position
    }

    open spec fn id_spec(&self) -> ObjectID {
        self.id
    }

    fn get_position(&self) -> (r: Vec2) {
        self.position
    }

    fn get_id(&self) -> (r: ObjectID) {
        self.id
    }
}

impl super::Renderable for BasicCuboid {
    open spec fn asset_spec(&self) -> DrawableAsset {
        self.mesh
    }

    open spec fn color_spec(&self) -> Option<Rgba> {
        Some(current_color(*self))
    }

    fn get_drawable_asset(&self) -> (r: DrawableAsset) {
        self.mesh
    }

    /// The hurt tint during the flash window after taking damage, the
    /// body's own colour otherwise.
    fn get_color(&self) -> (r: Option<Rgba>) {
        Some(
            if self.time_since_hurt < HURT_FLASH_TICKS {
                Rgba::new(230, 102, 102, 179)
            } else {
                self.color
            },
        )
    }
}

impl HasHitbox for BasicCuboid {
    open spec fn ext_spec(&self) -> Vec2 {
        self.hitbox.0
    }

    fn get_hitbox(&self) -> (r: &Hitbox) {
        &self.hitbox
    }
}

} // verus!
