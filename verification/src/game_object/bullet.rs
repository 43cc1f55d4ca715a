//! Projectiles: spawned with a velocity and a whitelist of entities
//! they must not hit (normally the shooter), a bounded lifetime, and a
//! fixed pair of effects delivered on a hit. A bullet that hits marks
//! itself for deletion by forcing its lifetime past the maximum.

use crate::assets::{DrawableAsset, Rgba};
use crate::math::{abs_i, lemma_tdiv_bound, scale_to, scaled_toward, Vec2, GEOM_LIMIT,
    COORD_LIMIT, SCALE_LIMIT};
use super::basic_cuboid::{event_amp, SPEED_DEADZONE};
use super::collision::{overlaps, overlaps_at, Hitbox};
use super::event::{event_ok, Event};
use super::physics::{vel_step, ActorPhysics};
use super::{HasCollisionEvents, HasHitbox, Object, ObjectID};
use vstd::prelude::*;

verus! {

/// Side of a bullet's box, in milliunits (2 world units).
pub const BULLET_EXTENT: i64 = 2_000;

/// Impulse a bullet delivers on a hit, in milliunits/s (400 units/s).
pub const BULLET_IMPULSE: i64 = 400_000;

/// Ticks a bullet lives (1 s).
pub const BULLET_MAX_LIFETIME: u64 = 60;

/// Ticks added to force a bullet past its lifetime on a hit (1000 s).
pub const BULLET_MARK: u64 = 60_000;

/// A projectile.
pub struct Bullet {
    pub hitbox: Hitbox,
    pub mesh: DrawableAsset,
    pub position: Vec2,
    pub physics: ActorPhysics,
    pub lifetime: u64,
    pub max_lifetime: u64,
    pub effects: Vec<Event>,
    pub color: Rgba,
    pub whitelist: Vec<ObjectID>,
}

/// A lifetime pushed past any maximum, saturating at the counter top.
pub open spec fn marked(l: u64) -> u64 {
    if l + BULLET_MARK <= u64::MAX {
        (l + BULLET_MARK) as u64
    } else {
        u64::MAX
    }
}

/// Whether a bullet at `b_pos` hits a target: their boxes overlap and
/// the target is not on the bullet's whitelist.
pub open spec fn bullet_hits(
    b_pos: Vec2,
    b_ext: Vec2,
    whitelist: Seq<ObjectID>,
    pos: Vec2,
    ext: Vec2,
    id: ObjectID,
) -> bool {
    overlaps(b_pos, b_ext, pos, ext) && !whitelist.contains(id)
}

impl Bullet {
    /// A fresh bullet: drag-free motion at the given velocity, its two
    /// hit effects fixed at spawn from that velocity.
    pub fn new(position: Vec2, velocity: Vec2, color: Rgba, whitelist: Vec<ObjectID>) -> (r:
        Bullet)
        requires
            abs_i(velocity.x as int) <= GEOM_LIMIT,
            abs_i(velocity.y as int) <= GEOM_LIMIT,
        ensures
            r.hitbox.0 == (Vec2 { x: BULLET_EXTENT, y: BULLET_EXTENT }),
            r.mesh == DrawableAsset::Bullet,
            r.position == position,
            r.physics.velocity == velocity,
            r.physics.acceleration == (Vec2 { x: 0, y: 0 }),
            r.physics.drag.drag_constant == 0,
            r.lifetime == 0,
            r.max_lifetime == BULLET_MAX_LIFETIME,
            r.effects@ =~= seq![
                Event::Damage(1),
                Event::Impulse(scaled_toward(velocity, BULLET_IMPULSE as int)),
            ],
            r.color == color,
            r.whitelist@ == whitelist@,
    {
        let mut effects: Vec<Event> = Vec::new();
        effects.push(Event::Damage(1));
        effects.push(Event::Impulse(scale_to(velocity, BULLET_IMPULSE)));
        let mut bullet = Bullet {
            hitbox: Hitbox::new(Vec2 { x: BULLET_EXTENT, y: BULLET_EXTENT }),
            mesh: DrawableAsset::Bullet,
            position,
            physics: ActorPhysics::new(0),
            lifetime: 0,
            max_lifetime: BULLET_MAX_LIFETIME,
            effects,
            color,
            whitelist,
        };
        bullet.physics.set_velocity(velocity);
        bullet
    }

    /// Advances the position by one tick's worth of velocity, unless
    /// the speed is inside the dead-zone.
    fn update_position(&mut self)
        requires
            abs_i(old(self).position.x as int) <= GEOM_LIMIT,
            abs_i(old(self).position.y as int) <= GEOM_LIMIT,
            abs_i(old(self).physics.velocity.x as int) <= SCALE_LIMIT,
            abs_i(old(self).physics.velocity.y as int) <= SCALE_LIMIT,
        ensures
            *final(self) == (Bullet {
                position: super::basic_cuboid::moved_pos(old(self).position,
                    old(self).physics.velocity),
                ..*old(self)
            }),
            abs_i(final(self).position.x as int - old(self).position.x as int) * 60 <= abs_i(
                old(self).physics.velocity.x as int),
            abs_i(final(self).position.y as int - old(self).position.y as int) * 60 <= abs_i(
                old(self).physics.velocity.y as int),
    {
        let v = self.physics.get_velocity();
        proof {
            crate::math::lemma_mul_bound(v.x as int, v.x as int, SCALE_LIMIT as int,
                SCALE_LIMIT as int);
            crate::math::lemma_mul_bound(v.y as int, v.y as int, SCALE_LIMIT as int,
                SCALE_LIMIT as int);
            lemma_tdiv_bound(v.x as int, 60);
            lemma_tdiv_bound(v.y as int, 60);
        }
        let sx: i128 = (v.x as i128) * (v.x as i128);
        let sy: i128 = (v.y as i128) * (v.y as i128);
        if sx + sy > (SPEED_DEADZONE as i128) * (SPEED_DEADZONE as i128) {
            let dx = crate::math::div_trunc(v.x, 60);
            let dy = crate::math::div_trunc(v.y, 60);
            self.position = Vec2 { x: self.position.x + dx, y: self.position.y + dy };
        }
    }

    /// Forces the lifetime past any maximum so the next cleanup pass
    /// removes this bullet; saturates at the top of the counter.
    fn mark_for_deletion(&mut self)
        ensures
            *final(self) == (Bullet { lifetime: marked(old(self).lifetime), ..*old(self) }),
    {
        if self.lifetime <= u64::MAX - BULLET_MARK {
            self.lifetime = self.lifetime + BULLET_MARK;
        } else {
            self.lifetime = u64::MAX;
        }
    }

    /// A copy of the effects this bullet delivers on a hit.
    fn get_effects(&self) -> (r: Vec<Event>)
        ensures
            r@ == self.effects@,
    {
        let mut out: Vec<Event> = Vec::new();
        let n = self.effects.len();
        let mut i: usize = 0;
        while i < n
            invariant
                0 <= i <= n,
                n == self.effects@.len(),
                out@ == self.effects@.take(i as int),
            decreases n - i,
        {
            let e = self.effects[i];
            out.push(e);
            proof {
                assert(self.effects@.take(i as int).push(self.effects@[i as int]) =~= self
                    .effects@.take(i as int + 1));
            }
            i = i + 1;
        }
        proof {
            assert(self.effects@.take(n as int) =~= self.effects@);
        }
        out
    }

    /// Whether an identity is on this bullet's whitelist.
    fn whitelist_contains(&self, id: ObjectID) -> (r: bool)
        ensures
            r == self.whitelist@.contains(id),
    {
        let n = self.whitelist.len();
        let mut i: usize = 0;
        while i < n
            invariant
                0 <= i <= n,
                n == self.whitelist@.len(),
                forall|j: int| 0 <= j < i ==> self.whitelist@[j] != id,
            decreases n - i,
        {
            if self.whitelist[i] == id {
                return true;
            }
            i = i + 1;
        }
        false
    }

    /// One tick of the bullet's own behaviour: it ages, then moves.
    pub fn step(&mut self)
        requires
            old(self).lifetime + 1 <= u64::MAX,
            abs_i(old(self).position.x as int) <= GEOM_LIMIT,
            abs_i(old(self).position.y as int) <= GEOM_LIMIT,
            abs_i(old(self).physics.velocity.x as int) <= 100 * GEOM_LIMIT,
            abs_i(old(self).physics.velocity.y as int) <= 100 * GEOM_LIMIT,
            abs_i(old(self).physics.acceleration.x as int) <= 100 * GEOM_LIMIT,
            abs_i(old(self).physics.acceleration.y as int) <= 100 * GEOM_LIMIT,
            old(self).physics.wf(),
        ensures
            *final(self) == stepped_bullet(*old(self)),
            abs_i(final(self).physics.velocity.x as int) <= 2 * abs_i(
                old(self).physics.velocity.x as int) + abs_i(old(self).physics.acceleration.x as int),
            abs_i(final(self).physics.velocity.y as int) <= 2 * abs_i(
                old(self).physics.velocity.y as int) + abs_i(old(self).physics.acceleration.y as int),
            abs_i(final(self).position.x as int - old(self).position.x as int) * 60 <= abs_i(
                final(self).physics.velocity.x as int),
            abs_i(final(self).position.y as int - old(self).position.y as int) * 60 <= abs_i(
                final(self).physics.velocity.y as int),
    {
        self.lifetime = self.lifetime + 1;
        self.physics.step();
        self.update_position();
    }

    /// Whether the lifecycle cleanup should remove this bullet.
    pub fn should_delete(&self) -> (r: bool)
        ensures
            r == (self.lifetime >= self.max_lifetime),
    {
        self.lifetime >= self.max_lifetime
    }
}

/// A bullet after one tick of its own step.
pub open spec fn stepped_bullet(b: Bullet) -> Bullet {
    let v = Vec2 {
        x: vel_step(b.physics.velocity.x as int, b.physics.acceleration.x as int,
            b.physics.drag.drag_constant as int) as i64,
        y: vel_step(b.physics.velocity.y as int, b.physics.acceleration.y as int,
            b.physics.drag.drag_constant as int) as i64,
    };
    Bullet {
        lifetime: (b.lifetime + 1) as u64,
        physics: ActorPhysics {
            velocity: v,
            drag: super::physics::Drag {
                drag_constant: b.physics.drag.drag_constant,
                acceleration: super::physics::drag_accel(b.physics.velocity,
                    b.physics.drag.drag_constant as int),
            },
            ..b.physics
        },
        position: super::basic_cuboid::moved_pos(b.position, v),
        ..b
    }
}

/// One bullet step keeps the bullet within a tick's worth of growth
/// and touches nothing but its age, motion and position.
pub proof fn lemma_stepped_bullet_bounds(b: Bullet)
    requires
        b.physics.wf(),
        abs_i(b.position.x as int) <= COORD_LIMIT + crate::math::EXT_LIMIT,
        abs_i(b.position.y as int) <= COORD_LIMIT + crate::math::EXT_LIMIT,
        abs_i(b.physics.velocity.x as int) <= COORD_LIMIT,
        abs_i(b.physics.velocity.y as int) <= COORD_LIMIT,
        abs_i(b.physics.acceleration.x as int) <= COORD_LIMIT,
        abs_i(b.physics.acceleration.y as int) <= COORD_LIMIT,
        b.lifetime < 0x7fff_ffff_ffff_ffff,
    ensures
        abs_i(stepped_bullet(b).physics.velocity.x as int) <= 3 * COORD_LIMIT,
        abs_i(stepped_bullet(b).physics.velocity.y as int) <= 3 * COORD_LIMIT,
        abs_i(stepped_bullet(b).position.x as int) <= COORD_LIMIT + crate::math::EXT_LIMIT
            + COORD_LIMIT / 10,
        abs_i(stepped_bullet(b).position.y as int) <= COORD_LIMIT + crate::math::EXT_LIMIT
            + COORD_LIMIT / 10,
        stepped_bullet(b).lifetime == b.lifetime + 1,
        stepped_bullet(b).max_lifetime == b.max_lifetime,
        stepped_bullet(b).effects == b.effects,
        stepped_bullet(b).whitelist == b.whitelist,
        stepped_bullet(b).hitbox == b.hitbox,
        stepped_bullet(b).mesh == b.mesh,
        stepped_bullet(b).color == b.color,
        stepped_bullet(b).physics.acceleration == b.physics.acceleration,
        stepped_bullet(b).physics.drag.drag_constant == b.physics.drag.drag_constant,
{
    let cc = b.physics.drag.drag_constant as int;
    crate::math::lemma_mul_bound(cc, b.physics.velocity.x as int, 60, COORD_LIMIT as int);
    crate::math::lemma_mul_bound(cc, b.physics.velocity.y as int, 60, COORD_LIMIT as int);
    lemma_tdiv_bound(b.physics.acceleration.x - cc * b.physics.velocity.x, 60);
    lemma_tdiv_bound(b.physics.acceleration.y - cc * b.physics.velocity.y, 60);
    let vx = vel_step(b.physics.velocity.x as int, b.physics.acceleration.x as int, cc);
    let vy = vel_step(b.physics.velocity.y as int, b.physics.acceleration.y as int, cc);
    assert(abs_i(vx) <= 3 * COORD_LIMIT);
    assert(abs_i(vy) <= 3 * COORD_LIMIT);
    lemma_tdiv_bound(vx, 60);
    lemma_tdiv_bound(vy, 60);
}

impl super::Renderable for Bullet {
    open spec fn asset_spec(&self) -> DrawableAsset {
        self.mesh
    }

    open spec fn color_spec(&self) -> Option<Rgba> {
        Some(self.color)
    }

    fn get_drawable_asset(&self) -> (r: DrawableAsset) {
        self.mesh
    }

    fn get_color(&self) -> (r: Option<Rgba>) {
        Some(self.color)
    }
}

impl Object for Bullet {
    open spec fn pos_spec(&self) -> Vec2 {
        self.position
    }

    open spec fn id_spec(&self) -> ObjectID {
        ObjectID { value: 0 }
    }

    fn get_position(&self) -> (r: Vec2) {
        self.position
    }

    fn get_id(&self) -> (r: ObjectID) {
        ObjectID::new(0)
    }
}

impl HasHitbox for Bullet {
    open spec fn ext_spec(&self) -> Vec2 {
        self.hitbox.0
    }

    fn get_hitbox(&self) -> (r: &Hitbox) {
        &self.hitbox
    }
}

impl HasCollisionEvents for Bullet {
    open spec fn emit_ok(&self) -> bool {
        &&& abs_i(self.position.x as int) <= GEOM_LIMIT
        &&& abs_i(self.position.y as int) <= GEOM_LIMIT
        &&& abs_i(self.hitbox.0.x as int) <= GEOM_LIMIT
        &&& abs_i(self.hitbox.0.y as int) <= GEOM_LIMIT
        &&& self.effects@.len() <= 2
        &&& forall|i: int|
            0 <= i < self.effects@.len() ==> event_ok(#[trigger] self.effects@[i]) && event_amp(
                self.effects@[i]) <= COORD_LIMIT
    }

    open spec fn events_spec(&self, pos: Vec2, ext: Vec2, id: ObjectID) -> Seq<Event> {
        if bullet_hits(self.position, self.hitbox.0, self.whitelist@, pos, ext, id) {
            self.effects@
        } else {
            Seq::empty()
        }
    }

    open spec fn after_emit_spec(&self, pos: Vec2, ext: Vec2, id: ObjectID) -> Bullet {
        if bullet_hits(self.position, self.hitbox.0, self.whitelist@, pos, ext, id) {
            Bullet { lifetime: marked(self.lifetime), ..*self }
        } else {
            *self
        }
    }

    proof fn emit_properties(&self, pos: Vec2, ext: Vec2, id: ObjectID, p: Vec2, e: Vec2,
        d: ObjectID) {
    }

    fn create_collision_event(&mut self, other_pos: Vec2, other_ext: Vec2, other_id: ObjectID)
        -> (evs: Vec<Event>) {
        let hit = overlaps_at(self.position, self.hitbox.vec(), other_pos, other_ext);
        if hit {
            if !self.whitelist_contains(other_id) {
                self.mark_for_deletion();
                self.get_effects()
            } else {
                Vec::new()
            }
        } else {
            Vec::new()
        }
    }
}

} // verus!
