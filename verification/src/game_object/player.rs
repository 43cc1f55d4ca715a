//! The player archetype: a shared body plus a shot cooldown and an aim
//! direction, able to fire bullets whitelisted against itself.

use crate::assets::{DrawableAsset, Rgba};
use crate::math::{abs_i, scale_to, scaled_toward, tdiv, Vec2, COORD_LIMIT, GEOM_LIMIT,
    SCALE_LIMIT};
use super::basic_cuboid::{current_color, event_amp, stepped, BasicCuboid};
use super::bullet::{Bullet, BULLET_EXTENT, BULLET_IMPULSE, BULLET_MAX_LIFETIME};
use super::collision::{Collision, Hitbox};
use super::event::{event_ok, Event};
use super::{CanShoot, HasHitbox, Object, ObjectID, Renderable};
use vstd::prelude::*;

verus! {

/// The player's walk acceleration, milliunits/s^2 (2500 units/s^2).
pub const PLAYER_WALK_ACCELERATION: i64 = 2_500_000;

/// The player's drag constant: walk acceleration over top speed
/// (2500 / 250 units), so drag balances walking at 250 units/s.
pub const PLAYER_DRAG: i64 = 10;

/// Starting health of the player.
pub const PLAYER_HEALTH: i64 = 30;

/// Side of the player's box, in milliunits (10 world units).
pub const PLAYER_EXTENT: i64 = 10_000;

/// Speed of a fired bullet, milliunits/s (500 units/s).
pub const BULLET_SPEED: i64 = 500_000;

/// Ticks between shots (0.10 s).
pub const SHOT_COOLDOWN_TICKS: u64 = 6;

/// The shot timer stops counting once it reaches this age (200 s).
pub const SHOT_TIMER_CAP: u64 = 12000;

/// Initial shot-timer value: old enough that a fresh player may fire
/// at once (300 s).
pub const SHOT_TIMER_START: u64 = 18000;

/// The player.
pub struct Player {
    pub implementation: BasicCuboid,
    pub time_since_shot: u64,
    pub shoot_direction: Vec2,
}

/// A player after one tick of its own behaviour: the shot cooldown ages
/// until its cap, then the body steps.
pub open spec fn stepped_player(p: Player) -> Player {
    Player {
        implementation: stepped(p.implementation),
        time_since_shot: if p.time_since_shot < SHOT_TIMER_CAP {
            (p.time_since_shot + 1) as u64
        } else {
            p.time_since_shot
        },
        ..p
    }
}

/// The anchor of a box plus half its extent: where bullets spawn.
pub open spec fn center_of(pos: Vec2, ext: Vec2) -> Vec2 {
    Vec2 { x: (pos.x + tdiv(ext.x as int, 2)) as i64, y: (pos.y + tdiv(ext.y as int, 2)) as i64 }
}

/// The exact state of a fresh player.
pub open spec fn initial_player() -> Player {
    Player {
        implementation: BasicCuboid {
            walk_acceleration: PLAYER_WALK_ACCELERATION,
            mesh: DrawableAsset::Player,
            hitbox: Hitbox(Vec2 { x: PLAYER_EXTENT, y: PLAYER_EXTENT }),
            physics: super::physics::ActorPhysics {
                velocity: Vec2 { x: 0, y: 0 },
                acceleration: Vec2 { x: 0, y: 0 },
                drag: super::physics::Drag {
                    drag_constant: PLAYER_DRAG,
                    acceleration: Vec2 { x: 0, y: 0 },
                },
            },
            position: Vec2 { x: 0, y: 0 },
            health: PLAYER_HEALTH,
            time_since_hurt: super::basic_cuboid::HURT_TIMER_START,
            id: ObjectID { value: 1 },
            color: Rgba { r: 77, g: 179, b: 179, a: 179 },
        },
        time_since_shot: SHOT_TIMER_START,
        shoot_direction: Vec2 { x: 0, y: 0 },
    }
}

/// One player step keeps the player within a tick's worth of growth.
pub proof fn lemma_stepped_player_bounds(p: Player)
    requires
        p.implementation.physics.wf(),
        abs_i(p.implementation.position.x as int) <= COORD_LIMIT,
        abs_i(p.implementation.position.y as int) <= COORD_LIMIT,
        abs_i(p.implementation.physics.velocity.x as int) <= COORD_LIMIT,
        abs_i(p.implementation.physics.velocity.y as int) <= COORD_LIMIT,
        abs_i(p.implementation.physics.acceleration.x as int) <= COORD_LIMIT,
        abs_i(p.implementation.physics.acceleration.y as int) <= COORD_LIMIT,
    ensures
        abs_i(stepped_player(p).implementation.physics.velocity.x as int) <= 3 * COORD_LIMIT,
        abs_i(stepped_player(p).implementation.physics.velocity.y as int) <= 3 * COORD_LIMIT,
        abs_i(stepped_player(p).implementation.position.x as int) <= COORD_LIMIT + COORD_LIMIT
            / 10,
        abs_i(stepped_player(p).implementation.position.y as int) <= COORD_LIMIT + COORD_LIMIT
            / 10,
        stepped_player(p).implementation.physics.acceleration
            == p.implementation.physics.acceleration,
        stepped_player(p).implementation.physics.drag.drag_constant
            == p.implementation.physics.drag.drag_constant,
        stepped_player(p).implementation.health == p.implementation.health,
        stepped_player(p).implementation.hitbox == p.implementation.hitbox,
        stepped_player(p).implementation.id == p.implementation.id,
        stepped_player(p).implementation.walk_acceleration
            == p.implementation.walk_acceleration,
        stepped_player(p).shoot_direction == p.shoot_direction,
{
    super::basic_cuboid::lemma_stepped_bounds(p.implementation);
}

impl Player {
    /// A fresh player at the origin, ready to fire.
    pub fn new() -> (r: Player)
        ensures
            r == initial_player(),
            r.implementation.walk_acceleration == PLAYER_WALK_ACCELERATION,
            r.implementation.mesh == DrawableAsset::Player,
            r.implementation.hitbox.0 == (Vec2 { x: PLAYER_EXTENT, y: PLAYER_EXTENT }),
            r.implementation.physics.drag.drag_constant == PLAYER_DRAG,
            r.implementation.physics.velocity == (Vec2 { x: 0, y: 0 }),
            r.implementation.physics.acceleration == (Vec2 { x: 0, y: 0 }),
            r.implementation.position == (Vec2 { x: 0, y: 0 }),
            r.implementation.health == PLAYER_HEALTH,
            r.implementation.id == (ObjectID { value: 1 }),
            r.implementation.color == (Rgba { r: 77, g: 179, b: 179, a: 179 }),
            r.time_since_shot == SHOT_TIMER_START,
            r.shoot_direction == (Vec2 { x: 0, y: 0 }),
    {
        Player {
            implementation: BasicCuboid::new(
                PLAYER_WALK_ACCELERATION,
                DrawableAsset::Player,
                Vec2 { x: PLAYER_EXTENT, y: PLAYER_EXTENT },
                PLAYER_DRAG,
                Vec2 { x: 0, y: 0 },
                PLAYER_HEALTH,
                ObjectID::new(1),
                Rgba::new(77, 179, 179, 179),
            ),
            time_since_shot: SHOT_TIMER_START,
            shoot_direction: Vec2 { x: 0, y: 0 },
        }
    }

    /// Points the body's walk acceleration along `direction`.
    pub fn set_movement(&mut self, direction: Vec2)
        requires
            abs_i(direction.x as int) <= GEOM_LIMIT,
            abs_i(direction.y as int) <= GEOM_LIMIT,
            0 <= old(self).implementation.walk_acceleration <= SCALE_LIMIT,
        ensures
            *final(self) == (Player {
                implementation: BasicCuboid {
                    physics: super::physics::ActorPhysics {
                        acceleration: scaled_toward(direction,
                            old(self).implementation.walk_acceleration as int),
                        ..old(self).implementation.physics
                    },
                    ..old(self).implementation
                },
                ..*old(self)
            }),
    {
        self.implementation.set_movement(direction);
    }

    /// Replaces the aim direction used by the next shot.
    pub fn set_shoot_direction(&mut self, direction: Vec2)
        ensures
            *final(self) == (Player { shoot_direction: direction, ..*old(self) }),
    {
        self.shoot_direction = direction;
    }

    /// The centre of the player's box, where bullets spawn.
    pub fn get_center_position(&self) -> (r: Vec2)
        requires
            abs_i(self.implementation.position.x as int) <= GEOM_LIMIT,
            abs_i(self.implementation.position.y as int) <= GEOM_LIMIT,
            abs_i(self.implementation.hitbox.0.x as int) <= GEOM_LIMIT,
            abs_i(self.implementation.hitbox.0.y as int) <= GEOM_LIMIT,
        ensures
            r == center_of(self.implementation.position, self.implementation.hitbox.0),
    {
        let pos = self.implementation.position;
        let ext = self.implementation.hitbox.vec();
        proof {
            crate::math::lemma_tdiv_bound(ext.x as int, 2);
            crate::math::lemma_tdiv_bound(ext.y as int, 2);
        }
        let hx = crate::math::div_trunc(ext.x, 2);
        let hy = crate::math::div_trunc(ext.y, 2);
        Vec2 { x: pos.x + hx, y: pos.y + hy }
    }

    /// Applies one event to the player's body.
    pub fn recieve_event(&mut self, event: Event)
        requires
            event_ok(event),
            abs_i(old(self).implementation.physics.velocity.x as int) <= 8 * SCALE_LIMIT,
            abs_i(old(self).implementation.physics.velocity.y as int) <= 8 * SCALE_LIMIT,
            abs_i(old(self).implementation.health as int) <= 8 * SCALE_LIMIT,
            abs_i(old(self).implementation.position.x as int) <= GEOM_LIMIT / 2,
            abs_i(old(self).implementation.position.y as int) <= GEOM_LIMIT / 2,
        ensures
            *final(self) == (Player {
                implementation: super::basic_cuboid::after_event(old(self).implementation, event),
                ..*old(self)
            }),
            abs_i(final(self).implementation.physics.velocity.x as int) <= abs_i(
                old(self).implementation.physics.velocity.x as int) + event_amp(event),
            abs_i(final(self).implementation.physics.velocity.y as int) <= abs_i(
                old(self).implementation.physics.velocity.y as int) + event_amp(event),
            abs_i(final(self).implementation.health as int) <= abs_i(
                old(self).implementation.health as int) + event_amp(event),
    {
        self.implementation.recieve_event(event);
    }

    /// Applies one collision correction to the player's body.
    pub fn recieve_collision(&mut self, collision: Collision)
        requires
            abs_i(old(self).implementation.position.x as int) <= 4 * GEOM_LIMIT,
            abs_i(old(self).implementation.position.y as int) <= 4 * GEOM_LIMIT,
            abs_i(collision.penetration.x as int) <= 4 * GEOM_LIMIT,
            abs_i(collision.penetration.y as int) <= 4 * GEOM_LIMIT,
        ensures
            *final(self) == (Player {
                implementation: super::basic_cuboid::after_collision(old(self).implementation,
                    collision.penetration),
                ..*old(self)
            }),
    {
        self.implementation.recieve_collision(collision);
    }

    /// One tick: the shot cooldown ages, then the body steps.
    pub fn step(&mut self)
        requires
            old(self).implementation.physics.wf(),
            abs_i(old(self).implementation.physics.velocity.x as int) <= 10 * COORD_LIMIT,
            abs_i(old(self).implementation.physics.velocity.y as int) <= 10 * COORD_LIMIT,
            abs_i(old(self).implementation.physics.acceleration.x as int) <= 10 * COORD_LIMIT,
            abs_i(old(self).implementation.physics.acceleration.y as int) <= 10 * COORD_LIMIT,
            abs_i(old(self).implementation.position.x as int) <= COORD_LIMIT,
            abs_i(old(self).implementation.position.y as int) <= COORD_LIMIT,
        ensures
            *final(self) == stepped_player(*old(self)),
    {
        if self.time_since_shot < SHOT_TIMER_CAP {
            self.time_since_shot = self.time_since_shot + 1;
        }
        self.implementation.step();
    }

    /// Whether the lifecycle cleanup should respawn the player.
    pub fn should_delete(&self) -> (r: bool)
        ensures
            r == (self.implementation.health <= 0),
    {
        self.implementation.should_delete()
    }

    /// Current health of the player's body.
    pub fn get_health(&self) -> (r: i64)
        ensures
            r == self.implementation.health,
    {
        self.implementation.get_health()
    }

}

impl super::Renderable for Player {
    open spec fn asset_spec(&self) -> DrawableAsset {
        self.implementation.mesh
    }

    open spec fn color_spec(&self) -> Option<Rgba> {
        Some(current_color(self.implementation))
    }

    fn get_drawable_asset(&self) -> (r: DrawableAsset) {
        self.implementation.get_drawable_asset()
    }

    fn get_color(&self) -> (r: Option<Rgba>) {
        self.implementation.get_color()
    }
}

/// A bullet the player fires from a well-formed state is itself
/// well-formed: bounded position, velocity and effects, fresh timers.
pub proof fn lemma_shot_bullet_wf(p: Player, b: Bullet)
    requires
        p.shot_bullet_ok(b),
        abs_i(p.shoot_direction.x as int) <= GEOM_LIMIT,
        abs_i(p.shoot_direction.y as int) <= GEOM_LIMIT,
        abs_i(p.implementation.position.x as int) <= COORD_LIMIT,
        abs_i(p.implementation.position.y as int) <= COORD_LIMIT,
        abs_i(p.implementation.hitbox.0.x as int) <= crate::math::EXT_LIMIT,
        abs_i(p.implementation.hitbox.0.y as int) <= crate::math::EXT_LIMIT,
    ensures
        b.physics.wf(),
        abs_i(b.position.x as int) <= COORD_LIMIT + crate::math::EXT_LIMIT,
        abs_i(b.position.y as int) <= COORD_LIMIT + crate::math::EXT_LIMIT,
        abs_i(b.physics.velocity.x as int) <= COORD_LIMIT,
        abs_i(b.physics.velocity.y as int) <= COORD_LIMIT,
        abs_i(b.physics.acceleration.x as int) <= COORD_LIMIT,
        abs_i(b.physics.acceleration.y as int) <= COORD_LIMIT,
        abs_i(b.hitbox.0.x as int) <= crate::math::EXT_LIMIT,
        abs_i(b.hitbox.0.y as int) <= crate::math::EXT_LIMIT,
        b.lifetime < 0x7fff_ffff_ffff_ffff,
        b.effects@.len() <= 2,
        forall|i: int|
            0 <= i < b.effects@.len() ==> super::event::event_ok(#[trigger] b.effects@[i])
                && super::basic_cuboid::event_amp(b.effects@[i]) <= COORD_LIMIT,
{
    let vel = scaled_toward(p.shoot_direction, BULLET_SPEED as int);
    crate::math::lemma_scaled_toward_bound(p.shoot_direction, BULLET_SPEED as int);
    crate::math::lemma_scaled_toward_bound(vel, BULLET_IMPULSE as int);
    crate::math::lemma_tdiv_bound(p.implementation.hitbox.0.x as int, 2);
    crate::math::lemma_tdiv_bound(p.implementation.hitbox.0.y as int, 2);
    let imp = scaled_toward(vel, BULLET_IMPULSE as int);
    assert(b.effects@[0] == Event::Damage(1));
    assert(b.effects@[1] == Event::Impulse(imp));
    assert forall|i: int| 0 <= i < b.effects@.len() implies super::event::event_ok(
        #[trigger] b.effects@[i]) && super::basic_cuboid::event_amp(b.effects@[i])
        <= COORD_LIMIT by {
        if i == 0 {
            assert(b.effects@[i] == Event::Damage(1));
        } else {
            assert(b.effects@[i] == Event::Impulse(imp));
        }
    }
}

impl Object for Player {
    open spec fn pos_spec(&self) -> Vec2 {
        self.implementation.position
    }

    open spec fn id_spec(&self) -> ObjectID {
        self.implementation.id
    }

    fn get_position(&self) -> (r: Vec2) {
        self.implementation.position
    }

    fn get_id(&self) -> (r: ObjectID) {
        self.implementation.id
    }
}

impl HasHitbox for Player {
    open spec fn ext_spec(&self) -> Vec2 {
        self.implementation.hitbox.0
    }

    fn get_hitbox(&self) -> (r: &Hitbox) {
        &self.implementation.hitbox
    }
}

impl CanShoot for Player {
    open spec fn shoot_ready(&self) -> bool {
        self.time_since_shot >= SHOT_COOLDOWN_TICKS
    }

    open spec fn shoot_ok(&self) -> bool {
        &&& abs_i(self.shoot_direction.x as int) <= GEOM_LIMIT
        &&& abs_i(self.shoot_direction.y as int) <= GEOM_LIMIT
        &&& abs_i(self.implementation.position.x as int) <= GEOM_LIMIT / 2
        &&& abs_i(self.implementation.position.y as int) <= GEOM_LIMIT / 2
        &&& abs_i(self.implementation.hitbox.0.x as int) <= GEOM_LIMIT
        &&& abs_i(self.implementation.hitbox.0.y as int) <= GEOM_LIMIT
    }

    open spec fn after_shot_spec(&self) -> Player {
        Player { time_since_shot: 0, ..*self }
    }

    open spec fn shot_bullet_ok(&self, b: Bullet) -> bool {
        let vel = scaled_toward(self.shoot_direction, BULLET_SPEED as int);
        &&& b.position == center_of(self.implementation.position, self.implementation.hitbox.0)
        &&& b.physics.velocity == vel
        &&& b.physics.acceleration == (Vec2 { x: 0, y: 0 })
        &&& b.physics.drag.drag_constant == 0
        &&& b.hitbox.0 == (Vec2 { x: BULLET_EXTENT, y: BULLET_EXTENT })
        &&& b.lifetime == 0
        &&& b.max_lifetime == BULLET_MAX_LIFETIME
        &&& b.effects@ =~= seq![
            Event::Damage(1),
            Event::Impulse(scaled_toward(vel, BULLET_IMPULSE as int)),
        ]
        &&& b.color == (Rgba { r: 230, g: 230, b: 230, a: 255 })
        &&& b.whitelist@ =~= seq![self.implementation.id]
    }

    fn shoot(&mut self) -> (r: Option<Bullet>) {
        if self.time_since_shot >= SHOT_COOLDOWN_TICKS {
            self.time_since_shot = 0;
            let center = self.get_center_position();
            let velocity = scale_to(self.shoot_direction, BULLET_SPEED);
            let mut whitelist: Vec<ObjectID> = Vec::new();
            whitelist.push(self.implementation.get_id());
            Some(Bullet::new(center, velocity, Rgba::new(230, 230, 230, 255), whitelist))
        } else {
            None
        }
    }
}

} // verus!
