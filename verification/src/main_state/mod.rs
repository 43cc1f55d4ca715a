//! The simulation state and the fixed-tick update: buffered input is
//! applied, every entity steps, gameplay events are dispatched, overlaps
//! are resolved, the pursuit AI retargets, and dead entities are removed.

pub mod input;

use crate::assets::DrawableAsset;
use crate::game_object::basic_cuboid::{after_events, lemma_after_events_position, BasicCuboid};
use crate::game_object::block::Block;
use crate::game_object::bullet::{stepped_bullet, Bullet};
use crate::game_object::collision::{resolved_against, self_swept, Hitbox};
use crate::game_object::basic_cuboid::event_amp;
use crate::game_object::event::{event_ok, Event};
use crate::game_object::mob::{initial_mob_body, stepped_dummy, Dummy};
use crate::game_object::physics::ActorPhysics;
use crate::game_object::player::{initial_player, stepped_player, Player};
use crate::game_object::{all_events, emitter_after_mobs, CanSetMoveTarget, CanShoot, HasCollisionEvents, Object, ObjectID};
use crate::math::{abs_i, scaled_toward, Vec2, COORD_LIMIT, EXT_LIMIT, GEOM_LIMIT, SCALE_LIMIT};
use self::input::{recent_direction, Input};
use vstd::prelude::*;

verus! {

/// The whole simulation state: the player, the live entity collections,
/// the buffered input, and the camera.
pub struct MainState {
    pub screen_w: u32,
    pub screen_h: u32,
    pub input: Input,
    pub player_mob: Player,
    pub mobs: Vec<Dummy>,
    pub blocks: Vec<Block>,
    pub projectiles: Vec<Bullet>,
    pub camera: Vec2,
}

/// The four boundary walls of a fresh arena.
pub open spec fn initial_walls() -> Seq<Block> {
    seq![
        Block {
            mesh: DrawableAsset::Wallh,
            position: Vec2 { x: (-170_000) as i64, y: 200_000 },
            hitbox: Hitbox(Vec2 { x: 400_000, y: 20_000 }),
        },
        Block {
            mesh: DrawableAsset::Wallh,
            position: Vec2 { x: (-190_000) as i64, y: (-200_000) as i64 },
            hitbox: Hitbox(Vec2 { x: 400_000, y: 20_000 }),
        },
        Block {
            mesh: DrawableAsset::Wallv,
            position: Vec2 { x: 210_000, y: (-200_000) as i64 },
            hitbox: Hitbox(Vec2 { x: 20_000, y: 400_000 }),
        },
        Block {
            mesh: DrawableAsset::Wallv,
            position: Vec2 { x: (-190_000) as i64, y: (-180_000) as i64 },
            hitbox: Hitbox(Vec2 { x: 20_000, y: 400_000 }),
        },
    ]
}

/// Where a round reset spawns its six mobs.
pub open spec fn mob_spawn_points() -> Seq<Vec2> {
    seq![
        Vec2 { x: 100_000, y: 100_000 },
        Vec2 { x: 100_000, y: (-100_000) as i64 },
        Vec2 { x: (-100_000) as i64, y: (-100_000) as i64 },
        Vec2 { x: 150_000, y: 150_000 },
        Vec2 { x: 150_000, y: (-150_000) as i64 },
        Vec2 { x: (-150_000) as i64, y: (-150_000) as i64 },
    ]
}

/// Swaps in a mutable view of one mob.
fn mob_index_mut(v: &mut Vec<Dummy>, i: usize) -> (element: &mut Dummy)
    requires
        i < old(v)@.len(),
    ensures
        *element == old(v)@[i as int],
        final(v)@ == old(v)@.update(i as int, *final(element)),
{
    &mut v[i]
}

impl MainState {
    /// A fresh arena: the player alone inside the four walls.
    pub fn new(screen_w: u32, screen_h: u32) -> (r: MainState)
        ensures
            r.screen_w == screen_w,
            r.screen_h == screen_h,
            r.input.move_stack.x_input_stack@.len() == 0,
            r.input.move_stack.y_input_stack@.len() == 0,
            r.input.shoot_stack.x_input_stack@.len() == 0,
            r.input.shoot_stack.y_input_stack@.len() == 0,
            r.player_mob == initial_player(),
            r.mobs@.len() == 0,
            r.blocks@ =~= initial_walls(),
            r.projectiles@.len() == 0,
            r.camera == (Vec2 { x: 0, y: 0 }),
    {
        let mut state = MainState {
            screen_w,
            screen_h,
            input: Input::new(),
            player_mob: Player::new(),
            mobs: Vec::new(),
            blocks: Vec::new(),
            projectiles: Vec::new(),
            camera: Vec2 { x: 0, y: 0 },
        };
        state.blocks.push(Block::wallh(-170_000, 200_000));
        state.blocks.push(Block::wallh(-190_000, -200_000));
        state.blocks.push(Block::wallv(210_000, -200_000));
        state.blocks.push(Block::wallv(-190_000, -180_000));
        state
    }

    /// Starts a round over: a fresh player, no bullets, and six fresh
    /// mobs at their spawn points.
    pub fn reset(&mut self)
        ensures
            final(self).player_mob == initial_player(),
            final(self).projectiles@.len() == 0,
            final(self).mobs@.len() == 6,
            forall|k: int|
                0 <= k < 6 ==> (#[trigger] final(self).mobs@[k]).implementation
                    == initial_mob_body(mob_spawn_points()[k]) && final(self).mobs@[k].blacklist@
                    =~= seq![ObjectID { value: 1 }] && final(self).mobs@[k].target is None,
            final(self).screen_w == old(self).screen_w,
            final(self).screen_h == old(self).screen_h,
            final(self).input == old(self).input,
            final(self).blocks == old(self).blocks,
            final(self).camera == old(self).camera,
    {
        self.player_mob = Player::new();
        let mut mobs: Vec<Dummy> = Vec::new();
        mobs.push(Dummy::new(Vec2 { x: 100_000, y: 100_000 }));
        mobs.push(Dummy::new(Vec2 { x: 100_000, y: -100_000 }));
        mobs.push(Dummy::new(Vec2 { x: -100_000, y: -100_000 }));
        mobs.push(Dummy::new(Vec2 { x: 150_000, y: 150_000 }));
        mobs.push(Dummy::new(Vec2 { x: 150_000, y: -150_000 }));
        mobs.push(Dummy::new(Vec2 { x: -150_000, y: -150_000 }));
        self.mobs = mobs;
        self.projectiles = Vec::new();
    }

    /// Aims every mob's pursuit at the player's current position.
    pub fn calculate_ai(&mut self)
        ensures
            final(self).mobs@.len() == old(self).mobs@.len(),
            forall|k: int|
                0 <= k < old(self).mobs@.len() ==> final(self).mobs@[k] == (Dummy {
                    target: Some(old(self).player_mob.implementation.position),
                    ..(#[trigger] old(self).mobs@[k])
                }),
            final(self).player_mob == old(self).player_mob,
            final(self).projectiles == old(self).projectiles,
            final(self).blocks == old(self).blocks,
            final(self).input == old(self).input,
            final(self).camera == old(self).camera,
            final(self).screen_w == old(self).screen_w,
            final(self).screen_h == old(self).screen_h,
    {
        let target = self.player_mob.get_position();
        let n = self.mobs.len();
        let mut k: usize = 0;
        while k < n
            invariant
                0 <= k <= n,
                self.mobs@.len() == n,
                n == old(self).mobs@.len(),
                target == old(self).player_mob.implementation.position,
                forall|j: int| k <= j < n ==> self.mobs@[j] == old(self).mobs@[j],
                forall|j: int|
                    0 <= j < k ==> self.mobs@[j] == (Dummy {
                        target: Some(old(self).player_mob.implementation.position),
                        ..(#[trigger] old(self).mobs@[j])
                    }),
                self.player_mob == old(self).player_mob,
                self.projectiles == old(self).projectiles,
                self.blocks == old(self).blocks,
                self.input == old(self).input,
                self.camera == old(self).camera,
                self.screen_w == old(self).screen_w,
                self.screen_h == old(self).screen_h,
            decreases n - k,
        {
            let m = mob_index_mut(&mut self.mobs, k);
            m.set_target(target);
            k = k + 1;
        }
    }

    /// Locks the camera onto the player.
    pub fn update_camera(&mut self)
        ensures
            *final(self) == (MainState {
                camera: old(self).player_mob.implementation.position,
                ..*old(self)
            }),
    {
        let position = self.player_mob.get_position();
        self.camera = position;
    }

    /// Projects a world point into screen coordinates: the camera is
    /// centred, and the Y axis flips because screens grow downward.
    pub fn world_to_screen_coords(&self, point: Vec2) -> (r: Vec2)
        requires
            abs_i(point.x as int) <= GEOM_LIMIT,
            abs_i(point.y as int) <= GEOM_LIMIT,
            abs_i(self.camera.x as int) <= GEOM_LIMIT,
            abs_i(self.camera.y as int) <= GEOM_LIMIT,
        ensures
            r.x == point.x - self.camera.x + (self.screen_w as int) / 2,
            r.y == self.screen_h - (point.y - self.camera.y + (self.screen_h as int) / 2),
    {
        proof {
            assert(abs_i(point.x as int) <= GEOM_LIMIT && abs_i(self.camera.x as int)
                <= GEOM_LIMIT && abs_i(point.y as int) <= GEOM_LIMIT && abs_i(
                self.camera.y as int) <= GEOM_LIMIT);
        }
        let width = self.screen_w as i64;
        let height = self.screen_h as i64;
        let x = point.x - self.camera.x + width / 2;
        let y = height - (point.y - self.camera.y + height / 2);
        Vec2 { x, y }
    }

    /// Whether a screen-space point lies inside the window.
    pub fn is_on_screen(&self, point: Vec2) -> (r: bool)
        ensures
            r == (0 <= point.x <= self.screen_w && 0 < point.y < self.screen_h),
    {
        point.x >= 0 && point.x <= self.screen_w as i64 && point.y > 0
            && point.y < self.screen_h as i64
    }
}


/// Swaps in a mutable view of one bullet.
fn bullet_index_mut(v: &mut Vec<Bullet>, i: usize) -> (element: &mut Bullet)
    requires
        i < old(v)@.len(),
    ensures
        *element == old(v)@[i as int],
        final(v)@ == old(v)@.update(i as int, *final(element)),
{
    &mut v[i]
}

/// Bounds on one walking body under which a whole tick is safe from
/// overflow; the tick may leave the state outside them, so the caller
/// re-checks before the next tick.
pub open spec fn entity_ok(c: BasicCuboid) -> bool {
    &&& c.physics.wf()
    &&& 0 <= c.walk_acceleration <= COORD_LIMIT
    &&& abs_i(c.position.x as int) <= COORD_LIMIT
    &&& abs_i(c.position.y as int) <= COORD_LIMIT
    &&& abs_i(c.physics.velocity.x as int) <= COORD_LIMIT
    &&& abs_i(c.physics.velocity.y as int) <= COORD_LIMIT
    &&& abs_i(c.physics.acceleration.x as int) <= COORD_LIMIT
    &&& abs_i(c.physics.acceleration.y as int) <= COORD_LIMIT
    &&& abs_i(c.health as int) <= SCALE_LIMIT
    &&& abs_i(c.hitbox.0.x as int) <= EXT_LIMIT
    &&& abs_i(c.hitbox.0.y as int) <= EXT_LIMIT
}

/// Bounds on one bullet under which a whole tick is safe from overflow.
pub open spec fn projectile_ok(b: Bullet) -> bool {
    &&& b.physics.wf()
    &&& abs_i(b.position.x as int) <= COORD_LIMIT + EXT_LIMIT
    &&& abs_i(b.position.y as int) <= COORD_LIMIT + EXT_LIMIT
    &&& abs_i(b.physics.velocity.x as int) <= COORD_LIMIT
    &&& abs_i(b.physics.velocity.y as int) <= COORD_LIMIT
    &&& abs_i(b.physics.acceleration.x as int) <= COORD_LIMIT
    &&& abs_i(b.physics.acceleration.y as int) <= COORD_LIMIT
    &&& abs_i(b.hitbox.0.x as int) <= EXT_LIMIT
    &&& abs_i(b.hitbox.0.y as int) <= EXT_LIMIT
    &&& b.lifetime < 0x7fff_ffff_ffff_ffff
    &&& b.effects@.len() <= 2
    &&& forall|i: int|
        0 <= i < b.effects@.len() ==> event_ok(#[trigger] b.effects@[i]) && event_amp(
            b.effects@[i]) <= COORD_LIMIT
}

/// Bounds on one static block.
pub open spec fn block_ok(b: Block) -> bool {
    &&& abs_i(b.position.x as int) <= COORD_LIMIT
    &&& abs_i(b.position.y as int) <= COORD_LIMIT
    &&& abs_i(b.hitbox.0.x as int) <= EXT_LIMIT
    &&& abs_i(b.hitbox.0.y as int) <= EXT_LIMIT
}

impl MainState {
    /// Bounds on the whole state under which one tick is safe from
    /// overflow. A tick may push velocities past these bounds; the
    /// driver re-checks with `in_bounds` before running another tick.
    pub open spec fn wf(&self) -> bool {
        &&& self.step_phase_ok()
        &&& forall|j: int| 0 <= j < self.blocks@.len() ==> block_ok(#[trigger] self.blocks@[j])
        &&& self.mobs@.len() <= 100
        &&& self.projectiles@.len() <= 10_000
        &&& self.blocks@.len() <= 100
    }

    /// Bounds under which the step phase is safe: every entity is
    /// within one well-formed tick's worth of state.
    pub open spec fn step_phase_ok(&self) -> bool {
        &&& entity_ok(self.player_mob.implementation)
        &&& forall|k: int| 0 <= k < self.mobs@.len() ==> entity_ok(
            (#[trigger] self.mobs@[k]).implementation)
        &&& forall|k: int|
            0 <= k < self.mobs@.len() ==> ((#[trigger] self.mobs@[k]).target is Some ==> abs_i(
                self.mobs@[k].target->0.x as int) <= COORD_LIMIT && abs_i(
                self.mobs@[k].target->0.y as int) <= COORD_LIMIT)
        &&& forall|j: int| 0 <= j < self.projectiles@.len() ==> projectile_ok(
            #[trigger] self.projectiles@[j])
    }

    /// Advances every live entity by one tick of its own behaviour:
    /// the player, then the mobs, then the bullets; blocks are static.
    pub fn calculate_step(&mut self)
        requires
            old(self).step_phase_ok(),
        ensures
            final(self).player_mob == stepped_player(old(self).player_mob),
            final(self).mobs@.len() == old(self).mobs@.len(),
            forall|k: int|
                0 <= k < old(self).mobs@.len() ==> final(self).mobs@[k] == stepped_dummy(
                    #[trigger] old(self).mobs@[k]),
            final(self).projectiles@.len() == old(self).projectiles@.len(),
            forall|j: int|
                0 <= j < old(self).projectiles@.len() ==> final(self).projectiles@[j]
                    == stepped_bullet(#[trigger] old(self).projectiles@[j]),
            final(self).blocks == old(self).blocks,
            final(self).input == old(self).input,
            final(self).camera == old(self).camera,
            final(self).screen_w == old(self).screen_w,
            final(self).screen_h == old(self).screen_h,
    {
        self.player_mob.step();
        let n1 = self.mobs.len();
        let mut k: usize = 0;
        while k < n1
            invariant
                0 <= k <= n1,
                self.mobs@.len() == n1,
                n1 == old(self).mobs@.len(),
                forall|j: int| k <= j < n1 ==> self.mobs@[j] == old(self).mobs@[j],
                forall|j: int|
                    0 <= j < k ==> self.mobs@[j] == stepped_dummy(#[trigger] old(self).mobs@[j]),
                forall|j: int| 0 <= j < n1 ==> entity_ok(
                    (#[trigger] old(self).mobs@[j]).implementation),
                forall|j: int|
                    0 <= j < n1 ==> ((#[trigger] old(self).mobs@[j]).target is Some ==> abs_i(
                        old(self).mobs@[j].target->0.x as int) <= COORD_LIMIT && abs_i(
                        old(self).mobs@[j].target->0.y as int) <= COORD_LIMIT),
                self.player_mob == stepped_player(old(self).player_mob),
                self.projectiles == old(self).projectiles,
                self.blocks == old(self).blocks,
                self.input == old(self).input,
                self.camera == old(self).camera,
                self.screen_w == old(self).screen_w,
                self.screen_h == old(self).screen_h,
            decreases n1 - k,
        {
            let m = mob_index_mut(&mut self.mobs, k);
            m.step();
            k = k + 1;
        }
        let n2 = self.projectiles.len();
        let mut j: usize = 0;
        while j < n2
            invariant
                0 <= j <= n2,
                self.projectiles@.len() == n2,
                n2 == old(self).projectiles@.len(),
                forall|i: int| j <= i < n2 ==> self.projectiles@[i] == old(self).projectiles@[i],
                forall|i: int|
                    0 <= i < j ==> self.projectiles@[i] == stepped_bullet(
                        #[trigger] old(self).projectiles@[i]),
                forall|i: int| 0 <= i < n2 ==> projectile_ok(#[trigger] old(self).projectiles@[i]),
                self.player_mob == stepped_player(old(self).player_mob),
                self.mobs@.len() == old(self).mobs@.len(),
                forall|i: int|
                    0 <= i < n1 ==> self.mobs@[i] == stepped_dummy(#[trigger] old(self).mobs@[i]),
                self.blocks == old(self).blocks,
                self.input == old(self).input,
                self.camera == old(self).camera,
                self.screen_w == old(self).screen_w,
                self.screen_h == old(self).screen_h,
            decreases n2 - j,
        {
            let b = bullet_index_mut(&mut self.projectiles, j);
            b.step();
            j = j + 1;
        }
    }
}


/// Every mob after receiving, in order, the events the bullets address
/// to it; positions and policies are unchanged by events, so each mob's
/// emissions are read off its pre-dispatch state.
pub open spec fn mobs_after_bullets(mobs: Seq<Dummy>, bullets: Seq<Bullet>) -> Seq<Dummy> {
    Seq::new(mobs.len(), |k: int| Dummy {
        implementation: after_events(mobs[k].implementation, all_events(bullets,
            mobs[k].implementation.position, mobs[k].implementation.hitbox.0,
            mobs[k].implementation.id)),
        ..mobs[k]
    })
}

/// Every bullet after running its hit check against every mob in order.
pub open spec fn bullets_after_mobs(bullets: Seq<Bullet>, mobs: Seq<Dummy>) -> Seq<Bullet> {
    Seq::new(bullets.len(), |j: int| emitter_after_mobs(bullets[j], mobs))
}

/// Every emitter after running its hit check against one target.
pub open spec fn emitters_after_target<U: HasCollisionEvents>(
    list: Seq<U>,
    pos: Vec2,
    ext: Vec2,
    id: ObjectID,
) -> Seq<U> {
    Seq::new(list.len(), |j: int| list[j].after_emit_spec(pos, ext, id))
}

/// The player after receiving, in order, the events a list of emitters
/// addresses to it.
pub open spec fn player_hit_by<U: HasCollisionEvents>(p: Player, list: Seq<U>) -> Player {
    Player {
        implementation: after_events(p.implementation, all_events(list,
            p.implementation.position, p.implementation.hitbox.0, p.implementation.id)),
        ..p
    }
}

impl MainState {
    /// Bounds under which the event-dispatch phase is safe; they hold of
    /// a well-formed state right after the step phase.
    pub open spec fn events_phase_ok(&self) -> bool {
        &&& abs_i(self.player_mob.implementation.position.x as int) <= GEOM_LIMIT / 2
        &&& abs_i(self.player_mob.implementation.position.y as int) <= GEOM_LIMIT / 2
        &&& abs_i(self.player_mob.implementation.hitbox.0.x as int) <= GEOM_LIMIT
        &&& abs_i(self.player_mob.implementation.hitbox.0.y as int) <= GEOM_LIMIT
        &&& abs_i(self.player_mob.implementation.physics.velocity.x as int) <= 2 * SCALE_LIMIT
        &&& abs_i(self.player_mob.implementation.physics.velocity.y as int) <= 2 * SCALE_LIMIT
        &&& abs_i(self.player_mob.implementation.health as int) <= 2 * SCALE_LIMIT
        &&& forall|k: int| 0 <= k < self.mobs@.len() ==> crate::game_object::mob_recv_ok(
            #[trigger] self.mobs@[k])
        &&& forall|j: int| 0 <= j < self.projectiles@.len() ==> (#[trigger] self.projectiles@[j])
            .emit_ok()
        &&& self.mobs@.len() <= 100_000
        &&& self.projectiles@.len() <= 100_000
    }

    /// Produces and dispatches gameplay events for this tick: bullets
    /// hit the mobs, then the bullets hit the player, then the mobs
    /// deal contact damage to the player. Geometry is untouched.
    #[verifier::rlimit(100)]
    pub fn calculate_collision_events(&mut self)
        requires
            old(self).events_phase_ok(),
        ensures
            final(self).mobs@ == mobs_after_bullets(old(self).mobs@, old(self).projectiles@),
            final(self).projectiles@ == emitters_after_target(
                bullets_after_mobs(old(self).projectiles@, old(self).mobs@),
                old(self).player_mob.implementation.position,
                old(self).player_mob.implementation.hitbox.0,
                old(self).player_mob.implementation.id,
            ),
            final(self).player_mob == player_hit_by(
                player_hit_by(old(self).player_mob,
                    bullets_after_mobs(old(self).projectiles@, old(self).mobs@)),
                mobs_after_bullets(old(self).mobs@, old(self).projectiles@),
            ),
            final(self).player_mob.implementation.position
                == old(self).player_mob.implementation.position,
            final(self).player_mob.implementation.hitbox
                == old(self).player_mob.implementation.hitbox,
            forall|k: int|
                0 <= k < old(self).mobs@.len() ==> (#[trigger] final(self).mobs@[k])
                    .implementation.position == old(self).mobs@[k].implementation.position
                    && final(self).mobs@[k].implementation.hitbox
                    == old(self).mobs@[k].implementation.hitbox,
            final(self).blocks == old(self).blocks,
            final(self).input == old(self).input,
            final(self).camera == old(self).camera,
            final(self).screen_w == old(self).screen_w,
            final(self).screen_h == old(self).screen_h,
    {
        crate::game_object::vec_vec_collision_events(&mut self.mobs, &mut self.projectiles);
        proof {
            assert(self.mobs@ =~= mobs_after_bullets(old(self).mobs@, old(self).projectiles@));
            assert(self.projectiles@ =~= bullets_after_mobs(old(self).projectiles@,
                old(self).mobs@));
        }
        crate::game_object::object_vec_collision_events(&mut self.player_mob,
            &mut self.projectiles);
        proof {
            assert(self.projectiles@ =~= emitters_after_target(
                bullets_after_mobs(old(self).projectiles@, old(self).mobs@),
                old(self).player_mob.implementation.position,
                old(self).player_mob.implementation.hitbox.0,
                old(self).player_mob.implementation.id,
            ));
            lemma_after_events_position(old(self).player_mob.implementation,
                all_events(bullets_after_mobs(old(self).projectiles@, old(self).mobs@),
                    old(self).player_mob.implementation.position,
                    old(self).player_mob.implementation.hitbox.0,
                    old(self).player_mob.implementation.id));
            assert forall|k: int| 0 <= k < self.mobs@.len() implies (#[trigger] self.mobs@[k])
                .emit_ok() by {
                lemma_after_events_position(old(self).mobs@[k].implementation,
                    all_events(old(self).projectiles@,
                        old(self).mobs@[k].implementation.position,
                        old(self).mobs@[k].implementation.hitbox.0,
                        old(self).mobs@[k].implementation.id));
            }
        }
        crate::game_object::object_vec_collision_events(&mut self.player_mob, &mut self.mobs);
        proof {
            lemma_after_events_position(
                after_events(old(self).player_mob.implementation,
                    all_events(bullets_after_mobs(old(self).projectiles@, old(self).mobs@),
                        old(self).player_mob.implementation.position,
                        old(self).player_mob.implementation.hitbox.0,
                        old(self).player_mob.implementation.id)),
                all_events(mobs_after_bullets(old(self).mobs@, old(self).projectiles@),
                    old(self).player_mob.implementation.position,
                    old(self).player_mob.implementation.hitbox.0,
                    old(self).player_mob.implementation.id),
            );
            assert(self.mobs@ =~= mobs_after_bullets(old(self).mobs@, old(self).projectiles@));
            assert forall|k: int| 0 <= k < old(self).mobs@.len() implies (#[trigger] final(
                self).mobs@[k]).implementation.position
                == old(self).mobs@[k].implementation.position && final(
                self).mobs@[k].implementation.hitbox
                == old(self).mobs@[k].implementation.hitbox by {
                lemma_after_events_position(old(self).mobs@[k].implementation,
                    all_events(old(self).projectiles@,
                        old(self).mobs@[k].implementation.position,
                        old(self).mobs@[k].implementation.hitbox.0,
                        old(self).mobs@[k].implementation.id));
            }
        }
    }
}


/// Every mob resolved first against the blocks, then against the other
/// mobs in the all-pairs sweep.
pub open spec fn mobs_resolved(mobs: Seq<Dummy>, blocks: Seq<Block>) -> Seq<Dummy> {
    self_swept(Seq::new(mobs.len(), |k: int| Dummy {
        implementation: resolved_against(mobs[k].implementation, blocks),
        ..mobs[k]
    }), 0)
}

impl MainState {
    /// Bounds under which the geometric pass is safe; they hold of a
    /// well-formed state after the step and event phases.
    pub open spec fn physics_phase_ok(&self) -> bool {
        &&& abs_i(self.player_mob.implementation.position.x as int) <= GEOM_LIMIT / 2
        &&& abs_i(self.player_mob.implementation.position.y as int) <= GEOM_LIMIT / 2
        &&& abs_i(self.player_mob.implementation.hitbox.0.x as int) <= EXT_LIMIT
        &&& abs_i(self.player_mob.implementation.hitbox.0.y as int) <= EXT_LIMIT
        &&& forall|k: int|
            0 <= k < self.mobs@.len() ==> abs_i(
                (#[trigger] self.mobs@[k]).implementation.position.x as int) <= GEOM_LIMIT / 2
                && abs_i(self.mobs@[k].implementation.position.y as int) <= GEOM_LIMIT / 2
                && abs_i(self.mobs@[k].implementation.hitbox.0.x as int) <= EXT_LIMIT
                && abs_i(self.mobs@[k].implementation.hitbox.0.y as int) <= EXT_LIMIT
        &&& forall|j: int| 0 <= j < self.blocks@.len() ==> block_ok(#[trigger] self.blocks@[j])
        &&& self.mobs@.len() <= 100
        &&& self.blocks@.len() <= 100
    }

    /// Resolves this tick's overlaps, in the fixed order: mobs against
    /// blocks, mobs against each other, the player against blocks, the
    /// player against mobs. Each check corrects the mover only.
    pub fn calculate_physics(&mut self)
        requires
            old(self).physics_phase_ok(),
        ensures
            final(self).mobs@ == mobs_resolved(old(self).mobs@, old(self).blocks@),
            final(self).mobs@.len() == old(self).mobs@.len(),
            final(self).player_mob == (Player {
                implementation: resolved_against(
                    resolved_against(old(self).player_mob.implementation, old(self).blocks@),
                    mobs_resolved(old(self).mobs@, old(self).blocks@),
                ),
                ..old(self).player_mob
            }),
            final(self).projectiles == old(self).projectiles,
            final(self).blocks == old(self).blocks,
            final(self).input == old(self).input,
            final(self).camera == old(self).camera,
            final(self).screen_w == old(self).screen_w,
            final(self).screen_h == old(self).screen_h,
            forall|k: int|
                0 <= k < old(self).mobs@.len() ==> abs_i(
                    (#[trigger] final(self).mobs@[k]).implementation.position.x as int) <= abs_i(
                    old(self).mobs@[k].implementation.position.x as int) + 200 * EXT_LIMIT
                    && abs_i(final(self).mobs@[k].implementation.position.y as int) <= abs_i(
                    old(self).mobs@[k].implementation.position.y as int) + 200 * EXT_LIMIT
                    && abs_i(final(self).mobs@[k].implementation.physics.velocity.x as int)
                    <= abs_i(old(self).mobs@[k].implementation.physics.velocity.x as int)
                    && abs_i(final(self).mobs@[k].implementation.physics.velocity.y as int)
                    <= abs_i(old(self).mobs@[k].implementation.physics.velocity.y as int)
                    && final(self).mobs@[k].implementation.health
                    == old(self).mobs@[k].implementation.health && final(
                    self).mobs@[k].implementation.hitbox
                    == old(self).mobs@[k].implementation.hitbox,
            abs_i(final(self).player_mob.implementation.position.x as int) <= abs_i(
                old(self).player_mob.implementation.position.x as int) + 200 * EXT_LIMIT,
            abs_i(final(self).player_mob.implementation.position.y as int) <= abs_i(
                old(self).player_mob.implementation.position.y as int) + 200 * EXT_LIMIT,
            abs_i(final(self).player_mob.implementation.physics.velocity.x as int) <= abs_i(
                old(self).player_mob.implementation.physics.velocity.x as int),
            abs_i(final(self).player_mob.implementation.physics.velocity.y as int) <= abs_i(
                old(self).player_mob.implementation.physics.velocity.y as int),
            final(self).player_mob.implementation.health
                == old(self).player_mob.implementation.health,
            final(self).player_mob.implementation.hitbox
                == old(self).player_mob.implementation.hitbox,
    {
        crate::game_object::collision::vec_vec_physics(&mut self.mobs, &self.blocks);
        proof {
            assert(self.mobs@ =~= Seq::new(old(self).mobs@.len(), |k: int| Dummy {
                implementation: resolved_against(old(self).mobs@[k].implementation,
                    old(self).blocks@),
                ..old(self).mobs@[k]
            }));
        }
        crate::game_object::collision::vec_physics(&mut self.mobs);
        crate::game_object::collision::object_vec_physics(&mut self.player_mob, &self.blocks);
        crate::game_object::collision::object_vec_physics(&mut self.player_mob, &self.mobs);
    }
}


/// Whether the fire signal is active: anything held on the aim stack.
pub open spec fn fire_active(s: MainState) -> bool {
    !(s.input.shoot_stack.x_input_stack@.len() == 0 && s.input.shoot_stack.y_input_stack@.len()
        == 0)
}

/// The player with this tick's buffered input applied: walking along
/// the movement stack's most recent direction and aiming along the aim
/// stack's.
pub open spec fn aimed_player(s: MainState) -> Player {
    Player {
        implementation: BasicCuboid {
            physics: ActorPhysics {
                acceleration: scaled_toward(recent_direction(s.input.move_stack),
                    s.player_mob.implementation.walk_acceleration as int),
                ..s.player_mob.implementation.physics
            },
            ..s.player_mob.implementation
        },
        shoot_direction: recent_direction(s.input.shoot_stack),
        ..s.player_mob
    }
}

impl MainState {
    /// Applies the buffered input: movement, aim, and, while the fire
    /// signal is active and the cooldown allows, one new bullet.
    pub fn handle_player_input(&mut self)
        requires
            0 <= old(self).player_mob.implementation.walk_acceleration <= SCALE_LIMIT,
            abs_i(old(self).player_mob.implementation.position.x as int) <= GEOM_LIMIT / 2,
            abs_i(old(self).player_mob.implementation.position.y as int) <= GEOM_LIMIT / 2,
            abs_i(old(self).player_mob.implementation.hitbox.0.x as int) <= GEOM_LIMIT,
            abs_i(old(self).player_mob.implementation.hitbox.0.y as int) <= GEOM_LIMIT,
        ensures
            fire_active(*old(self)) && aimed_player(*old(self)).shoot_ready() ==> final(
                self).player_mob == (Player { time_since_shot: 0, ..aimed_player(*old(self)) })
                && final(self).projectiles@.len() == old(self).projectiles@.len() + 1 && final(
                self).projectiles@.take(old(self).projectiles@.len() as int) == old(
                self).projectiles@ && aimed_player(*old(self)).shot_bullet_ok(
                final(self).projectiles@.last()),
            !(fire_active(*old(self)) && aimed_player(*old(self)).shoot_ready()) ==> final(
                self).player_mob == aimed_player(*old(self)) && final(self).projectiles == old(
                self).projectiles,
            final(self).mobs == old(self).mobs,
            final(self).blocks == old(self).blocks,
            final(self).input == old(self).input,
            final(self).camera == old(self).camera,
            final(self).screen_w == old(self).screen_w,
            final(self).screen_h == old(self).screen_h,
    {
        let move_direction = self.input.move_stack.get_direction_recent();
        self.player_mob.set_movement(move_direction);
        let shoot_direction = self.input.shoot_stack.get_direction_recent();
        self.player_mob.set_shoot_direction(shoot_direction);
        if self.input.shoot_stack.is_active() {
            match self.player_mob.shoot() {
                Some(projectile) => {
                    self.projectiles.push(projectile);
                    proof {
                        assert(self.projectiles@.take(old(self).projectiles@.len() as int) =~= old(
                            self).projectiles@);
                    }
                },
                None => (),
            }
        }
    }
}

/// The bullets that survive a cleanup pass: their age is under the
/// maximum lifetime.
pub open spec fn live_bullets(bs: Seq<Bullet>) -> Seq<Bullet> {
    bs.filter(|b: Bullet| b.lifetime < b.max_lifetime)
}

/// The mobs that survive a cleanup pass: their health is positive.
pub open spec fn live_mobs(ms: Seq<Dummy>) -> Seq<Dummy> {
    ms.filter(|m: Dummy| m.implementation.health > 0)
}

impl MainState {
    /// Lifecycle cleanup, run once per tick after all effects landed:
    /// aged-out bullets and dead mobs are removed; a dead player resets
    /// the round (fresh player, no mobs, no bullets).
    pub fn clear_objects(&mut self)
        ensures
            old(self).player_mob.implementation.health <= 0 ==> final(self).player_mob
                == initial_player() && final(self).mobs@ =~= Seq::<Dummy>::empty() && final(
                self).projectiles@ =~= Seq::<Bullet>::empty(),
            old(self).player_mob.implementation.health > 0 ==> final(self).player_mob == old(
                self).player_mob && final(self).mobs@ == live_mobs(old(self).mobs@) && final(
                self).projectiles@ == live_bullets(old(self).projectiles@),
            final(self).blocks == old(self).blocks,
            final(self).input == old(self).input,
            final(self).camera == old(self).camera,
            final(self).screen_w == old(self).screen_w,
            final(self).screen_h == old(self).screen_h,
    {
        let ghost orig_bullets = self.projectiles@;
        let nb = self.projectiles.len();
        let mut kept_bullets: Vec<Bullet> = Vec::new();
        let mut i: usize = 0;
        while i < nb
            invariant
                0 <= i <= nb,
                nb == orig_bullets.len(),
                self.projectiles@ =~= orig_bullets.skip(i as int),
                kept_bullets@ == live_bullets(orig_bullets.take(i as int)),
                orig_bullets == old(self).projectiles@,
                self.player_mob == old(self).player_mob,
                self.mobs == old(self).mobs,
                self.blocks == old(self).blocks,
                self.input == old(self).input,
                self.camera == old(self).camera,
                self.screen_w == old(self).screen_w,
                self.screen_h == old(self).screen_h,
            decreases nb - i,
        {
            proof {
                reveal(Seq::filter);
                assert(orig_bullets.take(i as int + 1).drop_last() =~= orig_bullets.take(
                    i as int));
                assert(orig_bullets.take(i as int + 1).last() == orig_bullets[i as int]);
                assert(orig_bullets.skip(i as int)[0] == orig_bullets[i as int]);
            }
            let b = self.projectiles.remove(0);
            proof {
                assert(orig_bullets.skip(i as int).remove(0) =~= orig_bullets.skip(i as int + 1));
            }
            if b.lifetime < b.max_lifetime {
                kept_bullets.push(b);
            }
            i = i + 1;
        }
        proof {
            assert(orig_bullets.take(nb as int) =~= orig_bullets);
        }
        self.projectiles = kept_bullets;

        let ghost orig_mobs = self.mobs@;
        let nm = self.mobs.len();
        let mut kept_mobs: Vec<Dummy> = Vec::new();
        let mut k: usize = 0;
        while k < nm
            invariant
                0 <= k <= nm,
                nm == orig_mobs.len(),
                self.mobs@ =~= orig_mobs.skip(k as int),
                kept_mobs@ == live_mobs(orig_mobs.take(k as int)),
                orig_mobs == old(self).mobs@,
                self.projectiles@ == live_bullets(old(self).projectiles@),
                self.player_mob == old(self).player_mob,
                self.blocks == old(self).blocks,
                self.input == old(self).input,
                self.camera == old(self).camera,
                self.screen_w == old(self).screen_w,
                self.screen_h == old(self).screen_h,
            decreases nm - k,
        {
            proof {
                reveal(Seq::filter);
                assert(orig_mobs.take(k as int + 1).drop_last() =~= orig_mobs.take(k as int));
                assert(orig_mobs.take(k as int + 1).last() == orig_mobs[k as int]);
                assert(orig_mobs.skip(k as int)[0] == orig_mobs[k as int]);
            }
            let m = self.mobs.remove(0);
            proof {
                assert(orig_mobs.skip(k as int).remove(0) =~= orig_mobs.skip(k as int + 1));
            }
            if m.implementation.health > 0 {
                kept_mobs.push(m);
            }
            k = k + 1;
        }
        proof {
            assert(orig_mobs.take(nm as int) =~= orig_mobs);
        }
        self.mobs = kept_mobs;

        if self.player_mob.should_delete() {
            self.player_mob = Player::new();
            self.mobs = Vec::new();
            self.projectiles = Vec::new();
        }
    }
}


/// Every mob stepped by one tick.
pub open spec fn stepped_mobs(ms: Seq<Dummy>) -> Seq<Dummy> {
    Seq::new(ms.len(), |k: int| stepped_dummy(ms[k]))
}

/// Every bullet stepped by one tick.
pub open spec fn stepped_bullets(bs: Seq<Bullet>) -> Seq<Bullet> {
    Seq::new(bs.len(), |j: int| stepped_bullet(bs[j]))
}

/// One whole tick, given the player, mobs and bullets right after the
/// input phase: step, event dispatch, geometric resolution, pursuit
/// retargeting, lifecycle cleanup, camera. Returns the player, mobs,
/// bullets and camera after the tick.
#[verifier::opaque]
pub open spec fn ticked(p: Player, ms: Seq<Dummy>, bs: Seq<Bullet>, blocks: Seq<Block>) -> (
    Player,
    Seq<Dummy>,
    Seq<Bullet>,
    Vec2,
) {
    let p1 = stepped_player(p);
    let ms1 = stepped_mobs(ms);
    let bs1 = stepped_bullets(bs);
    let ms2 = mobs_resolved(ms1, blocks);
    let p2 = Player {
        implementation: resolved_against(resolved_against(p1.implementation, blocks), ms2),
        ..p1
    };
    let ms3 = mobs_after_bullets(ms2, bs1);
    let bs2 = emitters_after_target(bullets_after_mobs(bs1, ms2),
        p2.implementation.position, p2.implementation.hitbox.0, p2.implementation.id);
    let p3 = player_hit_by(player_hit_by(p2, bullets_after_mobs(bs1, ms2)), ms3);
    let ms4 = Seq::new(ms3.len(), |k: int| Dummy {
        target: Some(p3.implementation.position),
        ..ms3[k]
    });
    if p3.implementation.health <= 0 {
        (initial_player(), Seq::<Dummy>::empty(), Seq::<Bullet>::empty(), Vec2 { x: 0, y: 0 })
    } else {
        (p3, live_mobs(ms4), live_bullets(bs2), p3.implementation.position)
    }
}

impl MainState {
    /// One fixed tick of the whole simulation, in the fixed phase
    /// order: buffered input, per-entity stepping, event dispatch,
    /// geometric resolution, pursuit retargeting, lifecycle cleanup,
    /// camera follow. The tick may leave velocities outside `wf`; the
    /// driver re-checks `in_bounds` before the next tick.
    #[verifier::rlimit(100)]
    #[verifier::spinoff_prover]
    pub fn update(&mut self)
        requires
            old(self).wf(),
        ensures
            fire_active(*old(self)) && aimed_player(*old(self)).shoot_ready() ==> (exists|
                b: Bullet|
                {
                    let t = ticked(Player { time_since_shot: 0, ..aimed_player(*old(self)) },
                        old(self).mobs@, old(self).projectiles@.push(b), old(self).blocks@);
                    &&& #[trigger] aimed_player(*old(self)).shot_bullet_ok(b)
                    &&& final(self).player_mob == t.0
                    &&& final(self).mobs@ == t.1
                    &&& final(self).projectiles@ == t.2
                    &&& final(self).camera == t.3
                }),
            !(fire_active(*old(self)) && aimed_player(*old(self)).shoot_ready()) ==> ({
                let t = ticked(aimed_player(*old(self)), old(self).mobs@, old(self).projectiles@,
                    old(self).blocks@);
                &&& final(self).player_mob == t.0
                &&& final(self).mobs@ == t.1
                &&& final(self).projectiles@ == t.2
                &&& final(self).camera == t.3
            }),
            final(self).blocks == old(self).blocks,
            final(self).input == old(self).input,
            final(self).screen_w == old(self).screen_w,
            final(self).screen_h == old(self).screen_h,
    {
        self.handle_player_input();
        let ghost s1 = *self;
        let ghost fired = fire_active(*old(self)) && aimed_player(*old(self)).shoot_ready();
        let ghost ms0 = self.mobs@;
        let ghost bs0 = self.projectiles@;
        proof {
            lemma_input_to_step(*old(self), s1);
        }
        self.calculate_step();
        let ghost s2 = *self;
        proof {
            assert(self.mobs@ =~= stepped_mobs(ms0));
            assert(self.projectiles@ =~= stepped_bullets(bs0));
            lemma_step_to_physics(s1, s2);
        }
        self.calculate_physics();
        let ghost s3 = *self;
        proof {
            lemma_physics_to_events(s1, s2, s3);
        }
        self.calculate_collision_events();
        let ghost s4 = *self;
        self.calculate_ai();
        let ghost s5 = *self;
        proof {
            assert(s5.mobs@.len() == s4.mobs@.len());
        }
        self.clear_objects();
        self.update_camera();
        proof {
            let s6 = *self;
            lemma_tick_composition(s1, s2, s3, s4, s5, s6, old(self).blocks@);
            if fired {
                let b = s1.projectiles@.last();
                assert(s1.projectiles@ =~= old(self).projectiles@.push(b));
                assert(aimed_player(*old(self)).shot_bullet_ok(b));
                assert(s1.player_mob == (Player {
                    time_since_shot: 0,
                    ..aimed_player(*old(self))
                }));
            } else {
                assert(s1.player_mob == aimed_player(*old(self)));
                assert(s1.projectiles@ == old(self).projectiles@);
            }
            assert(s1.mobs@ == old(self).mobs@);
        }
    }
}


/// After the input phase a well-formed state is ready for the step
/// phase, whether or not a bullet was fired.
proof fn lemma_input_to_step(s0: MainState, s1: MainState)
    requires
        s0.wf(),
        fire_active(s0) && aimed_player(s0).shoot_ready() ==> s1.player_mob == (Player {
            time_since_shot: 0,
            ..aimed_player(s0)
        }) && s1.projectiles@.len() == s0.projectiles@.len() + 1 && s1.projectiles@.take(
            s0.projectiles@.len() as int) == s0.projectiles@ && aimed_player(s0).shot_bullet_ok(
            s1.projectiles@.last()),
        !(fire_active(s0) && aimed_player(s0).shoot_ready()) ==> s1.player_mob == aimed_player(s0)
            && s1.projectiles == s0.projectiles,
        s1.mobs == s0.mobs,
    ensures
        s1.step_phase_ok(),
{
    crate::math::lemma_scaled_toward_bound(recent_direction(s0.input.move_stack),
        s0.player_mob.implementation.walk_acceleration as int);
    input::lemma_recent_direction_bounded(s0.input.move_stack);
    input::lemma_recent_direction_bounded(s0.input.shoot_stack);
    if fire_active(s0) && aimed_player(s0).shoot_ready() {
        let b = s1.projectiles@.last();
        crate::game_object::player::lemma_shot_bullet_wf(aimed_player(s0), b);
        assert forall|j: int| 0 <= j < s1.projectiles@.len() implies projectile_ok(
            #[trigger] s1.projectiles@[j]) by {
            if j < s0.projectiles@.len() {
                assert(s1.projectiles@.take(s0.projectiles@.len() as int)[j]
                    == s1.projectiles@[j]);
                assert(s1.projectiles@[j] == s0.projectiles@[j]);
            } else {
                assert(s1.projectiles@[j] == b);
            }
        }
    }
}

/// After the step phase the state is ready for the geometric pass.
proof fn lemma_step_to_physics(s1: MainState, s2: MainState)
    requires
        s1.step_phase_ok(),
        s1.mobs@.len() <= 100,
        s1.blocks@.len() <= 100,
        forall|j: int| 0 <= j < s1.blocks@.len() ==> block_ok(#[trigger] s1.blocks@[j]),
        s2.player_mob == stepped_player(s1.player_mob),
        s2.mobs@ == stepped_mobs(s1.mobs@),
        s2.blocks == s1.blocks,
    ensures
        s2.physics_phase_ok(),
{
    crate::game_object::player::lemma_stepped_player_bounds(s1.player_mob);
    assert forall|k: int| 0 <= k < s2.mobs@.len() implies abs_i(
        (#[trigger] s2.mobs@[k]).implementation.position.x as int) <= GEOM_LIMIT / 2 && abs_i(
        s2.mobs@[k].implementation.position.y as int) <= GEOM_LIMIT / 2 && abs_i(
        s2.mobs@[k].implementation.hitbox.0.x as int) <= EXT_LIMIT && abs_i(
        s2.mobs@[k].implementation.hitbox.0.y as int) <= EXT_LIMIT by {
        assert(s2.mobs@[k] == stepped_dummy(s1.mobs@[k]));
        crate::game_object::mob::lemma_stepped_dummy_bounds(s1.mobs@[k]);
    }
}

/// After the geometric pass the state is ready for event dispatch.
proof fn lemma_physics_to_events(s1: MainState, s2: MainState, s3: MainState)
    requires
        s1.step_phase_ok(),
        s1.mobs@.len() <= 100,
        s1.projectiles@.len() <= 100_000,
        s2.player_mob == stepped_player(s1.player_mob),
        s2.mobs@ == stepped_mobs(s1.mobs@),
        s2.projectiles@ == stepped_bullets(s1.projectiles@),
        s3.projectiles@ == s2.projectiles@,
        s3.mobs@.len() == s2.mobs@.len(),
        forall|k: int|
            0 <= k < s2.mobs@.len() ==> abs_i(
                (#[trigger] s3.mobs@[k]).implementation.position.x as int) <= abs_i(
                s2.mobs@[k].implementation.position.x as int) + 200 * EXT_LIMIT && abs_i(
                s3.mobs@[k].implementation.position.y as int) <= abs_i(
                s2.mobs@[k].implementation.position.y as int) + 200 * EXT_LIMIT && abs_i(
                s3.mobs@[k].implementation.physics.velocity.x as int) <= abs_i(
                s2.mobs@[k].implementation.physics.velocity.x as int) && abs_i(
                s3.mobs@[k].implementation.physics.velocity.y as int) <= abs_i(
                s2.mobs@[k].implementation.physics.velocity.y as int) && s3.mobs@[
                k].implementation.health == s2.mobs@[k].implementation.health && s3.mobs@[
                k].implementation.hitbox == s2.mobs@[k].implementation.hitbox,
        abs_i(s3.player_mob.implementation.position.x as int) <= abs_i(
            s2.player_mob.implementation.position.x as int) + 200 * EXT_LIMIT,
        abs_i(s3.player_mob.implementation.position.y as int) <= abs_i(
            s2.player_mob.implementation.position.y as int) + 200 * EXT_LIMIT,
        abs_i(s3.player_mob.implementation.physics.velocity.x as int) <= abs_i(
            s2.player_mob.implementation.physics.velocity.x as int),
        abs_i(s3.player_mob.implementation.physics.velocity.y as int) <= abs_i(
            s2.player_mob.implementation.physics.velocity.y as int),
        s3.player_mob.implementation.health == s2.player_mob.implementation.health,
        s3.player_mob.implementation.hitbox == s2.player_mob.implementation.hitbox,
    ensures
        s3.events_phase_ok(),
{
    crate::game_object::player::lemma_stepped_player_bounds(s1.player_mob);
    assert forall|k: int| 0 <= k < s3.mobs@.len() implies crate::game_object::mob_recv_ok(
        #[trigger] s3.mobs@[k]) by {
        assert(s2.mobs@[k] == stepped_dummy(s1.mobs@[k]));
        crate::game_object::mob::lemma_stepped_dummy_bounds(s1.mobs@[k]);
    }
    assert forall|j: int| 0 <= j < s3.projectiles@.len() implies (#[trigger] s3.projectiles@[j])
        .emit_ok() by {
        assert(s3.projectiles@[j] == stepped_bullet(s1.projectiles@[j]));
        crate::game_object::bullet::lemma_stepped_bullet_bounds(s1.projectiles@[j]);
    }
}

/// Chaining the five post-input phases produces exactly the `ticked`
/// composition of the post-input state.
proof fn lemma_tick_composition(
    s1: MainState,
    s2: MainState,
    s3: MainState,
    s4: MainState,
    s5: MainState,
    s6: MainState,
    blocks: Seq<Block>,
)
    requires
        s2.player_mob == stepped_player(s1.player_mob),
        s2.mobs@ == stepped_mobs(s1.mobs@),
        s2.projectiles@ == stepped_bullets(s1.projectiles@),
        s3.player_mob == (Player {
            implementation: resolved_against(
                resolved_against(s2.player_mob.implementation, blocks),
                mobs_resolved(s2.mobs@, blocks),
            ),
            ..s2.player_mob
        }),
        s3.mobs@ == mobs_resolved(s2.mobs@, blocks),
        s3.projectiles@ == s2.projectiles@,
        s4.player_mob == player_hit_by(
            player_hit_by(s3.player_mob, bullets_after_mobs(s3.projectiles@, s3.mobs@)),
            mobs_after_bullets(s3.mobs@, s3.projectiles@),
        ),
        s4.mobs@ == mobs_after_bullets(s3.mobs@, s3.projectiles@),
        s4.projectiles@ == emitters_after_target(
            bullets_after_mobs(s3.projectiles@, s3.mobs@),
            s3.player_mob.implementation.position,
            s3.player_mob.implementation.hitbox.0,
            s3.player_mob.implementation.id,
        ),
        s5.player_mob == s4.player_mob,
        s5.projectiles@ == s4.projectiles@,
        s5.mobs@.len() == s4.mobs@.len(),
        forall|k: int|
            0 <= k < s4.mobs@.len() ==> s5.mobs@[k] == (Dummy {
                target: Some(s4.player_mob.implementation.position),
                ..(#[trigger] s4.mobs@[k])
            }),
        s5.player_mob.implementation.health <= 0 ==> s6.player_mob == initial_player()
            && s6.mobs@ =~= Seq::<Dummy>::empty() && s6.projectiles@ =~= Seq::<Bullet>::empty(),
        s5.player_mob.implementation.health > 0 ==> s6.player_mob == s5.player_mob && s6.mobs@
            == live_mobs(s5.mobs@) && s6.projectiles@ == live_bullets(s5.projectiles@),
        s6.camera == s6.player_mob.implementation.position,
    ensures
        s6.player_mob == ticked(s1.player_mob, s1.mobs@, s1.projectiles@, blocks).0,
        s6.mobs@ == ticked(s1.player_mob, s1.mobs@, s1.projectiles@, blocks).1,
        s6.projectiles@ == ticked(s1.player_mob, s1.mobs@, s1.projectiles@, blocks).2,
        s6.camera == ticked(s1.player_mob, s1.mobs@, s1.projectiles@, blocks).3,
{
    reveal(ticked);
    let ms1s = stepped_mobs(s1.mobs@);
    let bs1s = stepped_bullets(s1.projectiles@);
    let p1s = stepped_player(s1.player_mob);
    let ms2s = mobs_resolved(ms1s, blocks);
    let p2s = Player {
        implementation: resolved_against(resolved_against(p1s.implementation, blocks), ms2s),
        ..p1s
    };
    let ms3s = mobs_after_bullets(ms2s, bs1s);
    let bs_mid = bullets_after_mobs(bs1s, ms2s);
    let p3s = player_hit_by(player_hit_by(p2s, bs_mid), ms3s);
    assert(s4.player_mob == p3s);
    assert(s5.mobs@ =~= Seq::new(ms3s.len(), |k: int| Dummy {
        target: Some(p3s.implementation.position),
        ..ms3s[k]
    }));
    if s5.player_mob.implementation.health <= 0 {
        assert(s6.mobs@ =~= ticked(s1.player_mob, s1.mobs@, s1.projectiles@, blocks).1);
        assert(s6.projectiles@ =~= ticked(s1.player_mob, s1.mobs@, s1.projectiles@, blocks).2);
        assert(initial_player().implementation.position == (Vec2 { x: 0, y: 0 }));
    } else {
    }
}


/// Runtime check of `entity_ok`.
fn entity_ok_exec(c: &BasicCuboid) -> (r: bool)
    ensures
        r == entity_ok(*c),
{
    0 <= c.physics.drag.drag_constant && c.physics.drag.drag_constant <= crate::TICKS_PER_SECOND
        && 0 <= c.walk_acceleration && c.walk_acceleration <= COORD_LIMIT
        && -COORD_LIMIT <= c.position.x && c.position.x <= COORD_LIMIT
        && -COORD_LIMIT <= c.position.y && c.position.y <= COORD_LIMIT
        && -COORD_LIMIT <= c.physics.velocity.x && c.physics.velocity.x <= COORD_LIMIT
        && -COORD_LIMIT <= c.physics.velocity.y && c.physics.velocity.y <= COORD_LIMIT
        && -COORD_LIMIT <= c.physics.acceleration.x && c.physics.acceleration.x <= COORD_LIMIT
        && -COORD_LIMIT <= c.physics.acceleration.y && c.physics.acceleration.y <= COORD_LIMIT
        && -SCALE_LIMIT <= c.health && c.health <= SCALE_LIMIT
        && -EXT_LIMIT <= c.hitbox.0.x && c.hitbox.0.x <= EXT_LIMIT
        && -EXT_LIMIT <= c.hitbox.0.y && c.hitbox.0.y <= EXT_LIMIT
}

/// Runtime check of `event_ok` together with the amplitude cap.
fn event_small_exec(e: &Event) -> (r: bool)
    ensures
        r == (event_ok(*e) && event_amp(*e) <= COORD_LIMIT),
{
    match e {
        Event::Damage(n) => -COORD_LIMIT <= *n && *n <= COORD_LIMIT,
        Event::Impulse(v) => {
            let ok = -SCALE_LIMIT <= v.x && v.x <= SCALE_LIMIT && -SCALE_LIMIT <= v.y && v.y
                <= SCALE_LIMIT;
            if !ok {
                false
            } else {
                let ax = crate::math::abs64(v.x);
                let ay = crate::math::abs64(v.y);
                ax + ay <= COORD_LIMIT
            }
        },
        Event::ImpulseFrom { from, magnitude } => {
            let half = GEOM_LIMIT / 2;
            -half <= from.x && from.x <= half && -half <= from.y && from.y <= half
                && -COORD_LIMIT <= *magnitude && *magnitude <= COORD_LIMIT
        },
    }
}

/// Runtime check of `projectile_ok`.
fn projectile_ok_exec(b: &Bullet) -> (r: bool)
    ensures
        r == projectile_ok(*b),
{
    let base = 0 <= b.physics.drag.drag_constant && b.physics.drag.drag_constant
        <= crate::TICKS_PER_SECOND && -(COORD_LIMIT + EXT_LIMIT) <= b.position.x && b.position.x
        <= COORD_LIMIT + EXT_LIMIT && -(COORD_LIMIT + EXT_LIMIT) <= b.position.y && b.position.y
        <= COORD_LIMIT + EXT_LIMIT && -COORD_LIMIT <= b.physics.velocity.x
        && b.physics.velocity.x <= COORD_LIMIT && -COORD_LIMIT <= b.physics.velocity.y
        && b.physics.velocity.y <= COORD_LIMIT && -COORD_LIMIT <= b.physics.acceleration.x
        && b.physics.acceleration.x <= COORD_LIMIT && -COORD_LIMIT <= b.physics.acceleration.y
        && b.physics.acceleration.y <= COORD_LIMIT && -EXT_LIMIT <= b.hitbox.0.x && b.hitbox.0.x
        <= EXT_LIMIT && -EXT_LIMIT <= b.hitbox.0.y && b.hitbox.0.y <= EXT_LIMIT && b.lifetime
        < 0x7fff_ffff_ffff_ffff && b.effects.len() <= 2;
    if !base {
        return false;
    }
    let n = b.effects.len();
    let mut i: usize = 0;
    while i < n
        invariant
            0 <= i <= n,
            n == b.effects@.len(),
            forall|q: int|
                0 <= q < i ==> event_ok(#[trigger] b.effects@[q]) && event_amp(b.effects@[q])
                    <= COORD_LIMIT,
        decreases n - i,
    {
        if !event_small_exec(&b.effects[i]) {
            return false;
        }
        i = i + 1;
    }
    true
}

/// Runtime check of `block_ok`.
fn block_ok_exec(b: &Block) -> (r: bool)
    ensures
        r == block_ok(*b),
{
    -COORD_LIMIT <= b.position.x && b.position.x <= COORD_LIMIT && -COORD_LIMIT <= b.position.y
        && b.position.y <= COORD_LIMIT && -EXT_LIMIT <= b.hitbox.0.x && b.hitbox.0.x <= EXT_LIMIT
        && -EXT_LIMIT <= b.hitbox.0.y && b.hitbox.0.y <= EXT_LIMIT
}

impl MainState {
    /// Runtime check of `wf`: whether another tick is safe to run. A
    /// driver calls this before each `update` and treats a failure as a
    /// fatal simulation error.
    pub fn in_bounds(&self) -> (r: bool)
        ensures
            r == self.wf(),
    {
        if !entity_ok_exec(&self.player_mob.implementation) {
            return false;
        }
        if self.mobs.len() > 100 || self.projectiles.len() > 10_000 || self.blocks.len() > 100 {
            return false;
        }
        let nm = self.mobs.len();
        let mut k: usize = 0;
        while k < nm
            invariant
                0 <= k <= nm,
                nm == self.mobs@.len(),
                forall|j: int|
                    0 <= j < k ==> entity_ok((#[trigger] self.mobs@[j]).implementation) && (
                    self.mobs@[j].target is Some ==> abs_i(self.mobs@[j].target->0.x as int)
                        <= COORD_LIMIT && abs_i(self.mobs@[j].target->0.y as int) <= COORD_LIMIT),
            decreases nm - k,
        {
            let m = &self.mobs[k];
            if !entity_ok_exec(&m.implementation) {
                return false;
            }
            match &m.target {
                Some(t) => {
                    if !(-COORD_LIMIT <= t.x && t.x <= COORD_LIMIT && -COORD_LIMIT <= t.y && t.y
                        <= COORD_LIMIT) {
                        return false;
                    }
                },
                None => (),
            }
            k = k + 1;
        }
        let nb = self.projectiles.len();
        let mut j: usize = 0;
        while j < nb
            invariant
                0 <= j <= nb,
                nb == self.projectiles@.len(),
                forall|q: int| 0 <= q < j ==> projectile_ok(#[trigger] self.projectiles@[q]),
            decreases nb - j,
        {
            if !projectile_ok_exec(&self.projectiles[j]) {
                return false;
            }
            j = j + 1;
        }
        let nw = self.blocks.len();
        let mut w: usize = 0;
        while w < nw
            invariant
                0 <= w <= nw,
                nw == self.blocks@.len(),
                forall|q: int| 0 <= q < w ==> block_ok(#[trigger] self.blocks@[q]),
            decreases nw - w,
        {
            if !block_ok_exec(&self.blocks[w]) {
                return false;
            }
            w = w + 1;
        }
        true
    }
}

} // verus!
