//! Entity identity and the capability traits shared by all archetypes:
//! having a position and identity, and having an axis-aligned hitbox.
//! Concrete archetypes compose a shared body value rather than inherit.

pub mod basic_cuboid;
pub mod player;
pub mod mob;
pub mod block;
pub mod bullet;
pub mod collision;
pub mod event;
pub mod physics;

use crate::math::{abs_i, Vec2, COORD_LIMIT, GEOM_LIMIT, SCALE_LIMIT};
use self::basic_cuboid::{after_events, lemma_after_events_app, lemma_after_events_position,
    lemma_after_events_snoc, BasicCuboid};
use self::mob::Dummy;
use self::player::Player;
use self::collision::Hitbox;
use self::bullet::Bullet;
use self::event::Event;
use vstd::prelude::*;

verus! {

/// A small opaque identifier, distinct among the live entities relevant
/// to a given membership check (whitelist / blacklist).
#[derive(Clone, Copy, Debug, PartialEq, Eq, Structural)]
pub struct ObjectID {
    pub value: u32,
}

impl ObjectID {
    /// Wraps a raw identifier value.
    pub fn new(value: u32) -> (r: ObjectID)
        ensures
            r == (ObjectID { value }),
    {
        ObjectID { value }
    }

    /// The raw identifier value.
    pub fn value(&self) -> (r: u32)
        ensures
            r == self.value,
    {
        self.value
    }
}

/// Anything simulated: it sits somewhere and can be told apart from
/// other entities.
pub trait Object: Sized {
    /// The entity's current position.
    spec fn pos_spec(&self) -> Vec2;

    /// The entity's identity.
    spec fn id_spec(&self) -> ObjectID;

    /// Reads the current position.
    fn get_position(&self) -> (r: Vec2)
        ensures
            r == self.pos_spec(),
    ;

    /// Reads the identity.
    fn get_id(&self) -> (r: ObjectID)
        ensures
            r == self.id_spec(),
    ;
}

/// An entity that can fire a projectile on demand, rate-limited by its
/// own cooldown.
pub trait CanShoot: Object {
    /// Whether the cooldown currently allows a shot.
    spec fn shoot_ready(&self) -> bool;

    /// State bounds under which a shot is safe from overflow.
    spec fn shoot_ok(&self) -> bool;

    /// This entity right after it has fired.
    spec fn after_shot_spec(&self) -> Self;

    /// Everything the contract pins down about a bullet this entity
    /// fires from its current state.
    spec fn shot_bullet_ok(&self, b: Bullet) -> bool;

    /// Fires if the cooldown allows it: returns the new bullet and
    /// resets the cooldown, or does nothing.
    fn shoot(&mut self) -> (r: Option<Bullet>)
        requires
            old(self).shoot_ok(),
        ensures
            r is Some <==> old(self).shoot_ready(),
            old(self).shoot_ready() ==> *final(self) == old(self).after_shot_spec(),
            !old(self).shoot_ready() ==> *final(self) == *old(self),
            r is Some ==> old(self).shot_bullet_ok(r->0),
    ;
}

/// An entity the renderer can draw: it asks for a drawable by tag and
/// may give a colour tint.
pub trait Renderable: Object {
    /// Which drawable this entity asks for.
    spec fn asset_spec(&self) -> crate::assets::DrawableAsset;

    /// The tint to draw with right now.
    spec fn color_spec(&self) -> Option<crate::assets::Rgba>;

    /// Reads the drawable tag.
    fn get_drawable_asset(&self) -> (r: crate::assets::DrawableAsset)
        ensures
            r == self.asset_spec(),
    ;

    /// Reads the current tint.
    fn get_color(&self) -> (r: Option<crate::assets::Rgba>)
        ensures
            r == self.color_spec(),
    ;
}

/// An entity whose movement target can be set from outside (the
/// pursuit AI aims it at the player each tick).
pub trait CanSetMoveTarget: Object {
    /// This entity with its pursuit target replaced.
    spec fn with_target_spec(&self, target: Vec2) -> Self;

    /// Replaces the pursuit target.
    fn set_target(&mut self, target: Vec2)
        ensures
            *final(self) == old(self).with_target_spec(target),
    ;
}

/// An entity with collision geometry: an axis-aligned box anchored at
/// its position and extending by the hitbox vector.
pub trait HasHitbox: Object {
    /// The extent (width, height) of the entity's box.
    spec fn ext_spec(&self) -> Vec2;

    /// Reads the hitbox.
    fn get_hitbox(&self) -> (r: &Hitbox)
        ensures
            r.vec_spec() == self.ext_spec(),
    ;
}

/// An entity that emits gameplay events when another entity collides
/// with it, by its own archetype's policy (whitelist, blacklist).
pub trait HasCollisionEvents: HasHitbox {
    /// State bounds under which one emission check is safe; emissions
    /// preserve it, so a whole dispatch pass stays safe.
    spec fn emit_ok(&self) -> bool;

    /// The events this entity addresses to a target with the given
    /// position, extent and identity.
    spec fn events_spec(&self, pos: Vec2, ext: Vec2, id: ObjectID) -> Seq<Event>;

    /// This entity's own state after running one emission check
    /// against such a target.
    spec fn after_emit_spec(&self, pos: Vec2, ext: Vec2, id: ObjectID) -> Self;

    /// Runs one emission check against a target: returns the events to
    /// deliver to it and updates the emitter's own state.
    fn create_collision_event(&mut self, other_pos: Vec2, other_ext: Vec2, other_id: ObjectID)
        -> (evs: Vec<Event>)
        requires
            old(self).emit_ok(),
            crate::math::abs_i(other_pos.x as int) <= crate::math::GEOM_LIMIT,
            crate::math::abs_i(other_pos.y as int) <= crate::math::GEOM_LIMIT,
            crate::math::abs_i(other_ext.x as int) <= crate::math::GEOM_LIMIT,
            crate::math::abs_i(other_ext.y as int) <= crate::math::GEOM_LIMIT,
        ensures
            evs@ == old(self).events_spec(other_pos, other_ext, other_id),
            *final(self) == old(self).after_emit_spec(other_pos, other_ext, other_id),
            evs@.len() <= 2,
            forall|i: int|
                0 <= i < evs@.len() ==> crate::game_object::event::event_ok(#[trigger] evs@[i])
                    && crate::game_object::basic_cuboid::event_amp(evs@[i])
                    <= crate::math::COORD_LIMIT,
    ;

    /// Emitting is self-contained: it preserves the emitter's safety
    /// bounds and geometry and never changes what it would emit at any
    /// other target.
    proof fn emit_properties(&self, pos: Vec2, ext: Vec2, id: ObjectID, p: Vec2, e: Vec2,
        d: ObjectID)
        requires
            self.emit_ok(),
        ensures
            self.after_emit_spec(pos, ext, id).emit_ok(),
            self.after_emit_spec(pos, ext, id).events_spec(p, e, d) == self.events_spec(p, e, d),
            self.after_emit_spec(pos, ext, id).pos_spec() == self.pos_spec(),
            self.after_emit_spec(pos, ext, id).ext_spec() == self.ext_spec(),
            self.after_emit_spec(pos, ext, id).id_spec() == self.id_spec(),
    ;
}


/// Swaps in a mutable view of one vector element.
fn vec_index_mut<T>(v: &mut Vec<T>, i: usize) -> (element: &mut T)
    requires
        i < old(v)@.len(),
    ensures
        *element == old(v)@[i as int],
        final(v)@ == old(v)@.update(i as int, *final(element)),
{
    &mut v[i]
}

/// Concatenation, in list order, of the events every emitter in the
/// list addresses to one target.
pub open spec fn all_events<U: HasCollisionEvents>(
    list: Seq<U>,
    pos: Vec2,
    ext: Vec2,
    id: ObjectID,
) -> Seq<Event>
    decreases list.len(),
{
    if list.len() == 0 {
        Seq::empty()
    } else {
        list[0].events_spec(pos, ext, id) + all_events(list.skip(1), pos, ext, id)
    }
}

/// One more emitter at the end of the list appends its events at the
/// end of the combined sequence.
pub proof fn lemma_all_events_snoc<U: HasCollisionEvents>(
    list: Seq<U>,
    u: U,
    pos: Vec2,
    ext: Vec2,
    id: ObjectID,
)
    ensures
        all_events(list.push(u), pos, ext, id) == all_events(list, pos, ext, id) + u.events_spec(
            pos, ext, id),
    decreases list.len(),
{
    if list.len() == 0 {
        assert(list.push(u)[0] == u);
        assert(list.push(u).skip(1) =~= Seq::<U>::empty());
        assert(all_events(Seq::<U>::empty(), pos, ext, id) == Seq::<Event>::empty());
        assert(all_events(list, pos, ext, id) == Seq::<Event>::empty());
        assert(all_events(list.push(u), pos, ext, id) == u.events_spec(pos, ext, id)
            + all_events(list.push(u).skip(1), pos, ext, id));
        assert(all_events(list.push(u), pos, ext, id) =~= all_events(list, pos, ext, id)
            + u.events_spec(pos, ext, id));
    } else {
        assert(list.push(u)[0] == list[0]);
        assert(list.push(u).skip(1) =~= list.skip(1).push(u));
        lemma_all_events_snoc(list.skip(1), u, pos, ext, id);
        assert(all_events(list.push(u), pos, ext, id) =~= all_events(list, pos, ext, id)
            + u.events_spec(pos, ext, id));
    }
}

/// Emitter lists whose elements address the same events to the target
/// produce the same combined sequence.
pub proof fn lemma_all_events_congruent<U: HasCollisionEvents>(
    s1: Seq<U>,
    s2: Seq<U>,
    pos: Vec2,
    ext: Vec2,
    id: ObjectID,
)
    requires
        s1.len() == s2.len(),
        forall|j: int|
            0 <= j < s1.len() ==> #[trigger] s1[j].events_spec(pos, ext, id) == s2[j].events_spec(
                pos, ext, id),
    ensures
        all_events(s1, pos, ext, id) == all_events(s2, pos, ext, id),
    decreases s1.len(),
{
    if s1.len() > 0 {
        assert forall|j: int| 0 <= j < s1.skip(1).len() implies #[trigger] s1.skip(1)[j]
            .events_spec(pos, ext, id) == s2.skip(1)[j].events_spec(pos, ext, id) by {
            assert(s1.skip(1)[j] == s1[j + 1]);
            assert(s2.skip(1)[j] == s2[j + 1]);
            assert(s1[j + 1].events_spec(pos, ext, id) == s2[j + 1].events_spec(pos, ext, id));
        }
        lemma_all_events_congruent(s1.skip(1), s2.skip(1), pos, ext, id);
        assert(s1[0].events_spec(pos, ext, id) == s2[0].events_spec(pos, ext, id));
    }
}

/// Core of event dispatch: runs every emitter's collision check against
/// one receiving body and applies the emitted events to it in order.
#[verifier::loop_isolation(false)]
#[verifier::rlimit(80)]
fn dispatch_events_into<U: HasCollisionEvents>(
    body: &mut BasicCuboid,
    list: &mut Vec<U>,
    pos: Vec2,
    ext: Vec2,
    id: ObjectID,
)
    requires
        forall|j: int| 0 <= j < old(list)@.len() ==> (#[trigger] old(list)@[j]).emit_ok(),
        old(list)@.len() <= 1_000_000,
        abs_i(pos.x as int) <= GEOM_LIMIT,
        abs_i(pos.y as int) <= GEOM_LIMIT,
        abs_i(ext.x as int) <= GEOM_LIMIT,
        abs_i(ext.y as int) <= GEOM_LIMIT,
        abs_i(old(body).position.x as int) <= GEOM_LIMIT / 2,
        abs_i(old(body).position.y as int) <= GEOM_LIMIT / 2,
        abs_i(old(body).physics.velocity.x as int) <= 4 * SCALE_LIMIT,
        abs_i(old(body).physics.velocity.y as int) <= 4 * SCALE_LIMIT,
        abs_i(old(body).health as int) <= 4 * SCALE_LIMIT,
    ensures
        *final(body) == after_events(*old(body), all_events(old(list)@, pos, ext, id)),
        final(list)@.len() == old(list)@.len(),
        forall|j: int|
            0 <= j < old(list)@.len() ==> final(list)@[j] == (#[trigger] old(list)@[j])
                .after_emit_spec(pos, ext, id),
        forall|j: int| 0 <= j < old(list)@.len() ==> (#[trigger] final(list)@[j]).emit_ok(),
        abs_i(final(body).physics.velocity.x as int) <= abs_i(old(body).physics.velocity.x as int)
            + 2 * old(list)@.len() * COORD_LIMIT,
        abs_i(final(body).physics.velocity.y as int) <= abs_i(old(body).physics.velocity.y as int)
            + 2 * old(list)@.len() * COORD_LIMIT,
        abs_i(final(body).health as int) <= abs_i(old(body).health as int) + 2 * old(list)@.len()
            * COORD_LIMIT,
        final(body).position == old(body).position,
        final(body).walk_acceleration == old(body).walk_acceleration,
        final(body).physics.drag.drag_constant == old(body).physics.drag.drag_constant,
{
    let n = list.len();
    let mut i: usize = 0;
    while i < n
        invariant
            0 <= i <= n,
            list@.len() == n,
            forall|j: int|
                0 <= j < i ==> list@[j] == (#[trigger] old(list)@[j]).after_emit_spec(pos, ext,
                    id),
            forall|j: int| i <= j < n ==> list@[j] == old(list)@[j],
            forall|j: int| 0 <= j < n ==> (#[trigger] list@[j]).emit_ok(),
            *body == after_events(*old(body), all_events(old(list)@.take(i as int), pos, ext,
                id)),
            abs_i(body.physics.velocity.x as int) <= abs_i(old(body).physics.velocity.x as int)
                + 2 * i * COORD_LIMIT,
            abs_i(body.physics.velocity.y as int) <= abs_i(old(body).physics.velocity.y as int)
                + 2 * i * COORD_LIMIT,
            abs_i(body.health as int) <= abs_i(old(body).health as int) + 2 * i * COORD_LIMIT,
            body.position == old(body).position,
            body.walk_acceleration == old(body).walk_acceleration,
            body.physics.drag.drag_constant == old(body).physics.drag.drag_constant,
        decreases n - i,
    {
        proof {
            assert(list@[i as int] == old(list)@[i as int]);
        }
        let u = vec_index_mut(list, i);
        let evs = u.create_collision_event(pos, ext, id);
        proof {
            old(list)@[i as int].emit_properties(pos, ext, id, pos, ext, id);
            assert(old(list)@.take(i as int).push(old(list)@[i as int]) =~= old(list)@.take(
                i as int + 1));
            lemma_all_events_snoc(old(list)@.take(i as int), old(list)@[i as int], pos, ext, id);
        }
        let ghost body_mid = *body;
        let m = evs.len();
        let mut k: usize = 0;
        while k < m
            invariant
                0 <= k <= m,
                evs@.len() == m,
                *body == after_events(body_mid, evs@.take(k as int)),
                abs_i(body.physics.velocity.x as int) <= abs_i(body_mid.physics.velocity.x as int)
                    + k * COORD_LIMIT,
                abs_i(body.physics.velocity.y as int) <= abs_i(body_mid.physics.velocity.y as int)
                    + k * COORD_LIMIT,
                abs_i(body.health as int) <= abs_i(body_mid.health as int) + k * COORD_LIMIT,
                body.position == body_mid.position,
                body.walk_acceleration == body_mid.walk_acceleration,
                body.physics.drag.drag_constant == body_mid.physics.drag.drag_constant,
            decreases m - k,
        {
            proof {
                assert(event::event_ok(evs@[k as int]) && basic_cuboid::event_amp(evs@[k as int])
                    <= COORD_LIMIT);
                assert(k * COORD_LIMIT + COORD_LIMIT == (k + 1) * COORD_LIMIT) by (nonlinear_arith);
                assert(2 * (i as int) * COORD_LIMIT + 2 * COORD_LIMIT <= 2 * (n as int)
                    * COORD_LIMIT) by (nonlinear_arith)
                    requires
                        i < n,
                ;
            }
            let e = evs[k];
            body.recieve_event(e);
            proof {
                assert(evs@.take(k as int).push(evs@[k as int]) =~= evs@.take(k as int + 1));
                lemma_after_events_snoc(body_mid, evs@.take(k as int), evs@[k as int]);
            }
            k = k + 1;
        }
        proof {
            assert(evs@.take(m as int) =~= evs@);
            lemma_after_events_app(*old(body), all_events(old(list)@.take(i as int), pos, ext,
                id), evs@);
            assert(2 * (i as int) * COORD_LIMIT + 2 * COORD_LIMIT == 2 * ((i as int) + 1)
                * COORD_LIMIT) by (nonlinear_arith);
        }
        i = i + 1;
    }
    proof {
        assert(old(list)@.take(n as int) =~= old(list)@);
    }
}

/// Lets every emitter in the list act on one receiving object: the
/// events each emitter addresses to it are applied to its body in list
/// order, and each emitter updates its own state (a bullet that hits
/// marks itself for deletion).
pub fn object_vec_collision_events<U: HasCollisionEvents>(object_1: &mut Player, list: &mut Vec<
    U>)
    requires
        forall|j: int| 0 <= j < old(list)@.len() ==> (#[trigger] old(list)@[j]).emit_ok(),
        old(list)@.len() <= 1_000_000,
        abs_i(old(object_1).implementation.position.x as int) <= GEOM_LIMIT / 2,
        abs_i(old(object_1).implementation.position.y as int) <= GEOM_LIMIT / 2,
        abs_i(old(object_1).implementation.hitbox.0.x as int) <= GEOM_LIMIT,
        abs_i(old(object_1).implementation.hitbox.0.y as int) <= GEOM_LIMIT,
        abs_i(old(object_1).implementation.physics.velocity.x as int) <= 4 * SCALE_LIMIT,
        abs_i(old(object_1).implementation.physics.velocity.y as int) <= 4 * SCALE_LIMIT,
        abs_i(old(object_1).implementation.health as int) <= 4 * SCALE_LIMIT,
    ensures
        *final(object_1) == (Player {
            implementation: after_events(old(object_1).implementation,
                all_events(old(list)@, old(object_1).implementation.position,
                    old(object_1).implementation.hitbox.0, old(object_1).implementation.id)),
            ..*old(object_1)
        }),
        final(list)@.len() == old(list)@.len(),
        forall|j: int|
            0 <= j < old(list)@.len() ==> final(list)@[j] == (#[trigger] old(list)@[j])
                .after_emit_spec(old(object_1).implementation.position,
                old(object_1).implementation.hitbox.0, old(object_1).implementation.id),
        forall|j: int| 0 <= j < old(list)@.len() ==> (#[trigger] final(list)@[j]).emit_ok(),
        abs_i(final(object_1).implementation.physics.velocity.x as int) <= abs_i(
            old(object_1).implementation.physics.velocity.x as int) + 2 * old(list)@.len()
            * COORD_LIMIT,
        abs_i(final(object_1).implementation.physics.velocity.y as int) <= abs_i(
            old(object_1).implementation.physics.velocity.y as int) + 2 * old(list)@.len()
            * COORD_LIMIT,
        abs_i(final(object_1).implementation.health as int) <= abs_i(
            old(object_1).implementation.health as int) + 2 * old(list)@.len() * COORD_LIMIT,
        final(object_1).implementation.position == old(object_1).implementation.position,
{
    let pos = object_1.implementation.position;
    let ext = object_1.implementation.hitbox.vec();
    let id = object_1.implementation.id;
    dispatch_events_into(&mut object_1.implementation, list, pos, ext, id);
}


/// An emitter after running its collision check against every mob in
/// the list, in order.
pub open spec fn emitter_after_mobs<U: HasCollisionEvents>(u: U, mobs: Seq<Dummy>) -> U
    decreases mobs.len(),
{
    if mobs.len() == 0 {
        u
    } else {
        emitter_after_mobs(u.after_emit_spec(mobs[0].implementation.position,
            mobs[0].implementation.hitbox.0, mobs[0].implementation.id), mobs.skip(1))
    }
}

/// One more mob at the end of the list applies one more emission check
/// at the end.
pub proof fn lemma_emitter_after_mobs_snoc<U: HasCollisionEvents>(u: U, mobs: Seq<Dummy>,
    m: Dummy)
    ensures
        emitter_after_mobs(u, mobs.push(m)) == emitter_after_mobs(u, mobs).after_emit_spec(
            m.implementation.position, m.implementation.hitbox.0, m.implementation.id),
    decreases mobs.len(),
{
    if mobs.len() == 0 {
        assert(mobs.push(m)[0] == m);
        assert(mobs.push(m).skip(1) =~= Seq::<Dummy>::empty());
        assert(emitter_after_mobs(u, mobs) == u);
        assert(emitter_after_mobs(u.after_emit_spec(m.implementation.position,
            m.implementation.hitbox.0, m.implementation.id), Seq::<Dummy>::empty())
            == u.after_emit_spec(m.implementation.position, m.implementation.hitbox.0,
            m.implementation.id));
    } else {
        assert(mobs.push(m)[0] == mobs[0]);
        assert(mobs.push(m).skip(1) =~= mobs.skip(1).push(m));
        lemma_emitter_after_mobs_snoc(u.after_emit_spec(mobs[0].implementation.position,
            mobs[0].implementation.hitbox.0, mobs[0].implementation.id), mobs.skip(1), m);
    }
}

/// Emission checks keep an emitter inside its safety bounds and do not
/// change what it emits at any target.
pub proof fn lemma_emitter_after_mobs_stable<U: HasCollisionEvents>(u: U, mobs: Seq<Dummy>,
    p: Vec2, e: Vec2, d: ObjectID)
    requires
        u.emit_ok(),
    ensures
        emitter_after_mobs(u, mobs).emit_ok(),
        emitter_after_mobs(u, mobs).events_spec(p, e, d) == u.events_spec(p, e, d),
    decreases mobs.len(),
{
    if mobs.len() > 0 {
        u.emit_properties(mobs[0].implementation.position, mobs[0].implementation.hitbox.0,
            mobs[0].implementation.id, p, e, d);
        lemma_emitter_after_mobs_stable(u.after_emit_spec(mobs[0].implementation.position,
            mobs[0].implementation.hitbox.0, mobs[0].implementation.id), mobs.skip(1), p, e, d);
    }
}

/// Bounds on a mob's varying state under which it can safely receive a
/// whole dispatch pass worth of events.
pub open spec fn mob_recv_ok(m: Dummy) -> bool {
    &&& abs_i(m.implementation.position.x as int) <= GEOM_LIMIT / 2
    &&& abs_i(m.implementation.position.y as int) <= GEOM_LIMIT / 2
    &&& abs_i(m.implementation.hitbox.0.x as int) <= GEOM_LIMIT
    &&& abs_i(m.implementation.hitbox.0.y as int) <= GEOM_LIMIT
    &&& abs_i(m.implementation.physics.velocity.x as int) <= 4 * SCALE_LIMIT
    &&& abs_i(m.implementation.physics.velocity.y as int) <= 4 * SCALE_LIMIT
    &&& abs_i(m.implementation.health as int) <= 4 * SCALE_LIMIT
}

/// Lets every emitter in the second list act on every mob in the first
/// list: mob by mob, the events addressed to it are applied to its body
/// in list order, and the emitters update their own state.
#[verifier::loop_isolation(false)]
#[verifier::rlimit(80)]
pub fn vec_vec_collision_events<U: HasCollisionEvents>(
    objects_1: &mut Vec<Dummy>,
    objects_2: &mut Vec<U>,
)
    requires
        forall|j: int| 0 <= j < old(objects_2)@.len() ==> (#[trigger] old(objects_2)@[j]).emit_ok(),
        old(objects_2)@.len() <= 1_000_000,
        forall|k: int| 0 <= k < old(objects_1)@.len() ==> mob_recv_ok(#[trigger] old(objects_1)@[k]),
    ensures
        final(objects_1)@.len() == old(objects_1)@.len(),
        forall|k: int|
            0 <= k < old(objects_1)@.len() ==> final(objects_1)@[k] == (Dummy {
                implementation: after_events((#[trigger] old(objects_1)@[k]).implementation,
                    all_events(old(objects_2)@, old(objects_1)@[k].implementation.position,
                        old(objects_1)@[k].implementation.hitbox.0,
                        old(objects_1)@[k].implementation.id)),
                ..old(objects_1)@[k]
            }),
        forall|k: int|
            0 <= k < old(objects_1)@.len() ==> abs_i(
                (#[trigger] final(objects_1)@[k]).implementation.physics.velocity.x as int)
                <= abs_i(old(objects_1)@[k].implementation.physics.velocity.x as int) + 2 * old(
                objects_2)@.len() * COORD_LIMIT && abs_i(
                final(objects_1)@[k].implementation.physics.velocity.y as int) <= abs_i(
                old(objects_1)@[k].implementation.physics.velocity.y as int) + 2 * old(
                objects_2)@.len() * COORD_LIMIT && abs_i(
                final(objects_1)@[k].implementation.health as int) <= abs_i(
                old(objects_1)@[k].implementation.health as int) + 2 * old(objects_2)@.len()
                * COORD_LIMIT && final(objects_1)@[k].implementation.position == old(
                objects_1)@[k].implementation.position,
        final(objects_2)@.len() == old(objects_2)@.len(),
        forall|j: int|
            0 <= j < old(objects_2)@.len() ==> final(objects_2)@[j] == emitter_after_mobs(
                #[trigger] old(objects_2)@[j], old(objects_1)@),
        forall|j: int| 0 <= j < old(objects_2)@.len() ==> (#[trigger] final(objects_2)@[j])
            .emit_ok(),
{
    let n1 = objects_1.len();
    let n2 = objects_2.len();
    let mut k: usize = 0;
    while k < n1
        invariant
            0 <= k <= n1,
            objects_1@.len() == n1,
            objects_2@.len() == n2,
            forall|j: int| k <= j < n1 ==> objects_1@[j] == old(objects_1)@[j],
            forall|j: int|
                0 <= j < k ==> objects_1@[j] == (Dummy {
                    implementation: after_events((#[trigger] old(objects_1)@[j]).implementation,
                        all_events(old(objects_2)@, old(objects_1)@[j].implementation.position,
                            old(objects_1)@[j].implementation.hitbox.0,
                            old(objects_1)@[j].implementation.id)),
                    ..old(objects_1)@[j]
                }),
            forall|j: int|
                0 <= j < k ==> abs_i(
                    (#[trigger] objects_1@[j]).implementation.physics.velocity.x as int) <= abs_i(
                    old(objects_1)@[j].implementation.physics.velocity.x as int) + 2 * n2
                    * COORD_LIMIT && abs_i(objects_1@[j].implementation.physics.velocity.y as int)
                    <= abs_i(old(objects_1)@[j].implementation.physics.velocity.y as int) + 2 * n2
                    * COORD_LIMIT && abs_i(objects_1@[j].implementation.health as int) <= abs_i(
                    old(objects_1)@[j].implementation.health as int) + 2 * n2 * COORD_LIMIT
                    && objects_1@[j].implementation.position == old(
                    objects_1)@[j].implementation.position,
            forall|j: int|
                0 <= j < n2 ==> objects_2@[j] == emitter_after_mobs(#[trigger] old(objects_2)@[j],
                    old(objects_1)@.take(k as int)),
            forall|j: int| 0 <= j < n2 ==> (#[trigger] objects_2@[j]).emit_ok(),
        decreases n1 - k,
    {
        let pos = objects_1[k].implementation.position;
        let ext = objects_1[k].implementation.hitbox.vec();
        let id = objects_1[k].implementation.id;
        let ghost list_pre = objects_2@;
        proof {
            assert forall|j: int| 0 <= j < n2 implies #[trigger] list_pre[j].events_spec(pos, ext,
                id) == old(objects_2)@[j].events_spec(pos, ext, id) by {
                lemma_emitter_after_mobs_stable(old(objects_2)@[j],
                    old(objects_1)@.take(k as int), pos, ext, id);
            }
            lemma_all_events_congruent(list_pre, old(objects_2)@, pos, ext, id);
        }
        let m = vec_index_mut(objects_1, k);
        dispatch_events_into(&mut m.implementation, objects_2, pos, ext, id);
        proof {
            assert(old(objects_1)@.take(k as int).push(old(objects_1)@[k as int]) =~= old(
                objects_1)@.take(k as int + 1));
            assert forall|j: int| 0 <= j < n2 implies objects_2@[j] == emitter_after_mobs(
                #[trigger] old(objects_2)@[j], old(objects_1)@.take(k as int + 1)) by {
                lemma_emitter_after_mobs_snoc(old(objects_2)@[j], old(objects_1)@.take(k as int),
                    old(objects_1)@[k as int]);
            }
        }
        k = k + 1;
    }
    proof {
        assert(old(objects_1)@.take(n1 as int) =~= old(objects_1)@);
    }
}

} // verus!
