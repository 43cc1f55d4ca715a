//! Axis-aligned box overlap testing and minimum-translation (penetration)
//! computation, with the tie-break rule the simulation's deterministic
//! replay depends on: correction is resolved to a single axis, and ties
//! favour the X axis.

use crate::math::{abs64, abs_i, norm_sq, sqrt_floor, Vec2, COORD_LIMIT, EXT_LIMIT, GEOM_LIMIT};
use super::basic_cuboid::{after_collision, BasicCuboid};
use super::mob::Dummy;
use super::player::Player;
use super::HasHitbox;
use vstd::prelude::*;

verus! {

/// The outcome of one pairwise collision check: the translation to
/// subtract from the first entity's position to separate the boxes.
#[derive(Clone, Copy, Debug, PartialEq, Eq, Structural)]
pub struct Collision {
    pub penetration: Vec2,
}

impl Collision {
    /// Wraps a penetration vector.
    pub fn new(penetration: Vec2) -> (r: Collision)
        ensures
            r == (Collision { penetration }),
    {
        Collision { penetration }
    }

    /// The stored penetration vector.
    pub fn get_penetration(&self) -> (r: Vec2)
        ensures
            r == self.penetration,
    {
        self.penetration
    }

    /// View of the stored penetration vector.
    pub open spec fn penetration_spec(&self) -> Vec2 {
        self.penetration
    }
}

/// An axis-aligned extent vector: the box of an entity at position `p`
/// spans from `p` to `p + extent`.
#[derive(Clone, Copy, Debug, PartialEq, Eq, Structural)]
pub struct Hitbox(pub Vec2);

impl Hitbox {
    /// Wraps an extent vector.
    pub fn new(size: Vec2) -> (r: Hitbox)
        ensures
            r.vec_spec() == size,
    {
        Hitbox(size)
    }

    /// The extent vector.
    pub fn vec(&self) -> (r: Vec2)
        ensures
            r == self.vec_spec(),
    {
        self.0
    }

    /// View of the extent vector.
    pub open spec fn vec_spec(&self) -> Vec2 {
        self.0
    }
}

/// Directed depth from the left face of box 1 to the right face of
/// box 2; the boxes overlap on X only if both X depths are positive.
pub open spec fn depth_x1(p1: Vec2, e1: Vec2, p2: Vec2, e2: Vec2) -> int {
    p2.x + e2.x - p1.x
}

/// Directed depth from the left face of box 2 to the right face of box 1.
pub open spec fn depth_x2(p1: Vec2, e1: Vec2, p2: Vec2, e2: Vec2) -> int {
    p1.x + e1.x - p2.x
}

/// Directed depth from the bottom face of box 1 to the top face of box 2.
pub open spec fn depth_y1(p1: Vec2, e1: Vec2, p2: Vec2, e2: Vec2) -> int {
    p2.y + e2.y - p1.y
}

/// Directed depth from the bottom face of box 2 to the top face of box 1.
pub open spec fn depth_y2(p1: Vec2, e1: Vec2, p2: Vec2, e2: Vec2) -> int {
    p1.y + e1.y - p2.y
}

/// Whether the two boxes intersect: all four directed depths are
/// strictly positive.
pub open spec fn overlaps(p1: Vec2, e1: Vec2, p2: Vec2, e2: Vec2) -> bool {
    depth_x1(p1, e1, p2, e2) > 0 && depth_x2(p1, e1, p2, e2) > 0
        && depth_y1(p1, e1, p2, e2) > 0 && depth_y2(p1, e1, p2, e2) > 0
}

/// Per-axis correction: the smaller-magnitude directed depth, with the
/// sign flipped on the near-side depth so the result pushes box 1 out.
pub open spec fn axis_push(d1: int, d2: int) -> int {
    if abs_i(d1) < abs_i(d2) {
        -d1
    } else {
        d2
    }
}

/// The minimum translation to subtract from box 1's position: zero when
/// the boxes do not overlap, otherwise a single-axis correction along
/// the axis of smaller overlap, ties favouring X.
pub open spec fn penetration(p1: Vec2, e1: Vec2, p2: Vec2, e2: Vec2) -> Vec2 {
    if overlaps(p1, e1, p2, e2) {
        let px = axis_push(depth_x1(p1, e1, p2, e2), depth_x2(p1, e1, p2, e2));
        let py = axis_push(depth_y1(p1, e1, p2, e2), depth_y2(p1, e1, p2, e2));
        if abs_i(px) > abs_i(py) {
            Vec2 { x: 0, y: py as i64 }
        } else {
            Vec2 { x: px as i64, y: 0 }
        }
    } else {
        Vec2 { x: 0, y: 0 }
    }
}

/// Coordinates small enough for the directed depth sums below to stay
/// well inside `i64`; depths are linear, so this is far looser than the
/// squared-length bound `GEOM_LIMIT`.
pub open spec fn geom_ok(v: Vec2) -> bool {
    abs_i(v.x as int) <= 1_000_000_000_000 && abs_i(v.y as int) <= 1_000_000_000_000
}

/// Reads the four directed depths between two entities' boxes.
fn get_hitbox_distances<T: HasHitbox, U: HasHitbox>(object_1: &T, object_2: &U) -> (r: (
    i64,
    i64,
    i64,
    i64,
))
    requires
        geom_ok(object_1.pos_spec()),
        geom_ok(object_1.ext_spec()),
        geom_ok(object_2.pos_spec()),
        geom_ok(object_2.ext_spec()),
    ensures
        r.0 == depth_x1(object_1.pos_spec(), object_1.ext_spec(), object_2.pos_spec(),
            object_2.ext_spec()),
        r.1 == depth_x2(object_1.pos_spec(), object_1.ext_spec(), object_2.pos_spec(),
            object_2.ext_spec()),
        r.2 == depth_y1(object_1.pos_spec(), object_1.ext_spec(), object_2.pos_spec(),
            object_2.ext_spec()),
        r.3 == depth_y2(object_1.pos_spec(), object_1.ext_spec(), object_2.pos_spec(),
            object_2.ext_spec()),
{
    let hitbox_1 = object_1.get_hitbox().vec();
    let hitbox_2 = object_2.get_hitbox().vec();
    let position_1 = object_1.get_position();
    let position_2 = object_2.get_position();

    let dx1 = position_2.x + hitbox_2.x - position_1.x;
    let dx2 = position_1.x + hitbox_1.x - position_2.x;
    let dy1 = position_2.y + hitbox_2.y - position_1.y;
    let dy2 = position_1.y + hitbox_1.y - position_2.y;

    (dx1, dx2, dy1, dy2)
}

/// Whether two boxes given by plain position and extent intersect.
pub fn overlaps_at(p1: Vec2, e1: Vec2, p2: Vec2, e2: Vec2) -> (r: bool)
    requires
        geom_ok(p1),
        geom_ok(e1),
        geom_ok(p2),
        geom_ok(e2),
    ensures
        r == overlaps(p1, e1, p2, e2),
{
    let dx1 = p2.x + e2.x - p1.x;
    let dx2 = p1.x + e1.x - p2.x;
    let dy1 = p2.y + e2.y - p1.y;
    let dy2 = p1.y + e1.y - p2.y;
    (dx1 > 0) && (dx2 > 0) && (dy1 > 0) && (dy2 > 0)
}

/// Whether two entities' boxes intersect.
pub fn is_intersecting<T: HasHitbox, U: HasHitbox>(object_1: &T, object_2: &U) -> (r: bool)
    requires
        geom_ok(object_1.pos_spec()),
        geom_ok(object_1.ext_spec()),
        geom_ok(object_2.pos_spec()),
        geom_ok(object_2.ext_spec()),
    ensures
        r == overlaps(object_1.pos_spec(), object_1.ext_spec(), object_2.pos_spec(),
            object_2.ext_spec()),
{
    let (dx1, dx2, dy1, dy2) = get_hitbox_distances(object_1, object_2);
    (dx1 > 0) && (dx2 > 0) && (dy1 > 0) && (dy2 > 0)
}

/// The translation that separates the first entity from the second:
/// zero when they do not overlap.
pub fn find_penetration<T: HasHitbox, U: HasHitbox>(object_1: &T, object_2: &U) -> (r: Vec2)
    requires
        geom_ok(object_1.pos_spec()),
        geom_ok(object_1.ext_spec()),
        geom_ok(object_2.pos_spec()),
        geom_ok(object_2.ext_spec()),
    ensures
        r == penetration(object_1.pos_spec(), object_1.ext_spec(), object_2.pos_spec(),
            object_2.ext_spec()),
{
    let (dx1, dx2, dy1, dy2) = get_hitbox_distances(object_1, object_2);

    if (dx1 > 0) && (dx2 > 0) && (dy1 > 0) && (dy2 > 0) {
        let px: i64 = if abs64(dx1) < abs64(dx2) {
            -dx1
        } else {
            dx2
        };
        let py: i64 = if abs64(dy1) < abs64(dy2) {
            -dy1
        } else {
            dy2
        };
        if abs64(px) > abs64(py) {
            Vec2 { x: 0, y: py }
        } else {
            Vec2 { x: px, y: 0 }
        }
    } else {
        Vec2 { x: 0, y: 0 }
    }
}

/// Runs one pairwise check and wraps the resulting correction.
pub fn create_collision<T: HasHitbox, U: HasHitbox>(object_1: &T, object_2: &U) -> (r: Collision)
    requires
        geom_ok(object_1.pos_spec()),
        geom_ok(object_1.ext_spec()),
        geom_ok(object_2.pos_spec()),
        geom_ok(object_2.ext_spec()),
    ensures
        r.penetration_spec() == penetration(object_1.pos_spec(), object_1.ext_spec(),
            object_2.pos_spec(), object_2.ext_spec()),
{
    Collision::new(find_penetration(object_1, object_2))
}

/// Coordinates within the bound kept by every well-formed entity.
pub open spec fn coord_ok(v: Vec2) -> bool {
    abs_i(v.x as int) <= COORD_LIMIT && abs_i(v.y as int) <= COORD_LIMIT
}

/// Distance between two entities' positions, rounded down.
pub fn get_distance<T: HasHitbox, U: HasHitbox>(object_1: &T, object_2: &U) -> (r: i64)
    requires
        coord_ok(object_1.pos_spec()),
        coord_ok(object_2.pos_spec()),
    ensures
        r == sqrt_floor(
            norm_sq(
                Vec2 {
                    x: (object_1.pos_spec().x - object_2.pos_spec().x) as i64,
                    y: (object_1.pos_spec().y - object_2.pos_spec().y) as i64,
                },
            ),
        ),
{
    let p1 = object_1.get_position();
    let p2 = object_2.get_position();
    let dx: i64 = p1.x - p2.x;
    let dy: i64 = p1.y - p2.y;
    proof {
        assert(dx * dx >= 0 && dx * dx <= 4 * (COORD_LIMIT as int) * (COORD_LIMIT as int))
            by (nonlinear_arith)
            requires
                abs_i(dx as int) <= 2 * (COORD_LIMIT as int),
        ;
        assert(dy * dy >= 0 && dy * dy <= 4 * (COORD_LIMIT as int) * (COORD_LIMIT as int))
            by (nonlinear_arith)
            requires
                abs_i(dy as int) <= 2 * (COORD_LIMIT as int),
        ;
    }
    let sx: i128 = (dx as i128) * (dx as i128);
    let sy: i128 = (dy as i128) * (dy as i128);
    let ns: u64 = (sx + sy) as u64;
    let mag: u64 = crate::math::isqrt(ns);
    proof {
        let mi: int = mag as int;
        assert(mi <= 3_000_000_000) by (nonlinear_arith)
            requires
                mi >= 0,
                mi * mi <= (ns as int),
                (ns as int) <= 8 * (COORD_LIMIT as int) * (COORD_LIMIT as int),
        ;
    }
    mag as i64
}

/// The single-axis correction never exceeds the extents involved: each
/// component of the penetration vector is bounded by the larger bound
/// on the two boxes' extents.
pub proof fn lemma_penetration_bound(p1: Vec2, e1: Vec2, p2: Vec2, e2: Vec2, b: int)
    requires
        abs_i(e1.x as int) <= b,
        abs_i(e1.y as int) <= b,
        abs_i(e2.x as int) <= b,
        abs_i(e2.y as int) <= b,
        0 <= b <= GEOM_LIMIT,
    ensures
        abs_i(penetration(p1, e1, p2, e2).x as int) <= b,
        abs_i(penetration(p1, e1, p2, e2).y as int) <= b,
{
    if overlaps(p1, e1, p2, e2) {
        assert(depth_x1(p1, e1, p2, e2) + depth_x2(p1, e1, p2, e2) == e1.x + e2.x);
        assert(depth_y1(p1, e1, p2, e2) + depth_y2(p1, e1, p2, e2) == e1.y + e2.y);
    }
}

/// Overlap is symmetric: swapping the two boxes cannot change whether
/// they intersect.
pub proof fn lemma_overlaps_symmetric(p1: Vec2, e1: Vec2, p2: Vec2, e2: Vec2)
    ensures
        overlaps(p1, e1, p2, e2) == overlaps(p2, e2, p1, e1),
{
}

/// Boxes that do not overlap need no correction: the penetration vector
/// is exactly zero.
pub proof fn lemma_no_overlap_zero_penetration(p1: Vec2, e1: Vec2, p2: Vec2, e2: Vec2)
    requires
        !overlaps(p1, e1, p2, e2),
    ensures
        penetration(p1, e1, p2, e2) == (Vec2 { x: 0, y: 0 }),
{
}

/// Overlapping boxes are corrected along exactly one axis: one component
/// of the penetration vector is nonzero and the other is zero.
pub proof fn lemma_single_axis_correction(p1: Vec2, e1: Vec2, p2: Vec2, e2: Vec2)
    requires
        overlaps(p1, e1, p2, e2),
        geom_ok(p1),
        geom_ok(e1),
        geom_ok(p2),
        geom_ok(e2),
    ensures
        penetration(p1, e1, p2, e2).x == 0 <==> penetration(p1, e1, p2, e2).y != 0,
{
}


/// A body after being resolved, in order, against every entity in a
/// list: each step detects overlap against the body's current position
/// and applies the correction of that pair.
pub open spec fn resolved_against<U: HasHitbox>(c: BasicCuboid, list: Seq<U>) -> BasicCuboid
    decreases list.len(),
{
    if list.len() == 0 {
        c
    } else {
        resolved_against(after_collision(c, penetration(c.position, c.hitbox.0,
            list[0].pos_spec(), list[0].ext_spec())), list.skip(1))
    }
}

/// One more obstacle at the end of the list applies one more correction
/// at the end.
pub proof fn lemma_resolved_against_snoc<U: HasHitbox>(c: BasicCuboid, list: Seq<U>, u: U)
    ensures
        resolved_against(c, list.push(u)) == after_collision(resolved_against(c, list),
            penetration(resolved_against(c, list).position, resolved_against(c, list).hitbox.0,
                u.pos_spec(), u.ext_spec())),
    decreases list.len(),
{
    if list.len() == 0 {
        assert(list.push(u)[0] == u);
        assert(list.push(u).skip(1) =~= Seq::<U>::empty());
        assert(resolved_against(c, list) == c);
        assert(resolved_against(after_collision(c, penetration(c.position, c.hitbox.0,
            u.pos_spec(), u.ext_spec())), Seq::<U>::empty()) == after_collision(c, penetration(
            c.position, c.hitbox.0, u.pos_spec(), u.ext_spec())));
    } else {
        assert(list.push(u)[0] == list[0]);
        assert(list.push(u).skip(1) =~= list.skip(1).push(u));
        lemma_resolved_against_snoc(after_collision(c, penetration(c.position, c.hitbox.0,
            list[0].pos_spec(), list[0].ext_spec())), list.skip(1), u);
    }
}

/// Core of the geometric pass: resolves one body against every entity
/// in a list, in list order, correcting the body only.
#[verifier::loop_isolation(false)]
#[verifier::rlimit(80)]
fn resolve_body_against<U: HasHitbox>(body: &mut BasicCuboid, list: &Vec<U>)
    requires
        list@.len() <= 1_000,
        forall|j: int|
            0 <= j < list@.len() ==> geom_ok((#[trigger] list@[j]).pos_spec()) && abs_i(
                list@[j].ext_spec().x as int) <= EXT_LIMIT && abs_i(list@[j].ext_spec().y as int)
                <= EXT_LIMIT,
        abs_i(old(body).position.x as int) <= GEOM_LIMIT,
        abs_i(old(body).position.y as int) <= GEOM_LIMIT,
        abs_i(old(body).hitbox.0.x as int) <= EXT_LIMIT,
        abs_i(old(body).hitbox.0.y as int) <= EXT_LIMIT,
    ensures
        *final(body) == resolved_against(*old(body), list@),
        abs_i(final(body).position.x as int) <= abs_i(old(body).position.x as int) + list@.len()
            * EXT_LIMIT,
        abs_i(final(body).position.y as int) <= abs_i(old(body).position.y as int) + list@.len()
            * EXT_LIMIT,
        abs_i(final(body).physics.velocity.x as int) <= abs_i(old(body).physics.velocity.x as int),
        abs_i(final(body).physics.velocity.y as int) <= abs_i(old(body).physics.velocity.y as int),
        final(body).physics.acceleration == old(body).physics.acceleration,
        final(body).physics.drag == old(body).physics.drag,
        final(body).health == old(body).health,
        final(body).time_since_hurt == old(body).time_since_hurt,
        final(body).hitbox == old(body).hitbox,
        final(body).walk_acceleration == old(body).walk_acceleration,
        final(body).id == old(body).id,
        final(body).mesh == old(body).mesh,
        final(body).color == old(body).color,
{
    let n = list.len();
    let mut i: usize = 0;
    while i < n
        invariant
            0 <= i <= n,
            *body == resolved_against(*old(body), list@.take(i as int)),
            abs_i(body.position.x as int) <= abs_i(old(body).position.x as int) + i * EXT_LIMIT,
            abs_i(body.position.y as int) <= abs_i(old(body).position.y as int) + i * EXT_LIMIT,
            abs_i(body.physics.velocity.x as int) <= abs_i(old(body).physics.velocity.x as int),
            abs_i(body.physics.velocity.y as int) <= abs_i(old(body).physics.velocity.y as int),
            body.physics.acceleration == old(body).physics.acceleration,
            body.physics.drag == old(body).physics.drag,
            body.health == old(body).health,
            body.time_since_hurt == old(body).time_since_hurt,
            body.hitbox == old(body).hitbox,
            body.walk_acceleration == old(body).walk_acceleration,
            body.id == old(body).id,
            body.mesh == old(body).mesh,
            body.color == old(body).color,
        decreases n - i,
    {
        proof {
            assert((i as int) * EXT_LIMIT <= 1_000 * EXT_LIMIT) by (nonlinear_arith)
                requires
                    0 <= i <= 1_000,
            ;
        }
        let pen = find_penetration(body, &list[i]);
        proof {
            lemma_penetration_bound(body.position, body.hitbox.0, list@[i as int].pos_spec(),
                list@[i as int].ext_spec(), EXT_LIMIT as int);
            assert(list@.take(i as int).push(list@[i as int]) =~= list@.take(i as int + 1));
            lemma_resolved_against_snoc(*old(body), list@.take(i as int), list@[i as int]);
            assert((i as int) * EXT_LIMIT + EXT_LIMIT == ((i as int) + 1) * EXT_LIMIT)
                by (nonlinear_arith);
        }
        let collision = Collision::new(pen);
        body.recieve_collision(collision);
        i = i + 1;
    }
    proof {
        assert(list@.take(n as int) =~= list@);
    }
}

/// Resolves one object against every entity in a list, correcting only
/// the object (mover-vs-static pass for the player).
pub fn object_vec_physics<U: HasHitbox>(object_1: &mut Player, list: &Vec<U>)
    requires
        list@.len() <= 1_000,
        forall|j: int|
            0 <= j < list@.len() ==> geom_ok((#[trigger] list@[j]).pos_spec()) && abs_i(
                list@[j].ext_spec().x as int) <= EXT_LIMIT && abs_i(list@[j].ext_spec().y as int)
                <= EXT_LIMIT,
        abs_i(old(object_1).implementation.position.x as int) <= GEOM_LIMIT,
        abs_i(old(object_1).implementation.position.y as int) <= GEOM_LIMIT,
        abs_i(old(object_1).implementation.hitbox.0.x as int) <= EXT_LIMIT,
        abs_i(old(object_1).implementation.hitbox.0.y as int) <= EXT_LIMIT,
    ensures
        *final(object_1) == (Player {
            implementation: resolved_against(old(object_1).implementation, list@),
            ..*old(object_1)
        }),
        abs_i(final(object_1).implementation.position.x as int) <= abs_i(
            old(object_1).implementation.position.x as int) + list@.len() * EXT_LIMIT,
        abs_i(final(object_1).implementation.position.y as int) <= abs_i(
            old(object_1).implementation.position.y as int) + list@.len() * EXT_LIMIT,
        abs_i(final(object_1).implementation.physics.velocity.x as int) <= abs_i(
            old(object_1).implementation.physics.velocity.x as int),
        abs_i(final(object_1).implementation.physics.velocity.y as int) <= abs_i(
            old(object_1).implementation.physics.velocity.y as int),
        final(object_1).implementation.health == old(object_1).implementation.health,
        final(object_1).implementation.hitbox == old(object_1).implementation.hitbox,
{
    resolve_body_against(&mut object_1.implementation, list);
}

/// Resolves every mob against every entity in the second list, in
/// order, correcting the mobs only (mob-vs-static pass).
#[verifier::loop_isolation(false)]
#[verifier::rlimit(80)]
pub fn vec_vec_physics<U: HasHitbox>(objects_1: &mut Vec<Dummy>, objects_2: &Vec<U>)
    requires
        objects_2@.len() <= 1_000,
        forall|j: int|
            0 <= j < objects_2@.len() ==> geom_ok((#[trigger] objects_2@[j]).pos_spec()) && abs_i(
                objects_2@[j].ext_spec().x as int) <= EXT_LIMIT && abs_i(
                objects_2@[j].ext_spec().y as int) <= EXT_LIMIT,
        forall|k: int|
            0 <= k < old(objects_1)@.len() ==> abs_i(
                (#[trigger] old(objects_1)@[k]).implementation.position.x as int) <= GEOM_LIMIT
                && abs_i(old(objects_1)@[k].implementation.position.y as int) <= GEOM_LIMIT
                && abs_i(old(objects_1)@[k].implementation.hitbox.0.x as int) <= EXT_LIMIT
                && abs_i(old(objects_1)@[k].implementation.hitbox.0.y as int) <= EXT_LIMIT,
    ensures
        final(objects_1)@.len() == old(objects_1)@.len(),
        forall|k: int|
            0 <= k < old(objects_1)@.len() ==> final(objects_1)@[k] == (Dummy {
                implementation: resolved_against((#[trigger] old(objects_1)@[k]).implementation,
                    objects_2@),
                ..old(objects_1)@[k]
            }),
        forall|k: int|
            0 <= k < old(objects_1)@.len() ==> abs_i(
                (#[trigger] final(objects_1)@[k]).implementation.position.x as int) <= abs_i(
                old(objects_1)@[k].implementation.position.x as int) + objects_2@.len()
                * EXT_LIMIT && abs_i(final(objects_1)@[k].implementation.position.y as int)
                <= abs_i(old(objects_1)@[k].implementation.position.y as int) + objects_2@.len()
                * EXT_LIMIT && abs_i(
                final(objects_1)@[k].implementation.physics.velocity.x as int) <= abs_i(
                old(objects_1)@[k].implementation.physics.velocity.x as int) && abs_i(
                final(objects_1)@[k].implementation.physics.velocity.y as int) <= abs_i(
                old(objects_1)@[k].implementation.physics.velocity.y as int) && final(
                objects_1)@[k].implementation.health == old(objects_1)@[k].implementation.health
                && final(objects_1)@[k].implementation.hitbox
                == old(objects_1)@[k].implementation.hitbox,
{
    let n1 = objects_1.len();
    let mut k: usize = 0;
    while k < n1
        invariant
            0 <= k <= n1,
            objects_1@.len() == n1,
            forall|j: int| k <= j < n1 ==> objects_1@[j] == old(objects_1)@[j],
            forall|j: int|
                0 <= j < k ==> objects_1@[j] == (Dummy {
                    implementation: resolved_against(
                        (#[trigger] old(objects_1)@[j]).implementation, objects_2@),
                    ..old(objects_1)@[j]
                }),
            forall|j: int|
                0 <= j < k ==> abs_i((#[trigger] objects_1@[j]).implementation.position.x as int)
                    <= abs_i(old(objects_1)@[j].implementation.position.x as int)
                    + objects_2@.len() * EXT_LIMIT && abs_i(
                    objects_1@[j].implementation.position.y as int) <= abs_i(
                    old(objects_1)@[j].implementation.position.y as int) + objects_2@.len()
                    * EXT_LIMIT && abs_i(objects_1@[j].implementation.physics.velocity.x as int)
                    <= abs_i(old(objects_1)@[j].implementation.physics.velocity.x as int) && abs_i(
                    objects_1@[j].implementation.physics.velocity.y as int) <= abs_i(
                    old(objects_1)@[j].implementation.physics.velocity.y as int) && objects_1@[
                    j].implementation.health == old(objects_1)@[j].implementation.health
                    && objects_1@[j].implementation.hitbox
                    == old(objects_1)@[j].implementation.hitbox,
        decreases n1 - k,
    {
        let m = vec_index_mut_dummy(objects_1, k);
        resolve_body_against(&mut m.implementation, objects_2);
        k = k + 1;
    }
}

/// Swaps in a mutable view of one mob.
fn vec_index_mut_dummy(v: &mut Vec<Dummy>, i: usize) -> (element: &mut Dummy)
    requires
        i < old(v)@.len(),
    ensures
        *element == old(v)@[i as int],
        final(v)@ == old(v)@.update(i as int, *final(element)),
{
    &mut v[i]
}


/// One row of the all-pairs sweep: a body resolved, in index order,
/// against every mob in the list but the one at `x` (itself).
pub open spec fn row_resolved(c: BasicCuboid, mobs: Seq<Dummy>, x: int, y: int) -> BasicCuboid
    decreases mobs.len() - y,
{
    if y < 0 || y >= mobs.len() {
        c
    } else if y == x {
        row_resolved(c, mobs, x, y + 1)
    } else {
        row_resolved(after_collision(c, penetration(c.position, c.hitbox.0,
            mobs[y].implementation.position, mobs[y].implementation.hitbox.0)), mobs, x, y + 1)
    }
}

/// The all-pairs sweep from row `x` on: each row corrects one mob
/// against the then-current boxes of all the others.
pub open spec fn self_swept(mobs: Seq<Dummy>, x: int) -> Seq<Dummy>
    decreases mobs.len() - x,
{
    if x < 0 || x >= mobs.len() {
        mobs
    } else {
        self_swept(mobs.update(x, Dummy {
            implementation: row_resolved(mobs[x].implementation, mobs, x, 0),
            ..mobs[x]
        }), x + 1)
    }
}

/// Resolves every mob against every other, in index order, correcting
/// one mob per row (the all-pairs mover-vs-mover pass).
#[verifier::loop_isolation(false)]
#[verifier::rlimit(80)]
pub fn vec_physics(list: &mut Vec<Dummy>)
    requires
        old(list)@.len() <= 1_000,
        forall|k: int|
            0 <= k < old(list)@.len() ==> abs_i(
                (#[trigger] old(list)@[k]).implementation.position.x as int) <= GEOM_LIMIT
                && abs_i(old(list)@[k].implementation.position.y as int) <= GEOM_LIMIT
                && abs_i(old(list)@[k].implementation.hitbox.0.x as int) <= EXT_LIMIT
                && abs_i(old(list)@[k].implementation.hitbox.0.y as int) <= EXT_LIMIT,
    ensures
        final(list)@.len() == old(list)@.len(),
        final(list)@ == self_swept(old(list)@, 0),
        forall|k: int|
            0 <= k < old(list)@.len() ==> abs_i(
                (#[trigger] final(list)@[k]).implementation.position.x as int) <= abs_i(
                old(list)@[k].implementation.position.x as int) + old(list)@.len() * EXT_LIMIT
                && abs_i(final(list)@[k].implementation.position.y as int) <= abs_i(
                old(list)@[k].implementation.position.y as int) + old(list)@.len() * EXT_LIMIT
                && abs_i(
                final(list)@[k].implementation.physics.velocity.x as int) <= abs_i(
                old(list)@[k].implementation.physics.velocity.x as int) && abs_i(
                final(list)@[k].implementation.physics.velocity.y as int) <= abs_i(
                old(list)@[k].implementation.physics.velocity.y as int) && final(
                list)@[k].implementation.health == old(list)@[k].implementation.health && final(
                list)@[k].implementation.hitbox == old(list)@[k].implementation.hitbox,
{
    let n = list.len();
    let mut x: usize = 0;
    while x < n
        invariant
            0 <= x <= n,
            list@.len() == n,
            self_swept(old(list)@, 0) == self_swept(list@, x as int),
            forall|j: int| x <= j < n ==> list@[j] == old(list)@[j],
            forall|j: int|
                0 <= j < x ==> abs_i((#[trigger] list@[j]).implementation.position.x as int)
                    <= abs_i(old(list)@[j].implementation.position.x as int) + n * EXT_LIMIT
                    && abs_i(list@[j].implementation.position.y as int) <= abs_i(
                    old(list)@[j].implementation.position.y as int) + n * EXT_LIMIT && abs_i(
                    list@[j].implementation.physics.velocity.x as int) <= abs_i(
                    old(list)@[j].implementation.physics.velocity.x as int) && abs_i(
                    list@[j].implementation.physics.velocity.y as int) <= abs_i(
                    old(list)@[j].implementation.physics.velocity.y as int) && list@[
                    j].implementation.health == old(list)@[j].implementation.health && list@[
                    j].implementation.hitbox == old(list)@[j].implementation.hitbox,
        decreases n - x,
    {
        let ghost list_cur = list@;
        let mut body: BasicCuboid = list[x].implementation;
        let ghost body0 = body;
        let mut y: usize = 0;
        while y < n
            invariant
                0 <= y <= n,
                row_resolved(body0, list_cur, x as int, 0) == row_resolved(body, list_cur,
                    x as int, y as int),
                abs_i(body.position.x as int) <= abs_i(body0.position.x as int) + y * EXT_LIMIT,
                abs_i(body.position.y as int) <= abs_i(body0.position.y as int) + y * EXT_LIMIT,
                abs_i(body.physics.velocity.x as int) <= abs_i(body0.physics.velocity.x as int),
                abs_i(body.physics.velocity.y as int) <= abs_i(body0.physics.velocity.y as int),
                body.physics.acceleration == body0.physics.acceleration,
                body.physics.drag == body0.physics.drag,
                body.health == body0.health,
                body.time_since_hurt == body0.time_since_hurt,
                body.hitbox == body0.hitbox,
                body.walk_acceleration == body0.walk_acceleration,
                body.id == body0.id,
                body.mesh == body0.mesh,
                body.color == body0.color,
            decreases n - y,
        {
            proof {
                assert((y as int) * EXT_LIMIT <= 1_000 * EXT_LIMIT) by (nonlinear_arith)
                    requires
                        0 <= y <= 1_000,
                ;
            }
            if y != x {
                let pen = find_penetration(&body, &list[y]);
                proof {
                    lemma_penetration_bound(body.position, body.hitbox.0,
                        list@[y as int].implementation.position,
                        list@[y as int].implementation.hitbox.0, EXT_LIMIT as int);
                    assert((y as int) * EXT_LIMIT + EXT_LIMIT == ((y as int) + 1) * EXT_LIMIT)
                        by (nonlinear_arith);
                }
                let collision = Collision::new(pen);
                body.recieve_collision(collision);
            }
            y = y + 1;
        }
        let m = vec_index_mut_dummy(list, x);
        m.implementation = body;
        x = x + 1;
    }
}

} // verus!
