//! Per-entity linear motion state stepped once per fixed tick: velocity,
//! externally applied acceleration, and a linear drag that opposes the
//! current velocity.

use crate::math::{abs_i, div_trunc_wide, lemma_mul_bound, lemma_tdiv_bound, tdiv, Vec2, SCALE_LIMIT};
use vstd::prelude::*;

verus! {

/// Linear drag: an opposing pseudo-acceleration proportional to the
/// current velocity, recomputed from it every tick.
#[derive(Clone, Copy)]
pub struct Drag {
    pub drag_constant: i64,
    pub acceleration: Vec2,
}

impl Drag {
    /// A drag of the given constant, with no acceleration computed yet.
    pub fn new(drag_constant: i64) -> (r: Drag)
        ensures
            r.drag_constant == drag_constant,
            r.acceleration == (Vec2 { x: 0, y: 0 }),
    {
        Drag { drag_constant, acceleration: Vec2 { x: 0, y: 0 } }
    }

    /// The drag constant.
    pub fn get_drag_constant(&self) -> (r: i64)
        ensures
            r == self.drag_constant,
    {
        self.drag_constant
    }

    /// View of the drag constant.
    pub open spec fn drag_constant_spec(&self) -> i64 {
        self.drag_constant
    }
}

/// The drag pseudo-acceleration recomputed each tick from the current
/// velocity: `-c * v`, opposing the motion.
pub open spec fn drag_accel(v: Vec2, c: int) -> Vec2 {
    Vec2 { x: (0 - c * v.x) as i64, y: (0 - c * v.y) as i64 }
}

/// One axis of the per-tick velocity update: the applied acceleration
/// and the drag pseudo-acceleration `-c * v`, integrated over one tick
/// of 1/60 s with truncation toward zero.
pub open spec fn vel_step(v: int, a: int, c: int) -> int {
    v + tdiv(a - c * v, crate::TICKS_PER_SECOND as int)
}

/// Linear motion state: velocity, externally applied acceleration, and
/// drag. Owned by exactly one entity and stepped once per tick.
#[derive(Clone, Copy)]
pub struct ActorPhysics {
    pub velocity: Vec2,
    pub acceleration: Vec2,
    pub drag: Drag,
}

impl ActorPhysics {
    /// The integrator is stable only while `drag_constant * dt <= 1`,
    /// that is while the constant is at most one tick's worth of decay;
    /// beyond it even the original formula flips the velocity's sign.
    pub open spec fn wf(&self) -> bool {
        0 <= self.drag.drag_constant <= crate::TICKS_PER_SECOND
    }

    /// Motion state at rest with the given drag constant.
    pub fn new(drag_constant: i64) -> (r: ActorPhysics)
        requires
            0 <= drag_constant <= crate::TICKS_PER_SECOND,
        ensures
            r.velocity == (Vec2 { x: 0, y: 0 }),
            r.acceleration == (Vec2 { x: 0, y: 0 }),
            r.drag.drag_constant == drag_constant,
            r.drag.acceleration == (Vec2 { x: 0, y: 0 }),
            r.wf(),
    {
        ActorPhysics {
            velocity: Vec2 { x: 0, y: 0 },
            acceleration: Vec2 { x: 0, y: 0 },
            drag: Drag::new(drag_constant),
        }
    }

    /// Reads the current velocity.
    pub fn get_velocity(&self) -> (r: Vec2)
        ensures
            r == self.velocity,
    {
        self.velocity
    }

    /// Replaces the applied acceleration; repeated calls do not
    /// accumulate.
    pub fn set_acceleration(&mut self, accel: Vec2)
        ensures
            *final(self) == (ActorPhysics { acceleration: accel, ..*old(self) }),
    {
        self.acceleration = accel;
    }

    /// Replaces the velocity.
    pub fn set_velocity(&mut self, vel: Vec2)
        ensures
            *final(self) == (ActorPhysics { velocity: vel, ..*old(self) }),
    {
        self.velocity = vel;
    }

    /// Adds directly to the velocity; impulses within one tick
    /// accumulate.
    pub fn add_impulse(&mut self, impulse: Vec2)
        requires
            i64::MIN <= old(self).velocity.x + impulse.x <= i64::MAX,
            i64::MIN <= old(self).velocity.y + impulse.y <= i64::MAX,
        ensures
            final(self).velocity.x == old(self).velocity.x + impulse.x,
            final(self).velocity.y == old(self).velocity.y + impulse.y,
            final(self).acceleration == old(self).acceleration,
            final(self).drag == old(self).drag,
    {
        self.velocity = Vec2 {
            x: self.velocity.x + impulse.x,
            y: self.velocity.y + impulse.y,
        };
    }

    /// Advances the velocity by one tick: recomputes the drag
    /// pseudo-acceleration from the current velocity, then integrates
    /// `velocity += (acceleration + drag_acceleration) * dt`.
    pub fn step(&mut self)
        requires
            old(self).wf(),
            abs_i(old(self).velocity.x as int) <= SCALE_LIMIT,
            abs_i(old(self).velocity.y as int) <= SCALE_LIMIT,
            abs_i(old(self).acceleration.x as int) <= SCALE_LIMIT,
            abs_i(old(self).acceleration.y as int) <= SCALE_LIMIT,
        ensures
            final(self).velocity.x == vel_step(old(self).velocity.x as int,
                old(self).acceleration.x as int, old(self).drag.drag_constant as int),
            final(self).velocity.y == vel_step(old(self).velocity.y as int,
                old(self).acceleration.y as int, old(self).drag.drag_constant as int),
            final(self).acceleration == old(self).acceleration,
            final(self).drag.drag_constant == old(self).drag.drag_constant,
            final(self).drag.acceleration == drag_accel(old(self).velocity,
                old(self).drag.drag_constant as int),
            abs_i(final(self).velocity.x as int) <= 2 * abs_i(old(self).velocity.x as int)
                + abs_i(old(self).acceleration.x as int),
            abs_i(final(self).velocity.y as int) <= 2 * abs_i(old(self).velocity.y as int)
                + abs_i(old(self).acceleration.y as int),
            final(self).wf(),
    {
        let c: i64 = self.drag.get_drag_constant();
        proof {
            lemma_mul_bound(c as int, self.velocity.x as int, 60, SCALE_LIMIT as int);
            lemma_mul_bound(c as int, self.velocity.y as int, 60, SCALE_LIMIT as int);
            assert(abs_i((c as int) * (self.velocity.x as int)) <= 60 * (SCALE_LIMIT as int));
            assert(abs_i((c as int) * (self.velocity.y as int)) <= 60 * (SCALE_LIMIT as int));
        }
        let cx: i128 = (c as i128) * (self.velocity.x as i128);
        let cy: i128 = (c as i128) * (self.velocity.y as i128);
        let dax: i128 = -cx;
        let day: i128 = -cy;
        self.drag.acceleration = Vec2 { x: dax as i64, y: day as i64 };
        proof {
            lemma_tdiv_bound(self.acceleration.x + dax, 60);
            lemma_tdiv_bound(self.acceleration.y + day, 60);
            lemma_mul_bound(c as int, self.velocity.x as int, 60, abs_i(self.velocity.x as int));
            lemma_mul_bound(c as int, self.velocity.y as int, 60, abs_i(self.velocity.y as int));
        }
        let dvx: i128 = div_trunc_wide((self.acceleration.x as i128) + dax, 60);
        let dvy: i128 = div_trunc_wide((self.acceleration.y as i128) + day, 60);
        let vx: i128 = (self.velocity.x as i128) + dvx;
        let vy: i128 = (self.velocity.y as i128) + dvy;
        self.velocity = Vec2 { x: vx as i64, y: vy as i64 };
    }
}

/// Drag decay: with no applied acceleration and a drag constant inside
/// the stable range, one velocity step never raises the speed on an
/// axis and never flips its sign; once the decrement `c * |v|` reaches
/// a full tick's worth it strictly shrinks the speed.
pub proof fn lemma_drag_decay(v: int, c: int)
    requires
        0 < c <= crate::TICKS_PER_SECOND as int,
    ensures
        abs_i(vel_step(v, 0, c)) <= abs_i(v),
        v * vel_step(v, 0, c) >= 0,
        c * abs_i(v) >= crate::TICKS_PER_SECOND as int ==> abs_i(vel_step(v, 0, c)) < abs_i(v),
{
    if v >= 0 {
        let p = c * v;
        assert(p >= 0 && p <= 60 * v) by (nonlinear_arith)
            requires
                v >= 0,
                0 < c <= 60,
                p == c * v,
        ;
        assert(p / 60 <= v && p / 60 >= 0) by (nonlinear_arith)
            requires
                0 <= p <= 60 * v,
        ;
        assert(c * abs_i(v) == p);
        assert(vel_step(v, 0, c) == v - p / 60);
        if p >= 60 {
            assert(p / 60 >= 1) by (nonlinear_arith)
                requires
                    p >= 60,
            ;
        }
    } else {
        let q = -(c * v);
        assert(q >= 0 && q <= 60 * (-v)) by (nonlinear_arith)
            requires
                v < 0,
                0 < c <= 60,
                q == -(c * v),
        ;
        assert(q / 60 <= -v && q / 60 >= 0) by (nonlinear_arith)
            requires
                0 <= q <= 60 * (-v),
        ;
        assert(c * abs_i(v) == q) by (nonlinear_arith)
            requires
                q == -(c * v),
                v < 0,
        ;
        assert(vel_step(v, 0, c) == v + q / 60);
        if q >= 60 {
            assert(q / 60 >= 1) by (nonlinear_arith)
                requires
                    q >= 60,
            ;
        }
    }
    assert(v * vel_step(v, 0, c) >= 0) by (nonlinear_arith)
        requires
            v >= 0 ==> 0 <= vel_step(v, 0, c) <= v,
            v < 0 ==> v <= vel_step(v, 0, c) <= 0,
    ;
}

} // verus!
