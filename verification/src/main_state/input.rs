//! Buffered directional input: per-axis stacks of pressed directions,
//! so the most recent still-held key wins, plus the fire signal.

use crate::math::Vec2;
use vstd::prelude::*;

verus! {

/// Magnitude of one direction input along an axis, in milliunits: the
/// unit direction scale handed to `set_movement` and the aim.
pub const DIRECTION_UNIT: i64 = 1_000;

/// A pressed direction along one axis.
#[derive(Clone, Copy, Debug, PartialEq, Eq, Structural)]
pub enum DirectionInputScalar {
    Positive,
    Negative,
}

impl DirectionInputScalar {
    /// The signed axis value of this direction.
    pub open spec fn value_spec(&self) -> i64 {
        match *self {
            DirectionInputScalar::Positive => DIRECTION_UNIT,
            DirectionInputScalar::Negative => (-DIRECTION_UNIT) as i64,
        }
    }

    /// Reads the signed axis value of this direction.
    pub fn get_value(&self) -> (r: i64)
        ensures
            r == self.value_spec(),
    {
        match *self {
            DirectionInputScalar::Positive => DIRECTION_UNIT,
            DirectionInputScalar::Negative => -DIRECTION_UNIT,
        }
    }
}

/// One of the two planar axes.
#[derive(Clone, Copy, Debug, PartialEq, Eq, Structural)]
pub enum Axis {
    X,
    Y,
}

/// Directions currently held on each axis, in press order.
pub struct DirectionInputStack {
    pub x_input_stack: Vec<DirectionInputScalar>,
    pub y_input_stack: Vec<DirectionInputScalar>,
}

/// The direction selected by the most recent still-held press on each
/// axis; an axis with nothing held contributes zero.
pub open spec fn recent_direction(s: DirectionInputStack) -> Vec2 {
    Vec2 {
        x: if s.x_input_stack@.len() == 0 {
            0
        } else {
            s.x_input_stack@.last().value_spec()
        },
        y: if s.y_input_stack@.len() == 0 {
            0
        } else {
            s.y_input_stack@.last().value_spec()
        },
    }
}

/// The direction selected by the oldest still-held press on each axis.
pub open spec fn oldest_direction(s: DirectionInputStack) -> Vec2 {
    Vec2 {
        x: if s.x_input_stack@.len() == 0 {
            0
        } else {
            s.x_input_stack@[0].value_spec()
        },
        y: if s.y_input_stack@.len() == 0 {
            0
        } else {
            s.y_input_stack@[0].value_spec()
        },
    }
}

impl DirectionInputStack {
    /// An input stack with nothing held.
    pub fn new() -> (r: DirectionInputStack)
        ensures
            r.x_input_stack@ =~= Seq::<DirectionInputScalar>::empty(),
            r.y_input_stack@ =~= Seq::<DirectionInputScalar>::empty(),
    {
        DirectionInputStack { x_input_stack: Vec::new(), y_input_stack: Vec::new() }
    }

    /// The stack of one axis.
    pub open spec fn stack_spec(&self, axis: Axis) -> Seq<DirectionInputScalar> {
        match axis {
            Axis::X => self.x_input_stack@,
            Axis::Y => self.y_input_stack@,
        }
    }

    /// The direction chosen by the oldest still-held presses.
    pub fn get_direction_old(&self) -> (r: Vec2)
        ensures
            r == oldest_direction(*self),
    {
        let mut x: i64 = 0;
        let mut y: i64 = 0;
        if self.x_input_stack.len() > 0 {
            x = self.x_input_stack[0].get_value();
        }
        if self.y_input_stack.len() > 0 {
            y = self.y_input_stack[0].get_value();
        }
        Vec2 { x, y }
    }

    /// The direction chosen by the most recent still-held presses.
    pub fn get_direction_recent(&self) -> (r: Vec2)
        ensures
            r == recent_direction(*self),
    {
        let mut x: i64 = 0;
        let mut y: i64 = 0;
        let nx = self.x_input_stack.len();
        if nx > 0 {
            x = self.x_input_stack[nx - 1].get_value();
        }
        let ny = self.y_input_stack.len();
        if ny > 0 {
            y = self.y_input_stack[ny - 1].get_value();
        }
        Vec2 { x, y }
    }

    /// Whether anything is held on either axis.
    pub fn is_active(&self) -> (r: bool)
        ensures
            r == !(self.x_input_stack@.len() == 0 && self.y_input_stack@.len() == 0),
    {
        !(self.x_input_stack.len() == 0 && self.y_input_stack.len() == 0)
    }

    /// Releases a direction: removes every copy of it from its axis.
    pub fn deactivate_direction(&mut self, direction: DirectionInputScalar, axis: Axis)
        ensures
            final(self).stack_spec(axis) == old(self).stack_spec(axis).filter(
                |element: DirectionInputScalar| element != direction),
            final(self).stack_spec(flip(axis)) == old(self).stack_spec(flip(axis)),
    {
        let src = match axis {
            Axis::X => &self.x_input_stack,
            Axis::Y => &self.y_input_stack,
        };
        let n = src.len();
        let mut kept: Vec<DirectionInputScalar> = Vec::new();
        let mut i: usize = 0;
        while i < n
            invariant
                0 <= i <= n,
                n == src@.len(),
                src@ == old(self).stack_spec(axis),
                kept@ == src@.take(i as int).filter(
                    |element: DirectionInputScalar| element != direction),
            decreases n - i,
        {
            let e = src[i];
            proof {
                reveal(Seq::filter);
                assert(src@.take(i as int + 1).drop_last() =~= src@.take(i as int));
                assert(src@.take(i as int + 1).last() == src@[i as int]);
            }
            if !(e == direction) {
                kept.push(e);
            }
            i = i + 1;
        }
        proof {
            assert(src@.take(n as int) =~= src@);
        }
        match axis {
            Axis::X => {
                self.x_input_stack = kept;
            },
            Axis::Y => {
                self.y_input_stack = kept;
            },
        }
    }

    /// Presses a direction: pushes it on its axis unless already held.
    pub fn activate_direction(&mut self, direction: DirectionInputScalar, axis: Axis)
        ensures
            final(self).stack_spec(axis) == (if old(self).stack_spec(axis).contains(direction) {
                old(self).stack_spec(axis)
            } else {
                old(self).stack_spec(axis).push(direction)
            }),
            final(self).stack_spec(flip(axis)) == old(self).stack_spec(flip(axis)),
    {
        let held = {
            let src = match axis {
                Axis::X => &self.x_input_stack,
                Axis::Y => &self.y_input_stack,
            };
            let n = src.len();
            let mut found = false;
            let mut i: usize = 0;
            while i < n
                invariant
                    0 <= i <= n,
                    n == src@.len(),
                    src@ == old(self).stack_spec(axis),
                    found == exists|j: int| 0 <= j < i && src@[j] == direction,
                decreases n - i,
            {
                if src[i] == direction {
                    found = true;
                }
                i = i + 1;
            }
            found
        };
        if !held {
            match axis {
                Axis::X => {
                    self.x_input_stack.push(direction);
                },
                Axis::Y => {
                    self.y_input_stack.push(direction);
                },
            }
        }
    }
}

/// The chosen directions are unit-scale: each coordinate is at most
/// one direction unit in magnitude.
pub proof fn lemma_recent_direction_bounded(s: DirectionInputStack)
    ensures
        crate::math::abs_i(recent_direction(s).x as int) <= DIRECTION_UNIT,
        crate::math::abs_i(recent_direction(s).y as int) <= DIRECTION_UNIT,
{
}

/// The other axis.
pub open spec fn flip(axis: Axis) -> Axis {
    match axis {
        Axis::X => Axis::Y,
        Axis::Y => Axis::X,
    }
}

/// The player-facing input state: a movement stack and an aim stack;
/// firing is active while anything is held on the aim stack.
pub struct Input {
    pub move_stack: DirectionInputStack,
    pub shoot_stack: DirectionInputStack,
}

impl Input {
    /// Input state with nothing held.
    pub fn new() -> (r: Input)
        ensures
            r.move_stack.x_input_stack@ =~= Seq::<DirectionInputScalar>::empty(),
            r.move_stack.y_input_stack@ =~= Seq::<DirectionInputScalar>::empty(),
            r.shoot_stack.x_input_stack@ =~= Seq::<DirectionInputScalar>::empty(),
            r.shoot_stack.y_input_stack@ =~= Seq::<DirectionInputScalar>::empty(),
    {
        Input { move_stack: DirectionInputStack::new(), shoot_stack: DirectionInputStack::new() }
    }
}

} // verus!
