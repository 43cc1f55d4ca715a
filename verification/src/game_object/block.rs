//! Static obstacles: a fixed box with a position, a hitbox and a
//! drawable, never moved or damaged.

use crate::assets::{DrawableAsset, Rgba};
use crate::math::Vec2;
use super::collision::Hitbox;
use super::{HasHitbox, Object, ObjectID, Renderable};
use vstd::prelude::*;

verus! {

/// Side of a square block, in milliunits (20 world units).
pub const BLOCK_SIZE: i64 = 20_000;

/// Long side of a wall, in milliunits (400 world units).
pub const WALL_LENGTH: i64 = 400_000;

/// A static obstacle.
pub struct Block {
    pub mesh: DrawableAsset,
    pub position: Vec2,
    pub hitbox: Hitbox,
}

impl Block {
    /// A square block anchored at the given position.
    pub fn new(x: i64, y: i64) -> (r: Block)
        ensures
            r.mesh == DrawableAsset::Block,
            r.position == (Vec2 { x, y }),
            r.hitbox.0 == (Vec2 { x: BLOCK_SIZE, y: BLOCK_SIZE }),
    {
        Block {
            mesh: DrawableAsset::Block,
            position: Vec2 { x, y },
            hitbox: Hitbox::new(Vec2 { x: BLOCK_SIZE, y: BLOCK_SIZE }),
        }
    }

    /// A horizontal wall anchored at the given position.
    pub fn wallh(x: i64, y: i64) -> (r: Block)
        ensures
            r.mesh == DrawableAsset::Wallh,
            r.position == (Vec2 { x, y }),
            r.hitbox.0 == (Vec2 { x: WALL_LENGTH, y: BLOCK_SIZE }),
    {
        Block {
            mesh: DrawableAsset::Wallh,
            position: Vec2 { x, y },
            hitbox: Hitbox::new(Vec2 { x: WALL_LENGTH, y: BLOCK_SIZE }),
        }
    }

    /// A vertical wall anchored at the given position.
    pub fn wallv(x: i64, y: i64) -> (r: Block)
        ensures
            r.mesh == DrawableAsset::Wallv,
            r.position == (Vec2 { x, y }),
            r.hitbox.0 == (Vec2 { x: BLOCK_SIZE, y: WALL_LENGTH }),
    {
        Block {
            mesh: DrawableAsset::Wallv,
            position: Vec2 { x, y },
            hitbox: Hitbox::new(Vec2 { x: BLOCK_SIZE, y: WALL_LENGTH }),
        }
    }

}

impl super::Renderable for Block {
    open spec fn asset_spec(&self) -> DrawableAsset {
        self.mesh
    }

    open spec fn color_spec(&self) -> Option<Rgba> {
        Some(Rgba { r: 77, g: 179, b: 77, a: 179 })
    }

    fn get_drawable_asset(&self) -> (r: DrawableAsset) {
        self.mesh
    }

    fn get_color(&self) -> (r: Option<Rgba>) {
        Some(Rgba::new(77, 179, 77, 179))
    }
}

impl Object for Block {
    open spec fn pos_spec(&self) -> Vec2 {
        self.position
    }

    open spec fn id_spec(&self) -> ObjectID {
        ObjectID { value: 0 }
    }

    fn get_position(&self) -> (r: Vec2) {
        self.position
    }

    fn get_id(&self) -> (r: ObjectID) {
        ObjectID::new(0)
    }
}

impl HasHitbox for Block {
    open spec fn ext_spec(&self) -> Vec2 {
        self.hitbox.0
    }

    fn get_hitbox(&self) -> (r: &Hitbox) {
        &self.hitbox
    }
}

} // verus!
