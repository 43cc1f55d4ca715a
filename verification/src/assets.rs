//! Render-facing data the simulation exposes: which drawable a live
//! entity asks for, and an optional colour tint. Mesh construction and
//! draw calls belong to the rendering collaborator, not to this crate.

use vstd::prelude::*;

verus! {

/// Tag naming the drawable a renderable entity requests; the asset
/// collaborator maps it to an actual mesh.
#[derive(Clone, Copy, Debug, PartialEq, Eq, Structural)]
pub enum DrawableAsset {
    Player,
    Block,
    Bullet,
    Wallh,
    Wallv,
}

/// An RGBA colour tint with 8-bit channels.
#[derive(Clone, Copy, Debug, PartialEq, Eq, Structural)]
pub struct Rgba {
    pub r: u8,
    pub g: u8,
    pub b: u8,
    pub a: u8,
}

impl Rgba {
    /// Builds a colour from its four channels.
    pub fn new(r: u8, g: u8, b: u8, a: u8) -> (c: Rgba)
        ensures
            c == (Rgba { r, g, b, a }),
    {
        Rgba { r, g, b, a }
    }
}

} // verus!
