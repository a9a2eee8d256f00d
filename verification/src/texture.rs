//! Textures as the mesher sees them: an identity to group faces by, and the
//! four corners of the region a face samples.

use vstd::prelude::*;
use macroquad::texture::Texture2D;

verus! {

/// A rectangular region of the shared atlas, or a texture of its own.
///
/// The mesher never reads texels. It needs to tell one texture from another,
/// which `id` does, and to name the corners of the region.
#[derive(Clone, Copy, Debug, PartialEq, Eq, Hash, Structural)]
pub struct UvTexture {
    pub id: u32,
}

/// One corner of a texture's region.
#[derive(Clone, Copy, Debug, PartialEq, Eq, Hash, Structural)]
pub enum UvCorner {
    LowLeft,
    LowRight,
    UpLeft,
    UpRight,
}

/// Texture coordinate of a vertex: a corner of a texture's region.
#[derive(Clone, Copy, Debug, PartialEq, Eq, Hash, Structural)]
pub struct Uv {
    pub texture: UvTexture,
    pub corner: UvCorner,
}

impl UvTexture {
    pub fn low_left(&self) -> (uv: Uv)
        ensures
            uv == (Uv { texture: *self, corner: UvCorner::LowLeft }),
    {
        Uv { texture: *self, corner: UvCorner::LowLeft }
    }

    pub fn low_right(&self) -> (uv: Uv)
        ensures
            uv == (Uv { texture: *self, corner: UvCorner::LowRight }),
    {
        Uv { texture: *self, corner: UvCorner::LowRight }
    }

    pub fn up_left(&self) -> (uv: Uv)
        ensures
            uv == (Uv { texture: *self, corner: UvCorner::UpLeft }),
    {
        Uv { texture: *self, corner: UvCorner::UpLeft }
    }

    pub fn up_right(&self) -> (uv: Uv)
        ensures
            uv == (Uv { texture: *self, corner: UvCorner::UpRight }),
    {
        Uv { texture: *self, corner: UvCorner::UpRight }
    }
}

/// `macroquad::texture::Texture2D`, macroquad's handle to a texture in GPU
/// memory. The mesher hands the atlas on to the meshes it makes and never
/// looks inside: nothing is claimed of what a handle holds.
#[verifier::external_type_specification]
#[verifier::external_body]
pub struct ExTexture2D(Texture2D);

/// A second handle to the same texture, made by `Texture2D::clone`.
///
/// macroquad derives `Clone` and `PartialEq` for the handle, and a clone
/// compares equal to the handle it was made from. The contract claims that
/// much: the copy denotes the texture that `texture` denotes.
#[verifier::external_body]
pub(crate) fn clone_texture(texture: &Texture2D) -> (copy: Texture2D)
    ensures
        copy == *texture,
{
    texture.clone()
}

/// A copy of the optional atlas handle.
pub fn share_atlas(atlas: &Option<Texture2D>) -> (copy: Option<Texture2D>)
    ensures
        copy == *atlas,
{
    match atlas {
        Some(texture) => Some(clone_texture(texture)),
        None => None,
    }
}

} // verus!
