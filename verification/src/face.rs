//! The six faces of a unit cube, each a quad of four vertices.

use vstd::prelude::*;
use crate::pos::BlockPos;
use crate::texture::{Uv, UvCorner, UvTexture};

verus! {

/// One corner of an emitted quad: a lattice point and the texture corner
/// that it samples.
#[derive(Clone, Copy, Debug, PartialEq, Eq, Hash, Structural)]
pub struct Vertex {
    pub position: BlockPos,
    pub uv: Uv,
}

/// One textured face of one block: what the mesher emits for a shown face.
#[derive(Clone, Copy, Debug, PartialEq, Eq, Hash, Structural)]
pub struct Quad {
    pub texture: UvTexture,
    pub face: Face,
    pub pos: BlockPos,
}

impl Quad {
    /// The four vertices of the quad, in the order of its face.
    pub open spec fn vertices(self) -> Seq<Vertex> {
        self.face.quad(self.pos, self.texture)
    }
}

/// A face of the unit cube, named by the axis it looks along.
#[derive(Clone, Copy, Debug, PartialEq, Eq, Hash, Structural)]
pub enum Face {
    /// Looks along +Y.
    Top,
    /// Looks along -Y.
    Bottom,
    /// Looks along +X.
    Px,
    /// Looks along -X.
    Nx,
    /// Looks along +Z.
    Pz,
    /// Looks along -Z.
    Nz,
}

impl Face {
    /// Where the four corners of the face lie, as offsets from the low corner
    /// of the block, in the order in which they are emitted.
    pub open spec fn offsets(self) -> Seq<(int, int, int)> {
        match self {
            Face::Top => seq![(0, 1, 0), (1, 1, 0), (1, 1, 1), (0, 1, 1)],
            Face::Bottom => seq![(0, 0, 0), (1, 0, 0), (1, 0, 1), (0, 0, 1)],
            Face::Px => seq![(1, 0, 0), (1, 0, 1), (1, 1, 1), (1, 1, 0)],
            Face::Nx => seq![(0, 0, 0), (0, 0, 1), (0, 1, 1), (0, 1, 0)],
            Face::Pz => seq![(0, 0, 1), (1, 0, 1), (1, 1, 1), (0, 1, 1)],
            Face::Nz => seq![(0, 0, 0), (1, 0, 0), (1, 1, 0), (0, 1, 0)],
        }
    }

    /// Which texture corner each of the four corners samples.
    ///
    /// The last corner of `Top` and of `Bottom` samples `LowRight` a second
    /// time; the side faces go once round the region.
    pub open spec fn corners(self) -> Seq<UvCorner> {
        match self {
            Face::Top | Face::Bottom => seq![
                UvCorner::LowLeft,
                UvCorner::LowRight,
                UvCorner::UpRight,
                UvCorner::LowRight,
            ],
            Face::Px => seq![
                UvCorner::LowLeft,
                UvCorner::LowRight,
                UvCorner::UpRight,
                UvCorner::UpLeft,
            ],
            Face::Nx | Face::Pz | Face::Nz => seq![
                UvCorner::LowRight,
                UvCorner::LowLeft,
                UvCorner::UpLeft,
                UvCorner::UpRight,
            ],
        }
    }

    /// Corner `k` of the face of the block at `pos`, textured with `texture`.
    pub open spec fn corner(self, pos: BlockPos, texture: UvTexture, k: int) -> Vertex {
        let (dx, dy, dz) = self.offsets()[k];
        Vertex {
            position: pos.shifted(dx, dy, dz),
            uv: Uv { texture, corner: self.corners()[k] },
        }
    }

    /// The quad of the face of the block at `pos`: its four corners in order.
    pub open spec fn quad(self, pos: BlockPos, texture: UvTexture) -> Seq<Vertex> {
        Seq::new(4, |k: int| self.corner(pos, texture, k))
    }

    /// The four vertices of this face of the block at `pos`.
    pub fn vertices(self, pos: BlockPos, texture: UvTexture) -> (quad: [Vertex; 4])
        requires
            pos.has_unit_cube(),
        ensures
            quad@ == self.quad(pos, texture),
    {
        match self {
            Face::Top => top_vert(pos, texture),
            Face::Bottom => bottom_vert(pos, texture),
            Face::Px => px_vert(pos, texture),
            Face::Nx => nx_vert(pos, texture),
            Face::Pz => pz_vert(pos, texture),
            Face::Nz => nz_vert(pos, texture),
        }
    }
}

/// The vertex at `(x, y, z)` that samples `uv`.
pub fn vertex(x: i64, y: i64, z: i64, uv: Uv) -> (v: Vertex)
    ensures
        v == (Vertex { position: BlockPos { x, y, z }, uv }),
{
    Vertex { position: BlockPos { x, y, z }, uv }
}

/// The +Y face of the block at `pos`.
pub fn top_vert(pos: BlockPos, texture: UvTexture) -> (quad: [Vertex; 4])
    requires
        pos.has_unit_cube(),
    ensures
        quad@ == Face::Top.quad(pos, texture),
{
    let BlockPos { x, y, z } = pos;
    let quad = [
        vertex(x, y + 1, z, texture.low_left()),
        vertex(x + 1, y + 1, z, texture.low_right()),
        vertex(x + 1, y + 1, z + 1, texture.up_right()),
        vertex(x, y + 1, z + 1, texture.low_right()),
    ];
    assert(quad@ =~= Face::Top.quad(pos, texture));
    quad
}

/// The -Y face of the block at `pos`.
pub fn bottom_vert(pos: BlockPos, texture: UvTexture) -> (quad: [Vertex; 4])
    requires
        pos.has_unit_cube(),
    ensures
        quad@ == Face::Bottom.quad(pos, texture),
{
    let BlockPos { x, y, z } = pos;
    let quad = [
        vertex(x, y, z, texture.low_left()),
        vertex(x + 1, y, z, texture.low_right()),
        vertex(x + 1, y, z + 1, texture.up_right()),
        vertex(x, y, z + 1, texture.low_right()),
    ];
    assert(quad@ =~= Face::Bottom.quad(pos, texture));
    quad
}

/// The +X face of the block at `pos`.
pub fn px_vert(pos: BlockPos, texture: UvTexture) -> (quad: [Vertex; 4])
    requires
        pos.has_unit_cube(),
    ensures
        quad@ == Face::Px.quad(pos, texture),
{
    let BlockPos { x, y, z } = pos;
    let quad = [
        vertex(x + 1, y, z, texture.low_left()),
        vertex(x + 1, y, z + 1, texture.low_right()),
        vertex(x + 1, y + 1, z + 1, texture.up_right()),
        vertex(x + 1, y + 1, z, texture.up_left()),
    ];
    assert(quad@ =~= Face::Px.quad(pos, texture));
    quad
}

/// The -X face of the block at `pos`.
pub fn nx_vert(pos: BlockPos, texture: UvTexture) -> (quad: [Vertex; 4])
    requires
        pos.has_unit_cube(),
    ensures
        quad@ == Face::Nx.quad(pos, texture),
{
    let BlockPos { x, y, z } = pos;
    let quad = [
        vertex(x, y, z, texture.low_right()),
        vertex(x, y, z + 1, texture.low_left()),
        vertex(x, y + 1, z + 1, texture.up_left()),
        vertex(x, y + 1, z, texture.up_right()),
    ];
    assert(quad@ =~= Face::Nx.quad(pos, texture));
    quad
}

/// The +Z face of the block at `pos`.
pub fn pz_vert(pos: BlockPos, texture: UvTexture) -> (quad: [Vertex; 4])
    requires
        pos.has_unit_cube(),
    ensures
        quad@ == Face::Pz.quad(pos, texture),
{
    let BlockPos { x, y, z } = pos;
    let quad = [
        vertex(x, y, z + 1, texture.low_right()),
        vertex(x + 1, y, z + 1, texture.low_left()),
        vertex(x + 1, y + 1, z + 1, texture.up_left()),
        vertex(x, y + 1, z + 1, texture.up_right()),
    ];
    assert(quad@ =~= Face::Pz.quad(pos, texture));
    quad
}

/// The -Z face of the block at `pos`.
pub fn nz_vert(pos: BlockPos, texture: UvTexture) -> (quad: [Vertex; 4])
    requires
        pos.has_unit_cube(),
    ensures
        quad@ == Face::Nz.quad(pos, texture),
{
    let BlockPos { x, y, z } = pos;
    let quad = [
        vertex(x, y, z, texture.low_right()),
        vertex(x + 1, y, z, texture.low_left()),
        vertex(x + 1, y + 1, z, texture.up_left()),
        vertex(x, y + 1, z, texture.up_right()),
    ];
    assert(quad@ =~= Face::Nz.quad(pos, texture));
    quad
}

/// The axis that a face looks along: 0 for `x`, 1 for `y`, 2 for `z`.
pub open spec fn axis(face: Face) -> int {
    match face {
        Face::Px | Face::Nx => 0,
        Face::Top | Face::Bottom => 1,
        Face::Pz | Face::Nz => 2,
    }
}

/// Coordinate number `axis` of `pos`.
pub open spec fn coordinate(pos: BlockPos, axis: int) -> int {
    if axis == 0 {
        pos.x as int
    } else if axis == 1 {
        pos.y as int
    } else {
        pos.z as int
    }
}

/// How many lattice steps lie between `p` and `q`, summed over the axes.
pub open spec fn steps_between(p: BlockPos, q: BlockPos) -> int {
    (if p.x <= q.x { q.x - p.x } else { p.x - q.x })
        + (if p.y <= q.y { q.y - p.y } else { p.y - q.y })
        + (if p.z <= q.z { q.z - p.z } else { p.z - q.z })
}

/// Every quad is a unit square on the lattice: its corners are corners of
/// the block's unit cube, they lie in one plane across the axis of the face,
/// and from each corner to the next, the last to the first, is one step
/// along one axis.
pub proof fn lemma_quad_is_unit_square(face: Face, pos: BlockPos, texture: UvTexture)
    requires
        pos.has_unit_cube(),
    ensures
        face.quad(pos, texture).len() == 4,
        forall|k: int|
            0 <= k < 4 ==> {
                let p = (#[trigger] face.quad(pos, texture)[k]).position;
                &&& pos.x <= p.x <= pos.x + 1
                &&& pos.y <= p.y <= pos.y + 1
                &&& pos.z <= p.z <= pos.z + 1
                &&& coordinate(p, axis(face)) == coordinate(
                    face.quad(pos, texture)[0].position,
                    axis(face),
                )
            },
        forall|k: int|
            0 <= k < 4 ==> {
                let p = (#[trigger] face.quad(pos, texture)[k]).position;
                let q = face.quad(pos, texture)[if k == 3 { 0 } else { k + 1 }].position;
                steps_between(p, q) == 1
            },
        forall|k: int| 0 <= k < 4 ==> (#[trigger] face.quad(pos, texture)[k]).uv.texture == texture,
{
    let quad = face.quad(pos, texture);
    assert(quad[0] == face.corner(pos, texture, 0));
    assert(quad[1] == face.corner(pos, texture, 1));
    assert(quad[2] == face.corner(pos, texture, 2));
    assert(quad[3] == face.corner(pos, texture, 3));
}

} // verus!
