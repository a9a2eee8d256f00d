//! What a single block shows of itself.

use vstd::prelude::*;
use crate::face::{Face, Quad};
use crate::pos::BlockPos;
use crate::texture::UvTexture;

verus! {

/// Which cube faces a block shows, and the texture they carry.
///
/// A block shows one face, or two faces that meet in an edge. The three
/// shapes made of two opposite faces exist as values, but the mesher has no
/// geometry for them and draws nothing.
#[derive(Clone, Copy, Debug, PartialEq, Eq, Hash, Structural)]
pub enum BlockModel {
    /// No block.
    Empty,
    /// A block that is not a cube. It is drawn elsewhere.
    NonCube,
    Top(UvTexture),
    Bottom(UvTexture),
    Px(UvTexture),
    Nx(UvTexture),
    Pz(UvTexture),
    Nz(UvTexture),
    TopPx(UvTexture),
    TopNx(UvTexture),
    TopPz(UvTexture),
    TopNz(UvTexture),
    BottomPx(UvTexture),
    BottomNx(UvTexture),
    BottomPz(UvTexture),
    BottomNz(UvTexture),
    PxPz(UvTexture),
    PxNz(UvTexture),
    NxPz(UvTexture),
    NxNz(UvTexture),
    TopBottom(UvTexture),
    PxNx(UvTexture),
    PzNz(UvTexture),
}

impl BlockModel {
    /// The faces that are drawn for this model, in the order in which they
    /// are emitted. Empty where nothing is drawn.
    pub open spec fn faces(self) -> Seq<Face> {
        match self {
            BlockModel::Top(_) => seq![Face::Top],
            BlockModel::Bottom(_) => seq![Face::Bottom],
            BlockModel::Px(_) => seq![Face::Px],
            BlockModel::Nx(_) => seq![Face::Nx],
            BlockModel::Pz(_) => seq![Face::Pz],
            BlockModel::Nz(_) => seq![Face::Nz],
            BlockModel::TopPx(_) => seq![Face::Top, Face::Px],
            BlockModel::TopNx(_) => seq![Face::Top, Face::Nx],
            BlockModel::TopPz(_) => seq![Face::Top, Face::Pz],
            BlockModel::TopNz(_) => seq![Face::Top, Face::Nz],
            BlockModel::BottomPx(_) => seq![Face::Bottom, Face::Px],
            BlockModel::BottomNx(_) => seq![Face::Bottom, Face::Nx],
            BlockModel::BottomPz(_) => seq![Face::Bottom, Face::Pz],
            BlockModel::BottomNz(_) => seq![Face::Bottom, Face::Nz],
            BlockModel::PxPz(_) => seq![Face::Px, Face::Pz],
            BlockModel::PxNz(_) => seq![Face::Px, Face::Nz],
            BlockModel::NxPz(_) => seq![Face::Nx, Face::Pz],
            BlockModel::NxNz(_) => seq![Face::Nx, Face::Nz],
            _ => Seq::empty(),
        }
    }

    /// The texture that the model carries, if it carries one.
    pub open spec fn texture(self) -> Option<UvTexture> {
        match self {
            BlockModel::Empty | BlockModel::NonCube => None,
            BlockModel::Top(t)
            | BlockModel::Bottom(t)
            | BlockModel::Px(t)
            | BlockModel::Nx(t)
            | BlockModel::Pz(t)
            | BlockModel::Nz(t)
            | BlockModel::TopPx(t)
            | BlockModel::TopNx(t)
            | BlockModel::TopPz(t)
            | BlockModel::TopNz(t)
            | BlockModel::BottomPx(t)
            | BlockModel::BottomNx(t)
            | BlockModel::BottomPz(t)
            | BlockModel::BottomNz(t)
            | BlockModel::PxPz(t)
            | BlockModel::PxNz(t)
            | BlockModel::NxPz(t)
            | BlockModel::NxNz(t)
            | BlockModel::TopBottom(t)
            | BlockModel::PxNx(t)
            | BlockModel::PzNz(t) => Some(t),
        }
    }

    /// Nothing is drawn for this model: it is `Empty` or `NonCube`, or its
    /// shape is one that has no geometry.
    pub open spec fn draws_nothing(self) -> bool {
        self is Empty || self is NonCube || self is TopBottom || self is PxNx || self is PzNz
    }

    /// The quads that a block of this model at `pos` contributes.
    pub open spec fn quads(self, pos: BlockPos) -> Seq<Quad> {
        match self.texture() {
            Some(texture) => face_quads(pos, texture, self.faces()),
            None => Seq::empty(),
        }
    }
}

/// One quad per face in `faces`, all of the block at `pos` and all textured
/// with `texture`.
pub open spec fn face_quads(pos: BlockPos, texture: UvTexture, faces: Seq<Face>) -> Seq<Quad> {
    faces.map_values(|face: Face| Quad { texture, face, pos })
}

/// A model has quads exactly if something is drawn for it: one quad for a
/// single face, two for a pair of faces that meet in an edge, and none for
/// `Empty`, `NonCube` and the shapes without geometry.
pub proof fn lemma_quads_of_a_model(model: BlockModel, pos: BlockPos)
    ensures
        model.draws_nothing() <==> model.quads(pos).len() == 0,
        model.quads(pos).len() <= 2,
        forall|k: int|
            0 <= k < model.quads(pos).len() ==> {
                let q = #[trigger] model.quads(pos)[k];
                q.pos == pos && model.texture() == Some(q.texture) && q.face == model.faces()[k]
            },
{
}

} // verus!
