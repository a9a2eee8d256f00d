//! Meshes, and the accumulator that sorts quads into them by texture.

use vstd::prelude::*;
use macroquad::texture::Texture2D;
use crate::face::{Face, Quad, Vertex};
use crate::block_model::face_quads;
use crate::group::{
    grouped, lemma_grouped_push_listed, lemma_grouped_push_unlisted, quads_of, textures_of,
};
use crate::pos::BlockPos;
use crate::texture::{share_atlas, UvTexture};

verus! {

/// The quads of one texture as vertex and index buffers.
///
/// Four vertices and six indices stand for each quad: the indices cut it into
/// the triangles `(0, 1, 2)` and `(0, 2, 3)` of its corners.
#[derive(Debug)]
pub struct Mesh {
    /// The texture that every quad of the mesh carries.
    pub texture: UvTexture,
    /// The atlas that the builder was given.
    pub atlas: Option<Texture2D>,
    pub vertices: Vec<Vertex>,
    pub indices: Vec<usize>,
}

/// A [`Mesh`] as a mathematical value.
pub struct MeshView {
    pub texture: UvTexture,
    pub atlas: Option<Texture2D>,
    pub vertices: Seq<Vertex>,
    pub indices: Seq<usize>,
}

impl View for Mesh {
    type V = MeshView;

    open spec fn view(&self) -> MeshView {
        MeshView {
            texture: self.texture,
            atlas: self.atlas,
            vertices: self.vertices@,
            indices: self.indices@,
        }
    }
}

/// The views of a sequence of meshes, in order.
pub open spec fn mesh_views(meshes: Seq<Mesh>) -> Seq<MeshView> {
    meshes.map_values(|mesh: Mesh| mesh@)
}

/// Which corner of its quad the `k`-th of a quad's six indices names.
pub open spec fn triangle_corner(k: int) -> int {
    seq![0int, 1, 2, 0, 2, 3][k]
}

/// The vertex buffer of a run of quads: their corners, quad after quad.
pub open spec fn quad_vertices(quads: Seq<Quad>) -> Seq<Vertex> {
    Seq::new(4 * quads.len(), |i: int| quads[i / 4].vertices()[i % 4])
}

/// The index buffer of a run of `n` quads.
pub open spec fn quad_indices(n: nat) -> Seq<usize> {
    Seq::new(6 * n, |i: int| (4 * (i / 6) + triangle_corner(i % 6)) as usize)
}

/// The mesh that holds `quads`, all of them textured with `texture`.
pub open spec fn mesh_of(atlas: Option<Texture2D>, texture: UvTexture, quads: Seq<Quad>) -> MeshView {
    MeshView {
        texture,
        atlas,
        vertices: quad_vertices(quads),
        indices: quad_indices(quads.len()),
    }
}

/// Sorts the quads it is given into one mesh per texture.
pub struct Meshes {
    atlas: Option<Texture2D>,
    meshes: Vec<Mesh>,
    quads: Ghost<Seq<Quad>>,
}

impl View for Meshes {
    type V = Seq<Quad>;

    /// Every quad that the accumulator has taken, in order.
    closed spec fn view(&self) -> Seq<Quad> {
        self.quads@
    }
}

impl Meshes {
    /// The atlas that the meshes are bound to.
    pub closed spec fn atlas(&self) -> Option<Texture2D> {
        self.atlas
    }

    /// The meshes held are those that the quads taken so far make.
    pub closed spec fn wf(&self) -> bool {
        mesh_views(self.meshes@) == grouped(self.atlas, self.quads@)
    }

    /// An accumulator without quads, bound to `atlas`.
    pub fn new(atlas: Option<Texture2D>) -> (meshes: Meshes)
        ensures
            meshes.wf(),
            meshes.atlas() == atlas,
            meshes@ == Seq::<Quad>::empty(),
    {
        let meshes = Meshes { atlas, meshes: Vec::new(), quads: Ghost(Seq::empty()) };
        assert(mesh_views(meshes.meshes@) =~= grouped(meshes.atlas, meshes.quads@));
        meshes
    }

    /// Index of the mesh that holds `texture`, if there is one.
    fn position(&self, texture: UvTexture) -> (slot: Option<usize>)
        ensures
            match slot {
                Some(i) => i < self.meshes@.len() && self.meshes@[i as int].texture == texture,
                None => forall|j: int|
                    0 <= j < self.meshes@.len() ==> (#[trigger] self.meshes@[j]).texture != texture,
            },
    {
        let mut i: usize = 0;
        while i < self.meshes.len()
            invariant
                i <= self.meshes@.len(),
                forall|j: int| 0 <= j < i ==> (#[trigger] self.meshes@[j]).texture != texture,
            decreases self.meshes@.len() - i,
        {
            if self.meshes[i].texture == texture {
                return Some(i);
            }
            i += 1;
        }
        None
    }

    /// Takes the quad of face `face` of the block at `pos`.
    pub fn push_face(&mut self, pos: BlockPos, texture: UvTexture, face: Face)
        requires
            old(self).wf(),
            pos.has_unit_cube(),
        ensures
            final(self).wf(),
            final(self).atlas() == old(self).atlas(),
            final(self)@ == old(self)@.push(Quad { texture, face, pos }),
    {
        let ghost q = Quad { texture, face, pos };
        let ghost before = self.quads@;
        let ghost textures = textures_of(before);
        let ghost same = quads_of(before, texture);
        let corners = face.vertices(pos, texture);
        let slot = self.position(texture);
        proof {
            assert(mesh_views(self.meshes@).len() == textures.len());
            assert forall|j: int| 0 <= j < textures.len() implies (#[trigger] self.meshes@[j]).texture
                == textures[j] by {
                assert(mesh_views(self.meshes@)[j] == grouped(self.atlas, before)[j]);
            }
        }
        let i: usize = match slot {
            Some(i) => {
                proof {
                    assert(mesh_views(self.meshes@)[i as int] == grouped(self.atlas, before)[i as int]);
                    lemma_grouped_push_listed(self.atlas, before, q, i as int);
                }
                i
            },
            None => {
                proof {
                    if textures.contains(texture) {
                        let j = choose|j: int| 0 <= j < textures.len() && textures[j] == texture;
                        assert(self.meshes@[j].texture == texture);
                    }
                    lemma_grouped_push_unlisted(self.atlas, before, q);
                }
                let atlas = share_atlas(&self.atlas);
                self.meshes.push(Mesh { texture, atlas, vertices: Vec::new(), indices: Vec::new() });
                self.meshes.len() - 1
            },
        };
        let ghost held = self.meshes@;
        assert(held[i as int]@ =~= mesh_of(self.atlas, texture, same)) by {
            assert(quad_vertices(Seq::<Quad>::empty()) =~= Seq::<Vertex>::empty());
            assert(quad_indices(0) =~= Seq::<usize>::empty());
        }
        self.meshes[i].vertices.push(corners[0]);
        self.meshes[i].vertices.push(corners[1]);
        self.meshes[i].vertices.push(corners[2]);
        self.meshes[i].vertices.push(corners[3]);
        let end: usize = self.meshes[i].vertices.len();
        let first: usize = end - 4;
        self.meshes[i].indices.push(first);
        self.meshes[i].indices.push(first + 1);
        self.meshes[i].indices.push(first + 2);
        self.meshes[i].indices.push(first);
        self.meshes[i].indices.push(first + 2);
        self.meshes[i].indices.push(first + 3);
        self.quads = Ghost(before.push(q));
        proof {
            lemma_quad_vertices_push(same, q);
            lemma_quad_indices_succ(same.len());
            assert(self.meshes@[i as int].vertices@ =~= quad_vertices(same) + q.vertices());
            assert(self.meshes@[i as int].indices@ =~= quad_indices(same.len()) + quad_triangles(
                same.len(),
            ));
            assert(mesh_views(self.meshes@) =~= grouped(self.atlas, before.push(q)));
        }
    }

    /// Takes one quad for each face in `faces`, all of the block at
    /// `block_pos` and all textured with `texture`.
    pub fn extend_with(&mut self, block_pos: BlockPos, texture: UvTexture, faces: &[Face])
        requires
            old(self).wf(),
            block_pos.has_unit_cube(),
        ensures
            final(self).wf(),
            final(self).atlas() == old(self).atlas(),
            final(self)@ == old(self)@ + face_quads(block_pos, texture, faces@),
    {
        let mut n: usize = 0;
        while n < faces.len()
            invariant
                n <= faces@.len(),
                self.wf(),
                block_pos.has_unit_cube(),
                self.atlas() == old(self).atlas(),
                self@ == old(self)@ + face_quads(block_pos, texture, faces@.take(n as int)),
            decreases faces@.len() - n,
        {
            self.push_face(block_pos, texture, faces[n]);
            proof {
                assert(faces@.take(n + 1) =~= faces@.take(n as int).push(faces@[n as int]));
                assert(self@ =~= old(self)@ + face_quads(block_pos, texture, faces@.take(n + 1)));
            }
            n += 1;
        }
        proof {
            assert(faces@.take(n as int) =~= faces@);
        }
    }

    /// The meshes of the quads taken, one for each texture in the order in
    /// which the textures first came.
    pub fn into_meshes(self) -> (meshes: Vec<Mesh>)
        requires
            self.wf(),
        ensures
            mesh_views(meshes@) == grouped(self.atlas(), self@),
            meshes@.len() == grouped(self.atlas(), self@).len(),
    {
        assert(mesh_views(self.meshes@).len() == self.meshes@.len());
        self.meshes
    }
}

/// The six indices of quad number `n` of a mesh.
pub open spec fn quad_triangles(n: nat) -> Seq<usize> {
    Seq::new(6, |k: int| (4 * n + triangle_corner(k)) as usize)
}

/// One more quad puts its four corners at the end of the vertex buffer.
pub proof fn lemma_quad_vertices_push(quads: Seq<Quad>, q: Quad)
    ensures
        quad_vertices(quads.push(q)) == quad_vertices(quads) + q.vertices(),
{
    assert(quad_vertices(quads.push(q)) =~= quad_vertices(quads) + q.vertices());
}

/// One more quad puts its six indices at the end of the index buffer.
pub proof fn lemma_quad_indices_succ(n: nat)
    ensures
        quad_indices(n + 1) == quad_indices(n) + quad_triangles(n),
{
    assert(quad_indices(n + 1) =~= quad_indices(n) + quad_triangles(n));
}

/// The buffers of `n` quads fit each other: four vertices and six indices
/// for each quad, and every index names a vertex of its own quad.
pub proof fn lemma_indices_name_vertices(quads: Seq<Quad>)
    requires
        4 * quads.len() <= usize::MAX,
    ensures
        quad_vertices(quads).len() == 4 * quads.len(),
        quad_indices(quads.len()).len() == 6 * quads.len(),
        forall|i: int|
            0 <= i < 6 * quads.len() ==> 4 * (i / 6) <= (#[trigger] quad_indices(quads.len())[i]) < 4
                * (i / 6) + 4,
{
}

/// A lone quad makes one mesh of its own: the four corners of its face, cut
/// into the triangles `(0, 1, 2)` and `(0, 2, 3)`.
pub proof fn lemma_lone_quad(atlas: Option<Texture2D>, q: Quad)
    requires
        q.pos.has_unit_cube(),
    ensures
        grouped(atlas, seq![q]) == seq![
            MeshView {
                texture: q.texture,
                atlas,
                vertices: q.vertices(),
                indices: seq![0usize, 1, 2, 0, 2, 3],
            },
        ],
{
    let none = Seq::<Quad>::empty();
    assert(seq![q] =~= none.push(q));
    assert(textures_of(none) =~= Seq::<UvTexture>::empty());
    lemma_grouped_push_unlisted(atlas, none, q);
    assert(quad_vertices(none.push(q)) =~= q.vertices());
    assert(quad_indices(1) =~= seq![0usize, 1, 2, 0, 2, 3]);
    assert(grouped(atlas, seq![q]) =~= seq![
        MeshView {
            texture: q.texture,
            atlas,
            vertices: q.vertices(),
            indices: seq![0usize, 1, 2, 0, 2, 3],
        },
    ]);
}

} // verus!
