//! What it means to sort a run of quads into meshes by texture.

use vstd::prelude::*;
use macroquad::texture::Texture2D;
use crate::face::Quad;
use crate::mesh::{mesh_of, MeshView};
use crate::texture::UvTexture;

verus! {

/// The test that a quad carries `texture`.
pub open spec fn carries(texture: UvTexture) -> spec_fn(Quad) -> bool {
    |q: Quad| q.texture == texture
}

/// The quads of `quads` that carry `texture`, in order.
pub open spec fn quads_of(quads: Seq<Quad>, texture: UvTexture) -> Seq<Quad> {
    quads.filter(carries(texture))
}

/// The textures of `quads`, each once, in the order in which they first occur.
pub open spec fn textures_of(quads: Seq<Quad>) -> Seq<UvTexture>
    decreases quads.len(),
{
    if quads.len() == 0 {
        Seq::empty()
    } else {
        let before = textures_of(quads.drop_last());
        if before.contains(quads.last().texture) {
            before
        } else {
            before.push(quads.last().texture)
        }
    }
}

/// The meshes that `quads` make: one for each texture, in the order in which
/// the textures first occur, each with all the quads of its texture in the
/// order in which they came.
pub open spec fn grouped(atlas: Option<Texture2D>, quads: Seq<Quad>) -> Seq<MeshView> {
    let textures = textures_of(quads);
    Seq::new(textures.len(), |i: int| mesh_of(atlas, textures[i], quads_of(quads, textures[i])))
}

/// A texture is listed exactly if some quad carries it.
pub proof fn lemma_textures_of_contains(quads: Seq<Quad>, texture: UvTexture)
    ensures
        textures_of(quads).contains(texture) <==> exists|k: int|
            0 <= k < quads.len() && (#[trigger] quads[k]).texture == texture,
    decreases quads.len(),
{
    if quads.len() > 0 {
        let rest = quads.drop_last();
        let before = textures_of(rest);
        let last = quads.last().texture;
        lemma_textures_of_contains(rest, texture);
        if textures_of(quads).contains(texture) {
            if before.contains(texture) {
                let k = choose|k: int| 0 <= k < rest.len() && (#[trigger] rest[k]).texture == texture;
                assert(quads[k].texture == texture);
            } else {
                let i = choose|i: int|
                    0 <= i < textures_of(quads).len() && textures_of(quads)[i] == texture;
                assert(i == before.len());
                assert(quads[quads.len() - 1].texture == texture);
            }
        }
        if exists|k: int| 0 <= k < quads.len() && (#[trigger] quads[k]).texture == texture {
            let k = choose|k: int| 0 <= k < quads.len() && (#[trigger] quads[k]).texture == texture;
            if k < rest.len() {
                assert(rest[k].texture == texture);
                let i = choose|i: int| 0 <= i < before.len() && before[i] == texture;
                assert(textures_of(quads)[i] == texture);
            } else if before.contains(last) {
            } else {
                assert(textures_of(quads)[before.len() as int] == texture);
            }
        }
    }
}

/// No texture is listed twice.
pub proof fn lemma_textures_of_distinct(quads: Seq<Quad>)
    ensures
        textures_of(quads).no_duplicates(),
    decreases quads.len(),
{
    if quads.len() > 0 {
        lemma_textures_of_distinct(quads.drop_last());
    }
}

/// A texture listed before another is carried by a quad that comes before
/// every quad that carries the other.
pub proof fn lemma_textures_of_order(quads: Seq<Quad>, i: int, j: int)
    requires
        0 <= i < j < textures_of(quads).len(),
    ensures
        exists|k: int|
            0 <= k < quads.len() && (#[trigger] quads[k]).texture == textures_of(quads)[i]
                && forall|m: int| 0 <= m <= k ==> (#[trigger] quads[m]).texture != textures_of(quads)[j],
    decreases quads.len(),
{
    let rest = quads.drop_last();
    let before = textures_of(rest);
    let earlier = textures_of(quads)[i];
    let later = textures_of(quads)[j];
    if j < before.len() {
        lemma_textures_of_order(rest, i, j);
        let k = choose|k: int|
            0 <= k < rest.len() && (#[trigger] rest[k]).texture == before[i] && forall|m: int|
                0 <= m <= k ==> (#[trigger] rest[m]).texture != before[j];
        assert(quads[k].texture == earlier);
        assert forall|m: int| 0 <= m <= k implies (#[trigger] quads[m]).texture != later by {
            assert(rest[m].texture != before[j]);
        }
    } else {
        assert(before.contains(earlier));
        lemma_textures_of_contains(rest, earlier);
        lemma_textures_of_contains(rest, later);
        let k = choose|k: int| 0 <= k < rest.len() && (#[trigger] rest[k]).texture == earlier;
        assert(quads[k].texture == earlier);
        assert forall|m: int| 0 <= m <= k implies (#[trigger] quads[m]).texture != later by {
            assert(rest[m] == quads[m]);
        }
    }
}

/// No quad carries a texture that is not listed.
pub proof fn lemma_quads_of_unlisted(quads: Seq<Quad>, texture: UvTexture)
    requires
        !textures_of(quads).contains(texture),
    ensures
        quads_of(quads, texture) == Seq::<Quad>::empty(),
    decreases quads.len(),
{
    reveal(Seq::filter);
    if quads.len() > 0 {
        let rest = quads.drop_last();
        let before = textures_of(rest);
        if before.contains(texture) {
            let i = choose|i: int| 0 <= i < before.len() && before[i] == texture;
            assert(textures_of(quads)[i] == texture);
        }
        if quads.last().texture == texture {
            lemma_textures_of_contains(quads, texture);
            assert(quads[quads.len() - 1].texture == texture);
        }
        lemma_quads_of_unlisted(rest, texture);
    }
}

/// One more quad of a texture that is listed at `i` goes to the end of mesh
/// `i` and leaves the other meshes as they are.
pub proof fn lemma_grouped_push_listed(atlas: Option<Texture2D>, quads: Seq<Quad>, q: Quad, i: int)
    requires
        0 <= i < textures_of(quads).len(),
        textures_of(quads)[i] == q.texture,
    ensures
        grouped(atlas, quads.push(q)) == grouped(atlas, quads).update(
            i,
            mesh_of(atlas, q.texture, quads_of(quads, q.texture).push(q)),
        ),
{
    let textures = textures_of(quads);
    assert(quads.push(q).drop_last() =~= quads);
    assert(textures.contains(q.texture));
    assert(textures_of(quads.push(q)) == textures);
    lemma_textures_of_distinct(quads);
    assert forall|j: int| 0 <= j < textures.len() implies #[trigger] grouped(atlas, quads.push(q))[j]
        == grouped(atlas, quads).update(
        i,
        mesh_of(atlas, q.texture, quads_of(quads, q.texture).push(q)),
    )[j] by {
        quads.lemma_filter_push(q, carries(textures[j]));
    }
    assert(grouped(atlas, quads.push(q)) =~= grouped(atlas, quads).update(
        i,
        mesh_of(atlas, q.texture, quads_of(quads, q.texture).push(q)),
    ));
}

/// The first quad of a texture opens a mesh of its own behind the others.
pub proof fn lemma_grouped_push_unlisted(atlas: Option<Texture2D>, quads: Seq<Quad>, q: Quad)
    requires
        !textures_of(quads).contains(q.texture),
    ensures
        quads_of(quads, q.texture) == Seq::<Quad>::empty(),
        grouped(atlas, quads.push(q)) == grouped(atlas, quads).push(
            mesh_of(atlas, q.texture, quads_of(quads, q.texture).push(q)),
        ),
{
    let textures = textures_of(quads);
    let opened = mesh_of(atlas, q.texture, quads_of(quads, q.texture).push(q));
    assert(quads.push(q).drop_last() =~= quads);
    assert(textures_of(quads.push(q)) == textures.push(q.texture));
    lemma_quads_of_unlisted(quads, q.texture);
    assert forall|j: int| 0 <= j <= textures.len() implies #[trigger] grouped(atlas, quads.push(q))[j]
        == grouped(atlas, quads).push(opened)[j] by {
        if j < textures.len() {
            assert(textures.contains(textures[j]));
            quads.lemma_filter_push(q, carries(textures[j]));
        } else {
            quads.lemma_filter_push(q, carries(q.texture));
        }
    }
    assert(grouped(atlas, quads.push(q)) =~= grouped(atlas, quads).push(opened));
}

/// One mesh per texture: the meshes carry pairwise distinct textures, every
/// quad finds the mesh of its texture, no mesh is without a quad, and each
/// mesh holds all the quads of its texture, in the order in which they came.
pub proof fn lemma_one_mesh_per_texture(atlas: Option<Texture2D>, quads: Seq<Quad>)
    ensures
        forall|i: int, j: int|
            0 <= i < j < grouped(atlas, quads).len() ==> (#[trigger] grouped(atlas, quads)[i]).texture
                != (#[trigger] grouped(atlas, quads)[j]).texture,
        forall|k: int|
            0 <= k < quads.len() ==> exists|i: int|
                0 <= i < grouped(atlas, quads).len() && (#[trigger] grouped(atlas, quads)[i]).texture
                    == (#[trigger] quads[k]).texture,
        forall|i: int|
            0 <= i < grouped(atlas, quads).len() ==> exists|k: int|
                0 <= k < quads.len() && (#[trigger] quads[k]).texture == (#[trigger] grouped(
                    atlas,
                    quads,
                )[i]).texture,
        forall|i: int|
            0 <= i < grouped(atlas, quads).len() ==> (#[trigger] grouped(atlas, quads)[i]) == mesh_of(
                atlas,
                grouped(atlas, quads)[i].texture,
                quads_of(quads, grouped(atlas, quads)[i].texture),
            ),
{
    let textures = textures_of(quads);
    let meshes = grouped(atlas, quads);
    lemma_textures_of_distinct(quads);
    assert forall|k: int| 0 <= k < quads.len() implies exists|i: int|
        0 <= i < meshes.len() && (#[trigger] meshes[i]).texture == (#[trigger] quads[k]).texture by {
        lemma_textures_of_contains(quads, quads[k].texture);
        let i = choose|i: int| 0 <= i < textures.len() && textures[i] == quads[k].texture;
        assert(meshes[i].texture == quads[k].texture);
    }
    assert forall|i: int| 0 <= i < meshes.len() implies exists|k: int|
        0 <= k < quads.len() && (#[trigger] quads[k]).texture == (#[trigger] meshes[i]).texture by {
        assert(textures.contains(textures[i]));
        lemma_textures_of_contains(quads, textures[i]);
        let k = choose|k: int| 0 <= k < quads.len() && (#[trigger] quads[k]).texture == textures[i];
        assert(quads[k].texture == meshes[i].texture);
    }
}

/// Meshes come in the order in which their textures first occur: of two
/// meshes, the earlier one's texture is carried by a quad that comes before
/// every quad that carries the later one's.
pub proof fn lemma_meshes_in_order_of_first_use(
    atlas: Option<Texture2D>,
    quads: Seq<Quad>,
    i: int,
    j: int,
)
    requires
        0 <= i < j < grouped(atlas, quads).len(),
    ensures
        exists|k: int|
            0 <= k < quads.len() && (#[trigger] quads[k]).texture == grouped(atlas, quads)[i].texture
                && forall|m: int|
                0 <= m <= k ==> (#[trigger] quads[m]).texture != grouped(atlas, quads)[j].texture,
{
    lemma_textures_of_order(quads, i, j);
    let k = choose|k: int|
        0 <= k < quads.len() && (#[trigger] quads[k]).texture == textures_of(quads)[i] && forall|m: int|
            0 <= m <= k ==> (#[trigger] quads[m]).texture != textures_of(quads)[j];
    assert(quads[k].texture == grouped(atlas, quads)[i].texture);
}

} // verus!
