//! The walk over the chunks that turns block models into meshes.

use vstd::prelude::*;
use macroquad::texture::Texture2D;
use crate::block_model::BlockModel;
use crate::chunk_model::{in_chunk, ChunkModel};
use crate::face::{Face, Quad};
use crate::group::grouped;
use crate::mesh::{mesh_views, Mesh, MeshView, Meshes};
use crate::pos::{BlockPos, ChunkPos, CHUNK_SIZE_16};

verus! {

/// The local `x` of cell number `n` of the walk through a chunk.
///
/// The walk goes layer by layer upwards: `y` changes slowest, then `x`, and
/// `z` fastest.
pub open spec fn walk_x(n: int) -> int {
    (n / 16) % 16
}

/// The local `y` of cell number `n` of the walk.
pub open spec fn walk_y(n: int) -> int {
    n / 256
}

/// The local `z` of cell number `n` of the walk.
pub open spec fn walk_z(n: int) -> int {
    n % 16
}

/// The quads of cell number `n` of the walk through the chunk `model` whose
/// block `(0, 0, 0)` lies at `origin`.
pub open spec fn cell_quads(origin: BlockPos, model: ChunkModel, n: int) -> Seq<Quad> {
    model.at(walk_x(n), walk_y(n), walk_z(n)).quads(
        origin.shifted(walk_x(n), walk_y(n), walk_z(n)),
    )
}

/// The quads of the first `n` cells of the walk, in order.
pub open spec fn walked(origin: BlockPos, model: ChunkModel, n: nat) -> Seq<Quad> {
    Seq::new(n, |k: int| cell_quads(origin, model, k)).flatten()
}

/// The quads of one chunk, in the order of the walk.
pub open spec fn chunk_quads(pos: ChunkPos, model: ChunkModel) -> Seq<Quad> {
    walked(pos.origin(), model, 4096)
}

/// The quads of all of `chunks`, chunk after chunk.
pub open spec fn chunks_quads(chunks: Seq<(ChunkPos, ChunkModel)>) -> Seq<Quad> {
    Seq::new(chunks.len(), |c: int| chunk_quads(chunks[c].0, chunks[c].1)).flatten()
}

/// The builder visits exactly the first `n` of `chunks`: none of them is
/// empty, and they are followed by an empty chunk or by nothing.
pub open spec fn stops_at(chunks: Seq<(ChunkPos, ChunkModel)>, n: int) -> bool {
    &&& 0 <= n <= chunks.len()
    &&& forall|c: int| 0 <= c < n ==> !(#[trigger] chunks[c]).1.is_empty_spec()
    &&& n < chunks.len() ==> chunks[n].1.is_empty_spec()
}

/// How many of `chunks` the builder visits.
pub open spec fn visited(chunks: Seq<(ChunkPos, ChunkModel)>) -> int {
    choose|n: int| stops_at(chunks, n)
}

/// The quads that the builder emits for `chunks`: those of the chunks before
/// the first empty one.
pub open spec fn emitted(chunks: Seq<(ChunkPos, ChunkModel)>) -> Seq<Quad> {
    chunks_quads(chunks.take(visited(chunks)))
}

/// The builder stops at one place only.
pub proof fn lemma_stops_at_unique(chunks: Seq<(ChunkPos, ChunkModel)>, n: int)
    requires
        stops_at(chunks, n),
    ensures
        visited(chunks) == n,
{
    let v = visited(chunks);
    if v < n {
        assert(!chunks[v].1.is_empty_spec());
    } else if n < v {
        assert(!chunks[n].1.is_empty_spec());
    }
}

/// From `n` on, the builder stops somewhere.
proof fn lemma_stops_from(chunks: Seq<(ChunkPos, ChunkModel)>, n: int)
    requires
        0 <= n <= chunks.len(),
        forall|c: int| 0 <= c < n ==> !(#[trigger] chunks[c]).1.is_empty_spec(),
    ensures
        exists|m: int| stops_at(chunks, m),
    decreases chunks.len() - n,
{
    if n < chunks.len() && !chunks[n].1.is_empty_spec() {
        lemma_stops_from(chunks, n + 1);
    } else {
        assert(stops_at(chunks, n));
    }
}

/// The chunks that the builder visits are those before the first empty
/// chunk, or all of them where none is empty.
pub proof fn lemma_visited_stops(chunks: Seq<(ChunkPos, ChunkModel)>)
    ensures
        stops_at(chunks, visited(chunks)),
{
    lemma_stops_from(chunks, 0);
}

/// An empty chunk ends the walk: the builder emits for `chunks` what it emits
/// for the chunks before any empty chunk among them, whatever stands behind.
pub proof fn lemma_empty_chunk_ends_walk(chunks: Seq<(ChunkPos, ChunkModel)>, i: int)
    requires
        0 <= i < chunks.len(),
        chunks[i].1.is_empty_spec(),
    ensures
        visited(chunks) <= i,
        emitted(chunks) == emitted(chunks.take(i)),
{
    lemma_visited_stops(chunks);
    let v = visited(chunks);
    if i < v {
        assert(!chunks[i].1.is_empty_spec());
    }
    let front = chunks.take(i);
    assert forall|c: int| 0 <= c < v implies !(#[trigger] front[c]).1.is_empty_spec() by {
        assert(!chunks[c].1.is_empty_spec());
    }
    assert(stops_at(front, v));
    lemma_stops_at_unique(front, v);
    assert(front.take(v) =~= chunks.take(v));
}

/// The first `n` cells of a chunk have no quad where nothing is drawn for
/// any of its blocks.
proof fn lemma_walk_draws_nothing(origin: BlockPos, model: ChunkModel, n: nat)
    requires
        n <= 4096,
        forall|x: int, y: int, z: int|
            in_chunk(x, y, z) ==> (#[trigger] model.at(x, y, z)).draws_nothing(),
    ensures
        walked(origin, model, n) == Seq::<Quad>::empty(),
    decreases n,
{
    if n > 0 {
        let k = (n - 1) as nat;
        lemma_walk_draws_nothing(origin, model, k);
        lemma_walked_succ(origin, model, k);
        assert(in_chunk(walk_x(k as int), walk_y(k as int), walk_z(k as int)));
        assert(model.at(walk_x(k as int), walk_y(k as int), walk_z(k as int)).draws_nothing());
        assert(cell_quads(origin, model, k as int) =~= Seq::<Quad>::empty());
        assert(walked(origin, model, n) =~= Seq::<Quad>::empty());
    } else {
        assert(Seq::new(0, |k: int| cell_quads(origin, model, k)) =~= Seq::<Seq<Quad>>::empty());
    }
}

/// The first `n` chunks have no quad where nothing is drawn for any block.
proof fn lemma_chunks_draw_nothing(chunks: Seq<(ChunkPos, ChunkModel)>, n: int)
    requires
        0 <= n <= chunks.len(),
        forall|c: int, x: int, y: int, z: int|
            0 <= c < chunks.len() && in_chunk(x, y, z) ==> (#[trigger] chunks[c].1.at(
                x,
                y,
                z,
            )).draws_nothing(),
    ensures
        chunks_quads(chunks.take(n)) == Seq::<Quad>::empty(),
    decreases n,
{
    if n > 0 {
        lemma_chunks_draw_nothing(chunks, n - 1);
        lemma_chunks_quads_succ(chunks, n - 1);
        lemma_walk_draws_nothing(chunks[n - 1].0.origin(), chunks[n - 1].1, 4096);
        assert(chunks_quads(chunks.take(n)) =~= Seq::<Quad>::empty());
    } else {
        let none = chunks.take(0);
        assert(Seq::new(none.len(), |c: int| chunk_quads(none[c].0, none[c].1)) =~= Seq::<
            Seq<Quad>,
        >::empty());
    }
}

/// Blocks that are `Empty` or `NonCube` emit nothing, and neither do the
/// shapes without geometry: where nothing is drawn for any block of any
/// chunk, the builder makes no mesh, and so no vertex.
pub proof fn lemma_nothing_drawn_no_meshes(
    chunks: Seq<(ChunkPos, ChunkModel)>,
    atlas: Option<Texture2D>,
)
    requires
        forall|c: int, x: int, y: int, z: int|
            0 <= c < chunks.len() && in_chunk(x, y, z) ==> (#[trigger] chunks[c].1.at(
                x,
                y,
                z,
            )).draws_nothing(),
    ensures
        emitted(chunks) == Seq::<Quad>::empty(),
        grouped(atlas, emitted(chunks)) == Seq::<MeshView>::empty(),
{
    lemma_visited_stops(chunks);
    lemma_chunks_draw_nothing(chunks, visited(chunks));
    assert(grouped(atlas, emitted(chunks)) =~= Seq::<MeshView>::empty());
}

/// One more cell puts its quads at the end of those walked so far.
proof fn lemma_walked_succ(origin: BlockPos, model: ChunkModel, n: nat)
    ensures
        walked(origin, model, n + 1) == walked(origin, model, n) + cell_quads(
            origin,
            model,
            n as int,
        ),
{
    let cells = Seq::new(n, |k: int| cell_quads(origin, model, k));
    assert(Seq::new(n + 1, |k: int| cell_quads(origin, model, k)) =~= cells.push(
        cell_quads(origin, model, n as int),
    ));
    cells.lemma_flatten_push(cell_quads(origin, model, n as int));
}

/// One more chunk puts its quads at the end of those of the chunks before it.
proof fn lemma_chunks_quads_succ(chunks: Seq<(ChunkPos, ChunkModel)>, c: int)
    requires
        0 <= c < chunks.len(),
    ensures
        chunks_quads(chunks.take(c + 1)) == chunks_quads(chunks.take(c)) + chunk_quads(
            chunks[c].0,
            chunks[c].1,
        ),
{
    let before = chunks.take(c);
    let upto = chunks.take(c + 1);
    let parts = Seq::new(before.len(), |k: int| chunk_quads(before[k].0, before[k].1));
    assert(Seq::new(upto.len(), |k: int| chunk_quads(upto[k].0, upto[k].1)) =~= parts.push(
        chunk_quads(chunks[c].0, chunks[c].1),
    ));
    parts.lemma_flatten_push(chunk_quads(chunks[c].0, chunks[c].1));
}

/// Hands the faces that `block_model` shows of the block at `block_pos` to
/// `meshes`. A model without geometry leaves `meshes` as it is.
pub fn process_block_model(block_model: &BlockModel, block_pos: BlockPos, meshes: &mut Meshes)
    requires
        old(meshes).wf(),
        block_pos.has_unit_cube(),
    ensures
        final(meshes).wf(),
        final(meshes).atlas() == old(meshes).atlas(),
        final(meshes)@ == old(meshes)@ + block_model.quads(block_pos),
        block_model.draws_nothing() ==> final(meshes)@ == old(meshes)@,
{
    match *block_model {
        BlockModel::Empty | BlockModel::NonCube => {},
        BlockModel::Top(texture) => meshes.extend_with(block_pos, texture, &[Face::Top]),
        BlockModel::Bottom(texture) => meshes.extend_with(block_pos, texture, &[Face::Bottom]),
        BlockModel::Px(texture) => meshes.extend_with(block_pos, texture, &[Face::Px]),
        BlockModel::Nx(texture) => meshes.extend_with(block_pos, texture, &[Face::Nx]),
        BlockModel::Pz(texture) => meshes.extend_with(block_pos, texture, &[Face::Pz]),
        BlockModel::Nz(texture) => meshes.extend_with(block_pos, texture, &[Face::Nz]),
        BlockModel::TopPx(texture) => meshes.extend_with(
            block_pos,
            texture,
            &[Face::Top, Face::Px],
        ),
        BlockModel::TopNx(texture) => meshes.extend_with(
            block_pos,
            texture,
            &[Face::Top, Face::Nx],
        ),
        BlockModel::TopPz(texture) => meshes.extend_with(
            block_pos,
            texture,
            &[Face::Top, Face::Pz],
        ),
        BlockModel::TopNz(texture) => meshes.extend_with(
            block_pos,
            texture,
            &[Face::Top, Face::Nz],
        ),
        BlockModel::BottomPx(texture) => meshes.extend_with(
            block_pos,
            texture,
            &[Face::Bottom, Face::Px],
        ),
        BlockModel::BottomNx(texture) => meshes.extend_with(
            block_pos,
            texture,
            &[Face::Bottom, Face::Nx],
        ),
        BlockModel::BottomPz(texture) => meshes.extend_with(
            block_pos,
            texture,
            &[Face::Bottom, Face::Pz],
        ),
        BlockModel::BottomNz(texture) => meshes.extend_with(
            block_pos,
            texture,
            &[Face::Bottom, Face::Nz],
        ),
        BlockModel::PxPz(texture) => meshes.extend_with(block_pos, texture, &[Face::Px, Face::Pz]),
        BlockModel::PxNz(texture) => meshes.extend_with(block_pos, texture, &[Face::Px, Face::Nz]),
        BlockModel::NxPz(texture) => meshes.extend_with(block_pos, texture, &[Face::Nx, Face::Pz]),
        BlockModel::NxNz(texture) => meshes.extend_with(block_pos, texture, &[Face::Nx, Face::Nz]),
        _ => {},
    }
    assert(meshes@ =~= old(meshes)@ + block_model.quads(block_pos));
}

/// Builds the meshes of `chunks`: one mesh for each texture that a shown face
/// carries, in the order in which the textures first occur.
///
/// The chunks are walked in the order given, each cell by cell with `y`
/// outermost, then `x`, then `z`. The walk ends at the first chunk that holds
/// no block at all: neither that chunk nor any chunk behind it adds to the
/// meshes. A caller whose chunks may be empty in the middle of the run takes
/// the empty ones out first. Every mesh is bound to `atlas`.
pub fn build_chunk_meshes(chunks: Vec<(ChunkPos, ChunkModel)>, atlas: Option<Texture2D>) -> (meshes:
    Vec<Mesh>)
    ensures
        mesh_views(meshes@) == grouped(atlas, emitted(chunks@)),
        meshes@.len() == grouped(atlas, emitted(chunks@)).len(),
        chunks@.len() == 0 ==> meshes@.len() == 0,
{
    let mut meshes = Meshes::new(atlas);
    let mut c: usize = 0;
    while c < chunks.len()
        invariant
            c <= chunks@.len(),
            meshes.wf(),
            meshes.atlas() == atlas,
            meshes@ == chunks_quads(chunks@.take(c as int)),
            forall|k: int| 0 <= k < c ==> !(#[trigger] chunks@[k]).1.is_empty_spec(),
        decreases chunks@.len() - c,
    {
        let chunk_pos: ChunkPos = chunks[c].0;
        let chunk_model: &ChunkModel = &chunks[c].1;
        if chunk_model.is_empty() {
            proof {
                lemma_stops_at_unique(chunks@, c as int);
            }
            return meshes.into_meshes();
        }
        let world_pos: BlockPos = BlockPos::from(chunk_pos);
        let ghost start = meshes@;
        for y in 0..CHUNK_SIZE_16
            invariant
                meshes.wf(),
                meshes.atlas() == atlas,
                world_pos == chunk_pos.origin(),
                meshes@ == start + walked(world_pos, *chunk_model, (y * 256) as nat),
        {
            for x in 0..CHUNK_SIZE_16
                invariant
                    y < 16,
                    meshes.wf(),
                    meshes.atlas() == atlas,
                    world_pos == chunk_pos.origin(),
                    meshes@ == start + walked(world_pos, *chunk_model, ((y * 16 + x) * 16) as nat),
            {
                for z in 0..CHUNK_SIZE_16
                    invariant
                        y < 16,
                        x < 16,
                        meshes.wf(),
                        meshes.atlas() == atlas,
                        world_pos == chunk_pos.origin(),
                        meshes@ == start + walked(
                            world_pos,
                            *chunk_model,
                            ((y * 16 + x) * 16 + z) as nat,
                        ),
                {
                    let block_model: &BlockModel = chunk_model.get(x, y, z);
                    let block_pos = BlockPos {
                        x: x as i64 + world_pos.x,
                        y: y as i64 + world_pos.y,
                        z: z as i64 + world_pos.z,
                    };
                    process_block_model(block_model, block_pos, &mut meshes);
                    proof {
                        let n: nat = ((y * 16 + x) * 16 + z) as nat;
                        assert(walk_x(n as int) == x);
                        assert(walk_y(n as int) == y);
                        assert(walk_z(n as int) == z);
                        assert(block_pos == world_pos.shifted(x as int, y as int, z as int));
                        lemma_walked_succ(world_pos, *chunk_model, n);
                    }
                }
            }
        }
        proof {
            lemma_chunks_quads_succ(chunks@, c as int);
        }
        c += 1;
    }
    proof {
        lemma_stops_at_unique(chunks@, chunks@.len() as int);
        assert(chunks@.take(chunks@.len() as int) =~= chunks@);
    }
    meshes.into_meshes()
}

} // verus!
