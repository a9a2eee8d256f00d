use chunk_mesh::{
    build_chunk_meshes, process_block_model, BlockModel, BlockPos, ChunkModel, ChunkPos, Face, Mesh,
    Meshes, UvCorner, UvTexture, Vertex,
};
use macroquad::miniquad::{RawId, TextureId};
use macroquad::texture::Texture2D;

fn chunk_with(blocks: &[(usize, usize, usize, BlockModel)]) -> ChunkModel {
    let mut chunk = ChunkModel::new();
    for &(x, y, z, model) in blocks {
        chunk.set(x, y, z, model);
    }
    chunk
}

fn origin() -> ChunkPos {
    ChunkPos { x: 0, y: 0, z: 0 }
}

fn quads(parts: &[[Vertex; 4]]) -> Vec<Vertex> {
    parts.iter().flat_map(|quad| quad.iter().copied()).collect()
}

fn triangles(quads: usize) -> Vec<usize> {
    let mut indices = Vec::new();
    for q in 0..quads {
        for corner in [0, 1, 2, 0, 2, 3] {
            indices.push(4 * q + corner);
        }
    }
    indices
}

fn textures(meshes: &[Mesh]) -> Vec<UvTexture> {
    meshes.iter().map(|mesh| mesh.texture).collect()
}

#[test]
fn zero_chunks_yield_no_meshes() {
    let meshes = build_chunk_meshes(Vec::new(), None);
    assert!(meshes.is_empty());
}

#[test]
fn blocks_that_are_no_cubes_emit_nothing() {
    let mut chunk = ChunkModel::new();
    for x in 0..16 {
        for z in 0..16 {
            chunk.set(x, 0, z, BlockModel::NonCube);
        }
    }
    let meshes = build_chunk_meshes(vec![(origin(), chunk)], None);
    assert!(meshes.is_empty());
}

#[test]
fn empty_and_non_cube_blocks_leave_the_accumulator_alone() {
    let pos = BlockPos { x: 0, y: 0, z: 0 };
    let mut meshes = Meshes::new(None);
    process_block_model(&BlockModel::Empty, pos, &mut meshes);
    process_block_model(&BlockModel::NonCube, pos, &mut meshes);
    assert!(meshes.into_meshes().is_empty());
}

#[test]
fn shapes_without_geometry_are_skipped() {
    let t = UvTexture { id: 1 };
    let chunk = chunk_with(&[
        (0, 0, 0, BlockModel::TopBottom(t)),
        (1, 0, 0, BlockModel::PxNx(t)),
        (2, 0, 0, BlockModel::PzNz(t)),
    ]);
    let meshes = build_chunk_meshes(vec![(origin(), chunk)], None);
    assert!(meshes.is_empty());
}

#[test]
fn a_single_top_block() {
    let t = UvTexture { id: 7 };
    let chunk = chunk_with(&[(2, 3, 4, BlockModel::Top(t))]);
    let meshes = build_chunk_meshes(vec![(ChunkPos { x: 1, y: -1, z: 2 }, chunk)], None);
    assert_eq!(meshes.len(), 1);
    let mesh = &meshes[0];
    assert_eq!(mesh.texture, t);
    assert!(mesh.atlas.is_none());
    assert_eq!(mesh.vertices.len(), 4);
    let positions: Vec<(i64, i64, i64)> =
        mesh.vertices.iter().map(|v| (v.position.x, v.position.y, v.position.z)).collect();
    assert_eq!(positions, vec![(18, -12, 36), (19, -12, 36), (19, -12, 37), (18, -12, 37)]);
    let corners: Vec<UvCorner> = mesh.vertices.iter().map(|v| v.uv.corner).collect();
    assert_eq!(
        corners,
        vec![UvCorner::LowLeft, UvCorner::LowRight, UvCorner::UpRight, UvCorner::LowRight]
    );
    assert!(mesh.vertices.iter().all(|v| v.uv.texture == t));
    assert_eq!(mesh.indices, vec![0, 1, 2, 0, 2, 3]);
}

#[test]
fn px_block_in_the_chunk_one_step_along_x() {
    let t = UvTexture { id: 1 };
    let chunk = chunk_with(&[(0, 0, 0, BlockModel::Px(t))]);
    let meshes = build_chunk_meshes(vec![(ChunkPos { x: 1, y: 0, z: 0 }, chunk)], None);
    assert_eq!(meshes.len(), 1);
    assert_eq!(meshes[0].vertices[0].position, BlockPos { x: 17, y: 0, z: 0 });
    assert_eq!(meshes[0].vertices, Face::Px.vertices(BlockPos { x: 16, y: 0, z: 0 }, t).to_vec());
}

#[test]
fn every_single_face_model_emits_its_face() {
    let t = UvTexture { id: 2 };
    let cases = [
        (BlockModel::Top(t), Face::Top),
        (BlockModel::Bottom(t), Face::Bottom),
        (BlockModel::Px(t), Face::Px),
        (BlockModel::Nx(t), Face::Nx),
        (BlockModel::Pz(t), Face::Pz),
        (BlockModel::Nz(t), Face::Nz),
    ];
    for (model, face) in cases {
        let chunk = chunk_with(&[(5, 6, 7, model)]);
        let meshes = build_chunk_meshes(vec![(origin(), chunk)], None);
        assert_eq!(meshes.len(), 1);
        assert_eq!(meshes[0].vertices, face.vertices(BlockPos { x: 5, y: 6, z: 7 }, t).to_vec());
        assert_eq!(meshes[0].indices, triangles(1));
    }
}

#[test]
fn every_two_face_model_emits_its_faces_in_order() {
    let t = UvTexture { id: 2 };
    let cases = [
        (BlockModel::TopPx(t), Face::Top, Face::Px),
        (BlockModel::TopNx(t), Face::Top, Face::Nx),
        (BlockModel::TopPz(t), Face::Top, Face::Pz),
        (BlockModel::TopNz(t), Face::Top, Face::Nz),
        (BlockModel::BottomPx(t), Face::Bottom, Face::Px),
        (BlockModel::BottomNx(t), Face::Bottom, Face::Nx),
        (BlockModel::BottomPz(t), Face::Bottom, Face::Pz),
        (BlockModel::BottomNz(t), Face::Bottom, Face::Nz),
        (BlockModel::PxPz(t), Face::Px, Face::Pz),
        (BlockModel::PxNz(t), Face::Px, Face::Nz),
        (BlockModel::NxPz(t), Face::Nx, Face::Pz),
        (BlockModel::NxNz(t), Face::Nx, Face::Nz),
    ];
    let pos = BlockPos { x: 15, y: 0, z: 15 };
    for (model, first, second) in cases {
        let chunk = chunk_with(&[(15, 0, 15, model)]);
        let meshes = build_chunk_meshes(vec![(origin(), chunk)], None);
        assert_eq!(meshes.len(), 1);
        assert_eq!(
            meshes[0].vertices,
            quads(&[first.vertices(pos, t), second.vertices(pos, t)])
        );
        assert_eq!(meshes[0].indices, triangles(2));
    }
}

#[test]
fn an_empty_chunk_ends_the_walk() {
    let t = UvTexture { id: 1 };
    let sentinel = UvTexture { id: 99 };
    let first = chunk_with(&[(0, 0, 0, BlockModel::Top(t))]);
    let behind = chunk_with(&[(0, 0, 0, BlockModel::Top(sentinel))]);
    let meshes = build_chunk_meshes(
        vec![
            (origin(), first),
            (ChunkPos { x: 1, y: 0, z: 0 }, ChunkModel::new()),
            (ChunkPos { x: 2, y: 0, z: 0 }, behind),
        ],
        None,
    );
    assert_eq!(textures(&meshes), vec![t]);
    assert_eq!(meshes[0].vertices, Face::Top.vertices(BlockPos { x: 0, y: 0, z: 0 }, t).to_vec());
}

#[test]
fn an_empty_first_chunk_yields_nothing() {
    let sentinel = UvTexture { id: 99 };
    let behind = chunk_with(&[(0, 0, 0, BlockModel::Top(sentinel))]);
    let meshes = build_chunk_meshes(
        vec![(origin(), ChunkModel::new()), (ChunkPos { x: 1, y: 0, z: 0 }, behind)],
        None,
    );
    assert!(meshes.is_empty());
}

#[test]
fn a_chunk_of_non_cubes_does_not_end_the_walk() {
    let t = UvTexture { id: 1 };
    let no_cubes = chunk_with(&[(0, 0, 0, BlockModel::NonCube)]);
    let behind = chunk_with(&[(0, 0, 0, BlockModel::Top(t))]);
    let meshes = build_chunk_meshes(
        vec![(origin(), no_cubes), (ChunkPos { x: 0, y: 1, z: 0 }, behind)],
        None,
    );
    assert_eq!(textures(&meshes), vec![t]);
    assert_eq!(meshes[0].vertices[0].position, BlockPos { x: 0, y: 17, z: 0 });
}

#[test]
fn distinct_textures_make_distinct_meshes_in_order_of_first_use() {
    let stone = UvTexture { id: 50 };
    let grass = UvTexture { id: 10 };
    let sand = UvTexture { id: 30 };
    let chunk = chunk_with(&[
        (0, 0, 0, BlockModel::Top(stone)),
        (0, 0, 1, BlockModel::Top(grass)),
        (0, 0, 2, BlockModel::Top(stone)),
        (0, 0, 3, BlockModel::Top(sand)),
    ]);
    let meshes = build_chunk_meshes(vec![(origin(), chunk)], None);
    assert_eq!(textures(&meshes), vec![stone, grass, sand]);
    assert_eq!(
        meshes[0].vertices,
        quads(&[
            Face::Top.vertices(BlockPos { x: 0, y: 0, z: 0 }, stone),
            Face::Top.vertices(BlockPos { x: 0, y: 0, z: 2 }, stone),
        ])
    );
    assert_eq!(meshes[0].indices, triangles(2));
    assert_eq!(meshes[1].indices, triangles(1));
    assert_eq!(meshes[2].indices, triangles(1));
}

#[test]
fn one_texture_in_several_chunks_makes_one_mesh() {
    let t = UvTexture { id: 4 };
    let a = chunk_with(&[(1, 1, 1, BlockModel::Nx(t))]);
    let b = chunk_with(&[(2, 2, 2, BlockModel::PxPz(t))]);
    let meshes = build_chunk_meshes(
        vec![(origin(), a), (ChunkPos { x: -1, y: 0, z: 3 }, b)],
        None,
    );
    assert_eq!(meshes.len(), 1);
    let second = BlockPos { x: -14, y: 2, z: 50 };
    assert_eq!(
        meshes[0].vertices,
        quads(&[
            Face::Nx.vertices(BlockPos { x: 1, y: 1, z: 1 }, t),
            Face::Px.vertices(second, t),
            Face::Pz.vertices(second, t),
        ])
    );
    assert_eq!(meshes[0].indices, triangles(3));
}

#[test]
fn cells_are_walked_with_y_outermost_then_x_then_z() {
    let a = UvTexture { id: 1 };
    let b = UvTexture { id: 2 };
    let c = UvTexture { id: 3 };
    let d = UvTexture { id: 4 };
    let chunk = chunk_with(&[
        (0, 1, 0, BlockModel::Top(a)),
        (1, 0, 0, BlockModel::Top(b)),
        (0, 0, 1, BlockModel::Top(c)),
        (0, 0, 0, BlockModel::Top(d)),
    ]);
    let meshes = build_chunk_meshes(vec![(origin(), chunk)], None);
    assert_eq!(textures(&meshes), vec![d, c, b, a]);
}

#[test]
fn quads_of_a_mesh_keep_the_order_of_the_walk() {
    let t = UvTexture { id: 1 };
    let chunk = chunk_with(&[
        (15, 15, 15, BlockModel::Top(t)),
        (3, 0, 9, BlockModel::Top(t)),
        (3, 0, 2, BlockModel::Top(t)),
        (2, 0, 12, BlockModel::Top(t)),
        (0, 7, 0, BlockModel::Top(t)),
    ]);
    let meshes = build_chunk_meshes(vec![(origin(), chunk)], None);
    assert_eq!(meshes.len(), 1);
    let firsts: Vec<BlockPos> = meshes[0].vertices.iter().step_by(4).map(|v| v.position).collect();
    assert_eq!(
        firsts,
        vec![
            BlockPos { x: 2, y: 1, z: 12 },
            BlockPos { x: 3, y: 1, z: 2 },
            BlockPos { x: 3, y: 1, z: 9 },
            BlockPos { x: 0, y: 8, z: 0 },
            BlockPos { x: 15, y: 16, z: 15 },
        ]
    );
}

#[test]
fn chunks_are_walked_in_the_order_given() {
    let a = UvTexture { id: 1 };
    let b = UvTexture { id: 2 };
    let first = chunk_with(&[(0, 0, 0, BlockModel::Top(b))]);
    let second = chunk_with(&[(0, 0, 0, BlockModel::Top(a))]);
    let meshes = build_chunk_meshes(
        vec![(ChunkPos { x: 5, y: 5, z: 5 }, first), (origin(), second)],
        None,
    );
    assert_eq!(textures(&meshes), vec![b, a]);
}

#[test]
fn a_full_chunk_of_one_texture() {
    let t = UvTexture { id: 1 };
    let mut chunk = ChunkModel::new();
    for x in 0..16 {
        for y in 0..16 {
            for z in 0..16 {
                chunk.set(x, y, z, BlockModel::TopPx(t));
            }
        }
    }
    let meshes = build_chunk_meshes(vec![(origin(), chunk)], None);
    assert_eq!(meshes.len(), 1);
    assert_eq!(meshes[0].vertices.len(), 4096 * 2 * 4);
    assert_eq!(meshes[0].indices, triangles(4096 * 2));
    let last = BlockPos { x: 15, y: 15, z: 15 };
    assert_eq!(meshes[0].vertices[4096 * 8 - 4..], Face::Px.vertices(last, t));
}

#[test]
fn the_outermost_chunks_have_positions() {
    let t = UvTexture { id: 1 };
    let chunk = chunk_with(&[(15, 15, 15, BlockModel::TopPx(t))]);
    let meshes = build_chunk_meshes(
        vec![(ChunkPos { x: i32::MAX, y: i32::MIN, z: i32::MAX }, chunk)],
        None,
    );
    assert_eq!(meshes.len(), 1);
    assert_eq!(
        meshes[0].vertices[2].position,
        BlockPos { x: 34_359_738_368, y: -34_359_738_352, z: 34_359_738_368 }
    );
}

#[test]
fn every_mesh_carries_the_atlas() {
    let atlas = Texture2D::from_miniquad_texture(TextureId::from_raw_id(RawId::OpenGl(3)));
    let chunk = chunk_with(&[
        (0, 0, 0, BlockModel::Top(UvTexture { id: 1 })),
        (1, 0, 0, BlockModel::Top(UvTexture { id: 2 })),
    ]);
    let meshes = build_chunk_meshes(vec![(origin(), chunk)], Some(atlas.clone()));
    assert_eq!(meshes.len(), 2);
    assert!(meshes.iter().all(|mesh| mesh.atlas == Some(atlas.clone())));
}

#[test]
fn process_block_model_hands_on_the_faces_of_the_model() {
    let t = UvTexture { id: 6 };
    let pos = BlockPos { x: -1, y: -1, z: -1 };
    let mut meshes = Meshes::new(None);
    process_block_model(&BlockModel::BottomNx(t), pos, &mut meshes);
    process_block_model(&BlockModel::PzNz(t), pos, &mut meshes);
    process_block_model(&BlockModel::Nz(t), pos, &mut meshes);
    let built = meshes.into_meshes();
    assert_eq!(built.len(), 1);
    assert_eq!(
        built[0].vertices,
        quads(&[
            Face::Bottom.vertices(pos, t),
            Face::Nx.vertices(pos, t),
            Face::Nz.vertices(pos, t),
        ])
    );
    assert_eq!(built[0].indices, triangles(3));
}

#[test]
fn every_index_names_a_vertex_of_its_mesh() {
    let a = UvTexture { id: 1 };
    let b = UvTexture { id: 2 };
    let chunk = chunk_with(&[
        (0, 0, 0, BlockModel::TopPx(a)),
        (1, 0, 0, BlockModel::NxNz(b)),
        (2, 0, 0, BlockModel::Bottom(a)),
        (3, 0, 0, BlockModel::PxNx(b)),
    ]);
    let meshes = build_chunk_meshes(vec![(origin(), chunk)], None);
    assert_eq!(meshes.len(), 2);
    for mesh in &meshes {
        assert_eq!(mesh.vertices.len() % 4, 0);
        assert_eq!(mesh.indices.len(), mesh.vertices.len() / 4 * 6);
        assert!(mesh.indices.iter().all(|&index| index < mesh.vertices.len()));
    }
    assert_eq!(meshes[0].vertices.len(), 12);
    assert_eq!(meshes[1].vertices.len(), 8);
}
