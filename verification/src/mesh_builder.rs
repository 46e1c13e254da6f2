use vstd::prelude::*;
use crate::block::{BlockType, FaceDirection, RenderType, is_see_through_kind, kind_render_type};
use crate::chunk::{Chunk, CHUNK_VOLUME};

verus! {

/// Decides what of a chunk is drawn.
pub struct MeshBuilder;

/// The step from a cell to the neighbour that a face looks at.
pub open spec fn face_offset(face: FaceDirection) -> (int, int, int) {
    match face {
        FaceDirection::Top => (0, 1, 0),
        FaceDirection::Bottom => (0, -1, 0),
        FaceDirection::Front => (0, 0, 1),
        FaceDirection::Back => (0, 0, -1),
        FaceDirection::Right => (1, 0, 0),
        FaceDirection::Left => (-1, 0, 0),
    }
}

/// The faces of a cube in the order they are drawn.
pub open spec fn cube_faces() -> Seq<FaceDirection> {
    seq![
        FaceDirection::Top,
        FaceDirection::Bottom,
        FaceDirection::Front,
        FaceDirection::Back,
        FaceDirection::Right,
        FaceDirection::Left,
    ]
}

/// Whether a face of a full cube of `block` shows against its neighbour `adjacent`: water
/// shows only against air, every other block against any see-through block.
pub open spec fn face_shows(block: BlockType, adjacent: BlockType) -> bool {
    if block == BlockType::Water {
        adjacent == BlockType::Air
    } else {
        is_see_through_kind(adjacent)
    }
}

/// Whether the face `face` of the block at `(x, y, z)` of `chunk` shows.
pub open spec fn face_visible(chunk: Chunk, x: int, y: int, z: int, face: FaceDirection) -> bool {
    let (dx, dy, dz) = face_offset(face);
    face_shows(chunk.block_at(x, y, z), chunk.block_at(x + dx, y + dy, z + dz))
}

/// The faces of `faces` that show for the block at `(x, y, z)` of `chunk`, in order.
pub open spec fn shown_faces(chunk: Chunk, x: int, y: int, z: int, faces: Seq<FaceDirection>) -> Seq<FaceDirection>
    decreases faces.len(),
{
    if faces.len() == 0 {
        seq![]
    } else {
        let prev = shown_faces(chunk, x, y, z, faces.drop_last());
        if face_visible(chunk, x, y, z, faces.last()) {
            prev.push(faces.last())
        } else {
            prev
        }
    }
}

/// One non-air cell of a chunk and how it is drawn: the faces that show are listed for full
/// cubes; plants and scaled cubes are drawn whole.
pub struct MeshPiece {
    pub x: i32,
    pub y: i32,
    pub z: i32,
    pub block: BlockType,
    pub render_type: RenderType,
    pub faces: Vec<FaceDirection>,
}

/// A mesh piece with its faces read as a sequence.
pub struct PieceView {
    pub x: int,
    pub y: int,
    pub z: int,
    pub block: BlockType,
    pub render_type: RenderType,
    pub faces: Seq<FaceDirection>,
}

impl View for MeshPiece {
    type V = PieceView;

    open spec fn view(&self) -> PieceView {
        PieceView {
            x: self.x as int,
            y: self.y as int,
            z: self.z as int,
            block: self.block,
            render_type: self.render_type,
            faces: self.faces@,
        }
    }
}

/// The cell visited at step `i` of a walk through the 16 x 160 x 16 chunk with x outermost,
/// then y, then z.
pub open spec fn step_cell(i: int) -> (int, int, int) {
    (i / 2560, (i / 16) % 160, i % 16)
}

/// How the cell at `(x, y, z)` of `chunk` is drawn.
pub open spec fn piece_at(chunk: Chunk, x: int, y: int, z: int) -> PieceView {
    let block = chunk.block_at(x, y, z);
    let render_type = kind_render_type(block);
    PieceView {
        x,
        y,
        z,
        block,
        render_type,
        faces: if render_type == RenderType::FullCube {
            shown_faces(chunk, x, y, z, cube_faces())
        } else {
            seq![]
        },
    }
}

/// The pieces of the first `n` steps of the walk through `chunk`, skipping air.
pub open spec fn mesh_plan(chunk: Chunk, n: nat) -> Seq<PieceView>
    decreases n,
{
    if n == 0 {
        seq![]
    } else {
        let prev = mesh_plan(chunk, (n - 1) as nat);
        let (x, y, z) = step_cell(n - 1);
        if chunk.block_at(x, y, z) == BlockType::Air {
            prev
        } else {
            prev.push(piece_at(chunk, x, y, z))
        }
    }
}

proof fn lemma_shown_faces(chunk: Chunk, x: int, y: int, z: int, faces: Seq<FaceDirection>, f: FaceDirection)
    ensures
        shown_faces(chunk, x, y, z, faces).contains(f) <==> (faces.contains(f) && face_visible(chunk, x, y, z, f)),
    decreases faces.len(),
{
    if faces.len() > 0 {
        let prev = shown_faces(chunk, x, y, z, faces.drop_last());
        lemma_shown_faces(chunk, x, y, z, faces.drop_last(), f);
        assert(faces =~= faces.drop_last().push(faces.last()));
        if faces.drop_last().contains(f) {
            let k = choose|k: int| 0 <= k < faces.drop_last().len() && faces.drop_last()[k] == f;
            assert(faces[k] == f);
        }
        if faces.contains(f) && f != faces.last() {
            let k = choose|k: int| 0 <= k < faces.len() && faces[k] == f;
            assert(faces.drop_last()[k] == f);
        }
        if face_visible(chunk, x, y, z, faces.last()) {
            assert(prev.push(faces.last())[prev.len() as int] == faces.last());
            if prev.contains(f) {
                let k = choose|k: int| 0 <= k < prev.len() && prev[k] == f;
                assert(prev.push(faces.last())[k] == f);
            }
            if prev.push(faces.last()).contains(f) && f != faces.last() {
                let k = choose|k: int| 0 <= k < prev.len() + 1 && prev.push(faces.last())[k] == f;
                assert(prev[k] == f);
            }
        }
        assert(faces[faces.len() - 1] == faces.last());
    }
}

/// A full cube lists a face exactly when the neighbour behind it lets it show: hidden faces
/// are never drawn and visible ones never dropped.
pub proof fn law_only_visible_faces_drawn(chunk: Chunk, x: int, y: int, z: int, f: FaceDirection)
    ensures
        shown_faces(chunk, x, y, z, cube_faces()).contains(f) <==> face_visible(chunk, x, y, z, f),
{
    lemma_shown_faces(chunk, x, y, z, cube_faces(), f);
    let k: int = match f {
        FaceDirection::Top => 0,
        FaceDirection::Bottom => 1,
        FaceDirection::Front => 2,
        FaceDirection::Back => 3,
        FaceDirection::Right => 4,
        FaceDirection::Left => 5,
    };
    assert(cube_faces()[k] == f);
}

proof fn lemma_plan_members(chunk: Chunk, n: nat)
    ensures
        forall|k: int| 0 <= k < mesh_plan(chunk, n).len() ==> {
            let p = #[trigger] mesh_plan(chunk, n)[k];
            p == piece_at(chunk, p.x, p.y, p.z) && p.block != BlockType::Air
        },
        forall|i: int| 0 <= i < n && chunk.block_at(#[trigger] step_cell(i).0, step_cell(i).1, step_cell(i).2)
            != BlockType::Air ==> mesh_plan(chunk, n).contains(
                piece_at(chunk, step_cell(i).0, step_cell(i).1, step_cell(i).2),
            ),
    decreases n,
{
    if n > 0 {
        let m = (n - 1) as nat;
        lemma_plan_members(chunk, m);
        let prev = mesh_plan(chunk, m);
        let plan = mesh_plan(chunk, n);
        assert forall|i: int| 0 <= i < n && chunk.block_at(#[trigger] step_cell(i).0, step_cell(i).1, step_cell(i).2)
            != BlockType::Air implies plan.contains(
                piece_at(chunk, step_cell(i).0, step_cell(i).1, step_cell(i).2),
            ) by {
            let q = piece_at(chunk, step_cell(i).0, step_cell(i).1, step_cell(i).2);
            if i < m {
                assert(prev.contains(q));
                let k = choose|k: int| 0 <= k < prev.len() && prev[k] == q;
                assert(plan[k] == q);
            } else {
                assert(plan[plan.len() - 1] == q);
            }
        }
    }
}

/// Exactly the non-air cells of a chunk are drawn, each as its own piece.
pub proof fn law_mesh_covers_solid_cells(chunk: Chunk, x: int, y: int, z: int)
    requires
        crate::chunk::in_chunk(x, y, z),
    ensures
        chunk.block_at(x, y, z) != BlockType::Air <==> mesh_plan(chunk, CHUNK_VOLUME as nat).contains(
            piece_at(chunk, x, y, z),
        ),
        forall|k: int| 0 <= k < mesh_plan(chunk, CHUNK_VOLUME as nat).len() ==> {
            let p = #[trigger] mesh_plan(chunk, CHUNK_VOLUME as nat)[k];
            p == piece_at(chunk, p.x, p.y, p.z) && p.block != BlockType::Air
        },
{
    lemma_plan_members(chunk, CHUNK_VOLUME as nat);
    let i = x * 2560 + y * 16 + z;
    assert(0 <= i < 40960 && step_cell(i) == (x, y, z)) by (nonlinear_arith)
        requires
            0 <= x < 16,
            0 <= y < 160,
            0 <= z < 16,
            i == x * 2560 + y * 16 + z,
    ;
    let plan = mesh_plan(chunk, CHUNK_VOLUME as nat);
    let c = step_cell(i);
    assert(c.0 == x && c.1 == y && c.2 == z);
    assert(i < CHUNK_VOLUME);
    if plan.contains(piece_at(chunk, x, y, z)) {
        let k = choose|k: int| 0 <= k < plan.len() && plan[k] == piece_at(chunk, x, y, z);
        assert(plan[k].block != BlockType::Air);
    }
}

impl MeshBuilder {
    /// Whether a face of a full cube of `block` shows against `adjacent`.
    pub fn should_render_face(block: BlockType, adjacent: BlockType) -> (r: bool)
        ensures
            r == face_shows(block, adjacent),
    {
        if block == BlockType::Water {
            adjacent == BlockType::Air
        } else {
            adjacent.is_transparent()
        }
    }

    /// The faces of the full cube at local `(x, y, z)` of `chunk` that show, in drawing order.
    pub fn visible_faces(chunk: &Chunk, x: i32, y: i32, z: i32) -> (r: Vec<FaceDirection>)
        requires
            chunk.wf(),
            crate::chunk::in_chunk(x as int, y as int, z as int),
        ensures
            r@ == shown_faces(*chunk, x as int, y as int, z as int, cube_faces()),
    {
        let block = chunk.get_block(x, y, z);
        let faces: Vec<(FaceDirection, i32, i32, i32)> = vec![
            (FaceDirection::Top, 0, 1, 0),
            (FaceDirection::Bottom, 0, -1, 0),
            (FaceDirection::Front, 0, 0, 1),
            (FaceDirection::Back, 0, 0, -1),
            (FaceDirection::Right, 1, 0, 0),
            (FaceDirection::Left, -1, 0, 0),
        ];
        let mut r: Vec<FaceDirection> = Vec::new();
        for i in 0..faces.len()
            invariant
                chunk.wf(),
                crate::chunk::in_chunk(x as int, y as int, z as int),
                block == chunk.block_at(x as int, y as int, z as int),
                faces@.len() == 6,
                forall|k: int| 0 <= k < 6 ==> {
                    let (f, dx, dy, dz) = #[trigger] faces@[k];
                    f == cube_faces()[k] && face_offset(f) == (dx as int, dy as int, dz as int)
                },
                r@ == shown_faces(*chunk, x as int, y as int, z as int, cube_faces().take(i as int)),
        {
            let (face, dx, dy, dz) = faces[i];
            let adjacent = chunk.get_block(x + dx, y + dy, z + dz);
            assert(cube_faces().take(i + 1).drop_last() =~= cube_faces().take(i as int));
            if Self::should_render_face(block, adjacent) {
                r.push(face);
            }
        }
        assert(cube_faces().take(6) =~= cube_faces());
        r
    }

    /// Every non-air cell of `chunk` with how it is drawn, x outermost, then y, then z.
    pub fn plan_chunk_mesh(chunk: &Chunk) -> (r: Vec<MeshPiece>)
        requires
            chunk.wf(),
        ensures
            r@.map_values(|p: MeshPiece| p@) == mesh_plan(*chunk, CHUNK_VOLUME as nat),
    {
        let mut r: Vec<MeshPiece> = Vec::new();
        let mut i: usize = 0;
        while i < CHUNK_VOLUME
            invariant
                chunk.wf(),
                i <= CHUNK_VOLUME,
                r@.map_values(|p: MeshPiece| p@) == mesh_plan(*chunk, i as nat),
            decreases CHUNK_VOLUME - i,
        {
            let x = (i / 2560) as i32;
            let y = ((i / 16) % 160) as i32;
            let z = (i % 16) as i32;
            assert(step_cell(i as int) == (x as int, y as int, z as int));
            assert(crate::chunk::in_chunk(x as int, y as int, z as int));
            let block = chunk.get_block(x, y, z);
            let ghost prev = r@;
            if block != BlockType::Air {
                let render_type = block.get_render_type();
                let faces = match render_type {
                    RenderType::FullCube => Self::visible_faces(chunk, x, y, z),
                    _ => Vec::new(),
                };
                let piece = MeshPiece { x, y, z, block, render_type, faces };
                assert(piece@ == piece_at(*chunk, x as int, y as int, z as int));
                r.push(piece);
                assert(r@.map_values(|p: MeshPiece| p@) =~= prev.map_values(|p: MeshPiece| p@).push(piece@));
            }
            i = i + 1;
        }
        r
    }
}

} // verus!
