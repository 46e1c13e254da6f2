use vstd::prelude::*;
use crate::block::BlockType;
use crate::chunk::{Chunk, ChunkPos, CHUNK_SIZE};
use crate::rounding::{f32_spacing, f32_value, f32_value_of};

verus! {

/// The position of a block in the world.
#[derive(Clone, Copy, PartialEq, Eq, Debug, Structural)]
pub struct BlockPos {
    pub x: i32,
    pub y: i32,
    pub z: i32,
}

/// What a click does: nothing, highlight blocks to place next to, or highlight blocks to
/// remove.
#[derive(Clone, Copy, PartialEq, Eq, Debug, Structural)]
pub enum GameMode {
    Normal,
    Insert,
    Delete,
}

/// The key presses and clicks that change the mode or edit the world.
#[derive(Clone, Copy, PartialEq, Eq, Debug, Structural)]
pub enum InputEvent {
    EscapePressed,
    Num1Pressed,
    Num2Pressed,
    Num3Pressed,
    /// The primary (left) mouse button.
    PrimaryClick,
    /// The secondary (right) mouse button.
    SecondaryClick,
}

/// The edit that an event asks for.
#[derive(Clone, Copy, PartialEq, Eq, Debug, Structural)]
pub enum EditAction {
    NoEdit,
    PlaceBlock,
    RemoveBlock,
}

/// The mode after `event`: Escape and 1 go back to normal, 2 to insert, 3 to delete; clicks
/// keep the mode.
pub open spec fn mode_after_event(mode: GameMode, event: InputEvent) -> GameMode {
    match event {
        InputEvent::EscapePressed => GameMode::Normal,
        InputEvent::Num1Pressed => GameMode::Normal,
        InputEvent::Num2Pressed => GameMode::Insert,
        InputEvent::Num3Pressed => GameMode::Delete,
        _ => mode,
    }
}

/// The edit `event` asks for in `mode`: a secondary click places a block in insert mode, a
/// primary click removes one in delete mode.
pub open spec fn edit_for_event(mode: GameMode, event: InputEvent) -> EditAction {
    match event {
        InputEvent::SecondaryClick => if mode == GameMode::Insert {
            EditAction::PlaceBlock
        } else {
            EditAction::NoEdit
        },
        InputEvent::PrimaryClick => if mode == GameMode::Delete {
            EditAction::RemoveBlock
        } else {
            EditAction::NoEdit
        },
        _ => EditAction::NoEdit,
    }
}

/// A block is placed only in insert mode and removed only in delete mode; clicks never change
/// the mode, and the mode keys set it whatever it was before.
pub proof fn law_edits_follow_mode(mode: GameMode, other: GameMode, event: InputEvent)
    ensures
        edit_for_event(mode, event) == EditAction::PlaceBlock ==> mode == GameMode::Insert,
        edit_for_event(mode, event) == EditAction::RemoveBlock ==> mode == GameMode::Delete,
        (event == InputEvent::PrimaryClick || event == InputEvent::SecondaryClick) ==> mode_after_event(mode, event) == mode,
        !(event == InputEvent::PrimaryClick || event == InputEvent::SecondaryClick) ==> mode_after_event(mode, event)
            == mode_after_event(other, event),
{
}

/// The mode after `event` and the edit it asks for.
pub fn handle_event(mode: GameMode, event: InputEvent) -> (r: (GameMode, EditAction))
    ensures
        r.0 == mode_after_event(mode, event),
        r.1 == edit_for_event(mode, event),
{
    match event {
        InputEvent::EscapePressed => (GameMode::Normal, EditAction::NoEdit),
        InputEvent::Num1Pressed => (GameMode::Normal, EditAction::NoEdit),
        InputEvent::Num2Pressed => (GameMode::Insert, EditAction::NoEdit),
        InputEvent::Num3Pressed => (GameMode::Delete, EditAction::NoEdit),
        InputEvent::SecondaryClick => {
            if mode == GameMode::Insert {
                (mode, EditAction::PlaceBlock)
            } else {
                (mode, EditAction::NoEdit)
            }
        },
        InputEvent::PrimaryClick => {
            if mode == GameMode::Delete {
                (mode, EditAction::RemoveBlock)
            } else {
                (mode, EditAction::NoEdit)
            }
        },
    }
}

/// The largest world coordinate, in either direction, up to which a single-precision float
/// holds every integer exactly.
pub const EXACT_COORD_LIMIT: i32 = 16777216;

/// Whether a world coordinate is within the exact range.
pub open spec fn coord_exact(v: int) -> bool {
    -EXACT_COORD_LIMIT <= v <= EXACT_COORD_LIMIT
}

/// The chunk coordinate of world coordinate `v`: the single-precision value of `v` divided by
/// 16 and rounded down. Within the exact range this is `v / 16` rounded down.
pub open spec fn chunk_coord(v: int) -> int {
    f32_value(v) / (CHUNK_SIZE as int)
}

/// The coordinate of `v` inside the chunk that `chunk_coord` names; outside the exact range
/// it may fall outside `0..16`.
pub open spec fn local_coord(v: int) -> int {
    v - chunk_coord(v) * CHUNK_SIZE
}

/// `v / 16` rounded down.
fn floor_div_chunk(v: i64) -> (r: i64)
    requires
        -0x8000_0000 <= v <= 0x8000_0000,
    ensures
        r == v as int / 16,
        0 <= v - r * 16 < 16,
{
    if v >= 0 {
        v / 16
    } else {
        let w = -(v + 1);
        let q = w / 16;
        let r = -1 - q;
        assert(r == v as int / 16) by (nonlinear_arith)
            requires
                v < 0,
                w == -(v + 1),
                q == w / 16,
                r == -1 - q,
        ;
        r
    }
}

/// The chunk coordinate of world coordinate `v` and the coordinate of `v` inside it.
fn split_coord(v: i32) -> (r: (i32, i32))
    ensures
        r.0 == chunk_coord(v as int),
        r.1 == local_coord(v as int),
        -0x800_0000 <= r.0 <= 0x800_0000,
        coord_exact(v as int) ==> r.0 == v as int / 16 && 0 <= r.1 < CHUNK_SIZE,
{
    let f = f32_value_of(v);
    let c = floor_div_chunk(f);
    assert(-0x800_0000 <= c <= 0x800_0000);
    let local = v as i64 - c * 16;
    assert(-144 <= local <= 144);
    proof {
        if coord_exact(v as int) {
            assert(f32_spacing(v as int) == 1 || f32_spacing(-v as int) == 1);
            assert(f == v);
        }
    }
    (c as i32, local as i32)
}

/// The chunk that holds `pos` and the coordinates of `pos` inside it, found as the original
/// game finds them: through single-precision floor division of the world coordinates by 16.
/// Up to 2^24 in magnitude this is exact floor division; beyond it the float's rounding can
/// name a neighbouring chunk, with local coordinates outside `0..16`.
pub fn locate(pos: BlockPos) -> (r: (ChunkPos, i32, i32))
    ensures
        r.0 == (ChunkPos { x: chunk_coord(pos.x as int) as i32, z: chunk_coord(pos.z as int) as i32 }),
        r.1 == local_coord(pos.x as int),
        r.2 == local_coord(pos.z as int),
        pos.x == r.0.x * CHUNK_SIZE + r.1,
        pos.z == r.0.z * CHUNK_SIZE + r.2,
        -0x800_0000 <= r.0.x <= 0x800_0000,
        -0x800_0000 <= r.0.z <= 0x800_0000,
        coord_exact(pos.x as int) ==> r.0.x == pos.x / 16 && 0 <= r.1 < CHUNK_SIZE,
        coord_exact(pos.z as int) ==> r.0.z == pos.z / 16 && 0 <= r.2 < CHUNK_SIZE,
{
    let (cx, lx) = split_coord(pos.x);
    let (cz, lz) = split_coord(pos.z);
    (ChunkPos { x: cx, z: cz }, lx, lz)
}

/// The chunks next to the chunk at `c` whose faces touch the cell at local `(lx, lz)`, in
/// the order -x, +x, -z, +z: their meshes show the cell's neighbours.
pub open spec fn touching_chunks(c: ChunkPos, lx: int, lz: int) -> Seq<ChunkPos> {
    let a = if lx == 0 { seq![ChunkPos { x: (c.x - 1) as i32, z: c.z }] } else { seq![] };
    let b = if lx == CHUNK_SIZE - 1 { seq![ChunkPos { x: (c.x + 1) as i32, z: c.z }] } else { seq![] };
    let d = if lz == 0 { seq![ChunkPos { x: c.x, z: (c.z - 1) as i32 }] } else { seq![] };
    let e = if lz == CHUNK_SIZE - 1 { seq![ChunkPos { x: c.x, z: (c.z + 1) as i32 }] } else { seq![] };
    a + b + d + e
}

/// A change to one block: where it goes, what it becomes, and which neighbouring chunks must
/// rebuild their meshes.
pub struct BlockEdit {
    pub chunk: ChunkPos,
    pub local_x: i32,
    pub y: i32,
    pub local_z: i32,
    pub block: BlockType,
    pub stale_neighbours: Vec<ChunkPos>,
}

/// How setting the block at `pos` to `block` is carried out.
pub fn plan_edit(pos: BlockPos, block: BlockType) -> (r: BlockEdit)
    ensures
        r.chunk == (ChunkPos { x: chunk_coord(pos.x as int) as i32, z: chunk_coord(pos.z as int) as i32 }),
        r.local_x == local_coord(pos.x as int),
        r.y == pos.y,
        r.local_z == local_coord(pos.z as int),
        r.block == block,
        r.stale_neighbours@ == touching_chunks(r.chunk, r.local_x as int, r.local_z as int),
{
    let (c, lx, lz) = locate(pos);
    let mut stale: Vec<ChunkPos> = Vec::new();
    if lx == 0 {
        stale.push(ChunkPos { x: c.x - 1, z: c.z });
    }
    if lx == CHUNK_SIZE - 1 {
        stale.push(ChunkPos { x: c.x + 1, z: c.z });
    }
    if lz == 0 {
        stale.push(ChunkPos { x: c.x, z: c.z - 1 });
    }
    if lz == CHUNK_SIZE - 1 {
        stale.push(ChunkPos { x: c.x, z: c.z + 1 });
    }
    assert(stale@ =~= touching_chunks(c, lx as int, lz as int));
    BlockEdit { chunk: c, local_x: lx, y: pos.y, local_z: lz, block, stale_neighbours: stale }
}

/// An edit away from the sides of its chunk leaves every other chunk's mesh alone, and an
/// edit at a side names the chunk across it.
pub proof fn law_edit_marks_only_touching_chunks(c: ChunkPos, lx: int, lz: int)
    requires
        0 <= lx < CHUNK_SIZE,
        0 <= lz < CHUNK_SIZE,
    ensures
        (0 < lx < CHUNK_SIZE - 1 && 0 < lz < CHUNK_SIZE - 1) <==> touching_chunks(c, lx, lz).len() == 0,
        lx == 0 ==> touching_chunks(c, lx, lz).contains(ChunkPos { x: (c.x - 1) as i32, z: c.z }),
        lx == CHUNK_SIZE - 1 ==> touching_chunks(c, lx, lz).contains(ChunkPos { x: (c.x + 1) as i32, z: c.z }),
        lz == 0 ==> touching_chunks(c, lx, lz).contains(ChunkPos { x: c.x, z: (c.z - 1) as i32 }),
        lz == CHUNK_SIZE - 1 ==> touching_chunks(c, lx, lz).contains(ChunkPos { x: c.x, z: (c.z + 1) as i32 }),
{
    let t = touching_chunks(c, lx, lz);
    if lx == 0 {
        assert(t[0] == ChunkPos { x: (c.x - 1) as i32, z: c.z });
    }
    if lx == CHUNK_SIZE - 1 {
        assert(t[0] == ChunkPos { x: (c.x + 1) as i32, z: c.z });
    }
    if lz == 0 {
        assert(t[t.len() - 1] == ChunkPos { x: c.x, z: (c.z - 1) as i32 });
    }
    if lz == CHUNK_SIZE - 1 {
        assert(t[t.len() - 1] == ChunkPos { x: c.x, z: (c.z + 1) as i32 });
    }
}

/// Carries out `edit` on the chunk it names, unrotated.
pub fn apply_edit(chunk: &mut Chunk, edit: &BlockEdit)
    requires
        old(chunk).wf(),
    ensures
        final(chunk).wf(),
        final(chunk).pos == old(chunk).pos,
        forall|i: int, j: int, k: int| #[trigger] final(chunk).block_at(i, j, k) == if i == edit.local_x
            && j == edit.y && k == edit.local_z && crate::chunk::in_chunk(i, j, k) {
            edit.block
        } else {
            old(chunk).block_at(i, j, k)
        },
        forall|i: int, j: int, k: int| #[trigger] final(chunk).rotation_at(i, j, k) == if i == edit.local_x
            && j == edit.y && k == edit.local_z && crate::chunk::in_chunk(i, j, k) {
            crate::command::no_rotation()
        } else {
            old(chunk).rotation_at(i, j, k)
        },
        final(chunk).needs_mesh == (old(chunk).needs_mesh || crate::chunk::in_chunk(
            edit.local_x as int,
            edit.y as int,
            edit.local_z as int,
        )),
{
    chunk.set_block(edit.local_x, edit.y, edit.local_z, edit.block, crate::command::Rotation::none());
}

/// Whether a face next to the cell at local `(x, y, z)` of `chunk` shows: it does when no
/// chunk is loaded there, below the world, or when the cell is air.
pub open spec fn exposed(chunk: Option<Chunk>, x: int, y: int, z: int) -> bool {
    match chunk {
        None => true,
        Some(c) => if 0 <= x < CHUNK_SIZE && 0 <= z < CHUNK_SIZE && y >= 0 {
            c.block_at(x, y, z) == BlockType::Air
        } else {
            true
        },
    }
}

/// Whether a face next to the cell at local `(x, y, z)` of `chunk` shows.
pub fn is_exposed(chunk: Option<&Chunk>, x: i32, y: i32, z: i32) -> (r: bool)
    requires
        chunk matches Some(c) ==> c.wf(),
    ensures
        r == exposed(
            match chunk {
                Some(c) => Some(*c),
                None => None,
            },
            x as int,
            y as int,
            z as int,
        ),
{
    match chunk {
        None => true,
        Some(c) => {
            if x >= 0 && x < CHUNK_SIZE && z >= 0 && z < CHUNK_SIZE && y >= 0 {
                c.get_block(x, y, z) == BlockType::Air
            } else {
                true
            }
        },
    }
}

/// The face of `solid` that `air` lies against, numbered top, bottom, front (+z), back (-z),
/// right (+x), left (-x): the first axis, in the order y, z, x, on which they differ decides.
pub open spec fn face_between(air: BlockPos, solid: BlockPos) -> usize {
    let dx = air.x - solid.x;
    let dy = air.y - solid.y;
    let dz = air.z - solid.z;
    if dy > 0 {
        0
    } else if dy < 0 {
        1
    } else if dz > 0 {
        2
    } else if dz < 0 {
        3
    } else if dx > 0 {
        4
    } else {
        5
    }
}

/// The face of `solid` that `air` lies against.
pub fn determine_face(air: BlockPos, solid: BlockPos) -> (r: usize)
    ensures
        r == face_between(air, solid),
        r < 6,
{
    if air.y > solid.y {
        0
    } else if air.y < solid.y {
        1
    } else if air.z > solid.z {
        2
    } else if air.z < solid.z {
        3
    } else if air.x > solid.x {
        4
    } else {
        5
    }
}

/// The six blocks next to `pos`, in face order: above, below, +z, -z, +x, -x.
pub open spec fn neighbours_of(pos: BlockPos) -> Seq<BlockPos> {
    seq![
        BlockPos { x: pos.x, y: (pos.y + 1) as i32, z: pos.z },
        BlockPos { x: pos.x, y: (pos.y - 1) as i32, z: pos.z },
        BlockPos { x: pos.x, y: pos.y, z: (pos.z + 1) as i32 },
        BlockPos { x: pos.x, y: pos.y, z: (pos.z - 1) as i32 },
        BlockPos { x: (pos.x + 1) as i32, y: pos.y, z: pos.z },
        BlockPos { x: (pos.x - 1) as i32, y: pos.y, z: pos.z },
    ]
}

/// The six blocks next to `pos`, in face order.
pub fn neighbours(pos: BlockPos) -> (r: Vec<BlockPos>)
    requires
        i32::MIN < pos.x < i32::MAX,
        i32::MIN < pos.y < i32::MAX,
        i32::MIN < pos.z < i32::MAX,
    ensures
        r@ == neighbours_of(pos),
{
    let r = vec![
        BlockPos { x: pos.x, y: pos.y + 1, z: pos.z },
        BlockPos { x: pos.x, y: pos.y - 1, z: pos.z },
        BlockPos { x: pos.x, y: pos.y, z: pos.z + 1 },
        BlockPos { x: pos.x, y: pos.y, z: pos.z - 1 },
        BlockPos { x: pos.x + 1, y: pos.y, z: pos.z },
        BlockPos { x: pos.x - 1, y: pos.y, z: pos.z },
    ];
    assert(r@ =~= neighbours_of(pos));
    r
}

} // verus!
