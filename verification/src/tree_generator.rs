use vstd::prelude::*;
use crate::block::{BlockType, is_see_through_kind};
use crate::chunk::{CHUNK_SIZE, Chunk, in_chunk};
use crate::command::{Rotation, no_rotation};
use crate::rng::{SeededRng, add32, column_seed, lcg, wrap32};
use crate::biome::{Biome, BiomeManager};
use crate::chunk::{CHUNK_HEIGHT, surface};
use crate::lexing::{chars_equal, str_chars};
use crate::terrain::TerrainSample;

verus! {

/// The largest magnitude of a coordinate handed to the tree builders: a tree reaches at most
/// sixteen blocks beyond its base, so its cells stay within `i32`.
pub const COORD_LIMIT: i32 = 2147483615;

/// Whether a coordinate lies in the range the tree builders accept.
pub open spec fn coord_ok(v: int) -> bool {
    -COORD_LIMIT <= v <= COORD_LIMIT
}

/// Whether a coordinate lies within a tree's reach of the accepted range.
pub open spec fn near_coord(v: int) -> bool {
    -COORD_LIMIT - 16 <= v <= COORD_LIMIT + 16
}

/// The kinds of tree the world grows.
#[derive(Clone, Copy, PartialEq, Eq, Debug, Structural)]
pub enum TreeType {
    Oak,
    Spruce,
    Birch,
    Cactus,
}

/// Whether a tree may grow through a cell holding `b`.
pub open spec fn clear_for_tree(b: BlockType) -> bool {
    b == BlockType::Air || is_see_through_kind(b)
}

/// Whether leaves may replace `b`.
pub open spec fn replaceable_by_leaves(b: BlockType) -> bool {
    b == BlockType::Air || b == BlockType::SnowLayer
}

/// One cell of a tree crown, in chunk-local coordinates, with its mark: 1 for a leaf,
/// 2 for a cell that must only be free, 0 for a cell the crown leaves alone.
#[derive(Clone, Copy)]
pub struct CrownCell {
    pub x: i32,
    pub y: i32,
    pub z: i32,
    pub mark: u8,
}

/// Whether `(i, j, k)` is one of the `h` trunk cells above `(x, base_y, z)`.
pub open spec fn in_trunk(x: int, base_y: int, z: int, h: int, i: int, j: int, k: int) -> bool {
    i == x && k == z && base_y <= j < base_y + h
}

/// Whether the crown puts a leaf at `(i, j, k)`.
pub open spec fn crown_leaf(cells: Seq<CrownCell>, i: int, j: int, k: int) -> bool {
    exists|n: int|
        0 <= n < cells.len() && cells[n].mark == 1 && cells[n].x == i && cells[n].y == j
            && #[trigger] cells[n].z == k
}

/// Whether the cells of `cells` are at distinct positions.
pub open spec fn distinct_cells(cells: Seq<CrownCell>) -> bool {
    forall|a: int, b: int|
        0 <= a < b < cells.len() ==> !(cells[a].x == cells[b].x && cells[a].y == cells[b].y
            && cells[a].z == cells[b].z)
}

/// Whether the trunk and every marked crown cell find room in `chunk`.
pub open spec fn tree_fits(chunk: Chunk, x: int, base_y: int, z: int, h: int, cells: Seq<CrownCell>) -> bool {
    &&& forall|t: int| 0 <= t < h ==> clear_for_tree(#[trigger] chunk.block_at(x, base_y + t, z))
    &&& forall|n: int|
        0 <= n < cells.len() && #[trigger] cells[n].mark != 0 ==> clear_for_tree(
            chunk.block_at(cells[n].x as int, cells[n].y as int, cells[n].z as int),
        )
}

/// Whether growing the tree writes the cell `(i, j, k)` of `chunk`.
pub open spec fn tree_writes(
    chunk: Chunk,
    x: int,
    base_y: int,
    z: int,
    h: int,
    cells: Seq<CrownCell>,
    i: int,
    j: int,
    k: int,
) -> bool {
    in_chunk(i, j, k) && (in_trunk(x, base_y, z, h, i, j, k) || (crown_leaf(cells, i, j, k)
        && replaceable_by_leaves(chunk.block_at(i, j, k))))
}

/// Whether growing the tree writes any cell of `chunk`.
pub open spec fn tree_touches(chunk: Chunk, x: int, base_y: int, z: int, h: int, cells: Seq<CrownCell>) -> bool {
    exists|i: int, j: int, k: int| #[trigger] tree_writes(chunk, x, base_y, z, h, cells, i, j, k)
}

/// The block at `(i, j, k)` once the tree has grown in `chunk`.
pub open spec fn tree_block(
    chunk: Chunk,
    x: int,
    base_y: int,
    z: int,
    h: int,
    cells: Seq<CrownCell>,
    log: BlockType,
    leaves: BlockType,
    i: int,
    j: int,
    k: int,
) -> BlockType {
    if !tree_writes(chunk, x, base_y, z, h, cells, i, j, k) {
        chunk.block_at(i, j, k)
    } else if in_trunk(x, base_y, z, h, i, j, k) {
        log
    } else {
        leaves
    }
}

/// Whether `after` is `before` with the tree grown: trunk cells inside the chunk hold `log`,
/// leaf cells inside the chunk that held air or a snow layer hold `leaves`, written cells lose
/// their rotation, and the chunk needs a new mesh when a cell was written.
pub open spec fn tree_grown(
    before: Chunk,
    after: Chunk,
    x: int,
    base_y: int,
    z: int,
    h: int,
    cells: Seq<CrownCell>,
    log: BlockType,
    leaves: BlockType,
) -> bool {
    &&& after.wf()
    &&& after.pos == before.pos
    &&& forall|i: int, j: int, k: int| #[trigger]
        after.block_at(i, j, k) == tree_block(before, x, base_y, z, h, cells, log, leaves, i, j, k)
    &&& forall|i: int, j: int, k: int| #[trigger]
        after.rotation_at(i, j, k) == if tree_writes(before, x, base_y, z, h, cells, i, j, k) {
            no_rotation()
        } else {
            before.rotation_at(i, j, k)
        }
    &&& after.needs_mesh == (before.needs_mesh || tree_touches(before, x, base_y, z, h, cells))
}

proof fn lemma_crown_leaf_step(cells: Seq<CrownCell>, c: int, i: int, j: int, k: int)
    requires
        0 <= c < cells.len(),
    ensures
        crown_leaf(cells.take(c + 1), i, j, k) == (crown_leaf(cells.take(c), i, j, k) || (cells[c].mark == 1
            && cells[c].x == i && cells[c].y == j && cells[c].z == k)),
{
    let pre = cells.take(c);
    let post = cells.take(c + 1);
    if crown_leaf(post, i, j, k) {
        let n = choose|n: int|
            0 <= n < post.len() && post[n].mark == 1 && post[n].x == i && post[n].y == j
                && #[trigger] post[n].z == k;
        if n < c {
            assert(pre[n] == post[n]);
        }
    }
    if crown_leaf(pre, i, j, k) {
        let n = choose|n: int|
            0 <= n < pre.len() && pre[n].mark == 1 && pre[n].x == i && pre[n].y == j
                && #[trigger] pre[n].z == k;
        assert(post[n] == pre[n]);
    }
    if cells[c].mark == 1 && cells[c].x == i && cells[c].y == j && cells[c].z == k {
        assert(post[c] == cells[c]);
    }
}

proof fn lemma_crown_leaf_distinct(cells: Seq<CrownCell>, c: int)
    requires
        0 <= c < cells.len(),
        distinct_cells(cells),
    ensures
        !crown_leaf(cells.take(c), cells[c].x as int, cells[c].y as int, cells[c].z as int),
{
    let pre = cells.take(c);
    if crown_leaf(pre, cells[c].x as int, cells[c].y as int, cells[c].z as int) {
        let n = choose|n: int|
            0 <= n < pre.len() && pre[n].mark == 1 && pre[n].x == cells[c].x && pre[n].y == cells[c].y
                && #[trigger] pre[n].z == cells[c].z;
        assert(pre[n] == cells[n]);
    }
}

/// Grows a trunk of `h` blocks of `log` up from `(x, base_y, z)` and a crown of `leaves`
/// over the leaf cells of `cells`, if every cell they need is free; otherwise leaves the
/// chunk as it is. Says whether the tree grew.
fn place_tree(
    chunk: &mut Chunk,
    x: i32,
    base_y: i32,
    z: i32,
    h: i32,
    cells: &Vec<CrownCell>,
    log: BlockType,
    leaves: BlockType,
) -> (r: bool)
    requires
        old(chunk).wf(),
        coord_ok(x as int),
        coord_ok(base_y as int),
        coord_ok(z as int),
        0 <= h <= 16,
        distinct_cells(cells@),
        log != BlockType::Air,
        leaves != BlockType::Air,
        !replaceable_by_leaves(log),
    ensures
        r == tree_fits(*old(chunk), x as int, base_y as int, z as int, h as int, cells@),
        r ==> tree_grown(*old(chunk), *final(chunk), x as int, base_y as int, z as int, h as int, cells@, log, leaves),
        !r ==> *final(chunk) == *old(chunk),
{
    let ghost start = *chunk;
    for t in 0..h
        invariant
            chunk.wf(),
            *chunk == start,
            coord_ok(x as int) && coord_ok(base_y as int),
            h <= 16,
            forall|u: int| 0 <= u < t ==> clear_for_tree(#[trigger] start.block_at(x as int, base_y + u, z as int)),
    {
        let b = chunk.get_block(x, base_y + t, z);
        if !(b == BlockType::Air || b.is_transparent()) {
            return false;
        }
    }
    let n = cells.len();
    for c in 0..n
        invariant
            chunk.wf(),
            *chunk == start,
            n == cells@.len(),
            forall|u: int| 0 <= u < h ==> clear_for_tree(#[trigger] start.block_at(x as int, base_y + u, z as int)),
            forall|m: int|
                0 <= m < c && #[trigger] cells@[m].mark != 0 ==> clear_for_tree(
                    start.block_at(cells@[m].x as int, cells@[m].y as int, cells@[m].z as int),
                ),
    {
        let cell = cells[c];
        if cell.mark != 0 {
            let b = chunk.get_block(cell.x, cell.y, cell.z);
            if !(b == BlockType::Air || b.is_transparent()) {
                return false;
            }
        }
    }
    let mut p_y = base_y;
    for t in 0..h
        invariant
            chunk.wf(),
            chunk.pos == start.pos,
            p_y == base_y + t,
            coord_ok(x as int) && coord_ok(base_y as int),
            h <= 16,
            forall|i: int, j: int, k: int| #[trigger] chunk.block_at(i, j, k) == if in_trunk(x as int, base_y as int, z as int, t as int, i, j, k) && in_chunk(i, j, k) {
                log
            } else {
                start.block_at(i, j, k)
            },
            forall|i: int, j: int, k: int| #[trigger] chunk.rotation_at(i, j, k) == if in_trunk(x as int, base_y as int, z as int, t as int, i, j, k) && in_chunk(i, j, k) {
                no_rotation()
            } else {
                start.rotation_at(i, j, k)
            },
            chunk.needs_mesh == (start.needs_mesh || exists|u: int| 0 <= u < t && #[trigger] in_chunk(x as int, base_y + u, z as int)),
    {
        chunk.set_block(x, p_y, z, log, Rotation::none());
        proof {
            if in_chunk(x as int, p_y as int, z as int) {
                assert(in_chunk(x as int, base_y + t, z as int));
            }
            if start.needs_mesh || exists|u: int| 0 <= u < t + 1 && #[trigger] in_chunk(x as int, base_y + u, z as int) {
                if !start.needs_mesh && !in_chunk(x as int, p_y as int, z as int) {
                    let u = choose|u: int| 0 <= u < t + 1 && #[trigger] in_chunk(x as int, base_y + u, z as int);
                    assert(u < t);
                }
            }
        }
        p_y = p_y + 1;
    }
    let ghost trunked = *chunk;
    proof {
        assert(cells@.take(0) =~= Seq::<CrownCell>::empty());
        assert forall|i: int, j: int, k: int| !crown_leaf(cells@.take(0), i, j, k) by {}
        if chunk.needs_mesh != (start.needs_mesh || tree_touches(start, x as int, base_y as int, z as int, h as int, cells@.take(0))) {
            if chunk.needs_mesh {
                let u = choose|u: int| 0 <= u < h && #[trigger] in_chunk(x as int, base_y + u, z as int);
                assert(tree_writes(start, x as int, base_y as int, z as int, h as int, cells@.take(0), x as int, base_y + u, z as int));
            } else {
                let (i, j, k) = choose|i: int, j: int, k: int|
                    tree_writes(start, x as int, base_y as int, z as int, h as int, cells@.take(0), i, j, k);
                assert(in_chunk(x as int, base_y + (j - base_y), z as int));
            }
        }
    }
    for c in 0..n
        invariant
            chunk.wf(),
            chunk.pos == start.pos,
            n == cells@.len(),
            distinct_cells(cells@),
            !replaceable_by_leaves(log),
            forall|i: int, j: int, k: int| #[trigger] trunked.block_at(i, j, k) == if in_trunk(x as int, base_y as int, z as int, h as int, i, j, k) && in_chunk(i, j, k) {
                log
            } else {
                start.block_at(i, j, k)
            },
            forall|i: int, j: int, k: int| #[trigger] chunk.block_at(i, j, k) == tree_block(start, x as int, base_y as int, z as int, h as int, cells@.take(c as int), log, leaves, i, j, k),
            forall|i: int, j: int, k: int| #[trigger] chunk.rotation_at(i, j, k) == if tree_writes(start, x as int, base_y as int, z as int, h as int, cells@.take(c as int), i, j, k) {
                no_rotation()
            } else {
                start.rotation_at(i, j, k)
            },
            chunk.needs_mesh == (start.needs_mesh || tree_touches(start, x as int, base_y as int, z as int, h as int, cells@.take(c as int))),
    {
        let cell = cells[c];
        let ghost before = *chunk;
        let ghost pre = cells@.take(c as int);
        let ghost post = cells@.take(c + 1);
        let ghost (pi, pj, pk) = (cell.x as int, cell.y as int, cell.z as int);
        proof {
            lemma_crown_leaf_distinct(cells@, c as int);
        }
        let mut wrote = false;
        if cell.mark == 1 {
            let cur = chunk.get_block(cell.x, cell.y, cell.z);
            if cur == BlockType::Air || cur == BlockType::SnowLayer {
                chunk.set_block(cell.x, cell.y, cell.z, leaves, Rotation::none());
                wrote = true;
            }
        }
        proof {
            assert forall|i: int, j: int, k: int|
                #[trigger] crown_leaf(post, i, j, k) == (crown_leaf(pre, i, j, k) || (cell.mark == 1 && i == pi && j == pj && k == pk)) by {
                lemma_crown_leaf_step(cells@, c as int, i, j, k);
            }
            assert(before.block_at(pi, pj, pk) == tree_block(start, x as int, base_y as int, z as int, h as int, pre, log, leaves, pi, pj, pk));
            assert forall|i: int, j: int, k: int| #[trigger] tree_writes(start, x as int, base_y as int, z as int, h as int, post, i, j, k) == (tree_writes(start, x as int, base_y as int, z as int, h as int, pre, i, j, k) || (i == pi && j == pj && k == pk && wrote && in_chunk(pi, pj, pk))) by {
                if i == pi && j == pj && k == pk {
                    assert(crown_leaf(post, i, j, k) == (cell.mark == 1));
                }
            }
            if chunk.needs_mesh != (start.needs_mesh || tree_touches(start, x as int, base_y as int, z as int, h as int, post)) {
                if chunk.needs_mesh {
                    if !before.needs_mesh {
                        assert(tree_writes(start, x as int, base_y as int, z as int, h as int, post, pi, pj, pk));
                    } else {
                        let (i, j, k) = choose|i: int, j: int, k: int|
                            tree_writes(start, x as int, base_y as int, z as int, h as int, pre, i, j, k);
                        assert(tree_writes(start, x as int, base_y as int, z as int, h as int, post, i, j, k));
                    }
                } else {
                    let (i, j, k) = choose|i: int, j: int, k: int|
                        tree_writes(start, x as int, base_y as int, z as int, h as int, post, i, j, k);
                    assert(tree_writes(start, x as int, base_y as int, z as int, h as int, pre, i, j, k));
                }
            }
        }
    }
    proof {
        assert(cells@.take(n as int) =~= cells@);
    }
    true
}


/// The corner of the `i`-th extra leaf cube of a broadleaf crown along one axis.
pub open spec fn broadleaf_corner(seed: u32, i: int, step: int) -> int {
    (wrap32(lcg(seed) + i * step) % 3) as int
}

/// Whether a broadleaf crown has a leaf at `(lx, ly, lz)` of its 5 x 4 x 5 box: the 3 x 3 x 3
/// core, or one of seven 2 x 2 x 2 cubes placed by the seed.
pub open spec fn in_broadleaf_crown(seed: u32, lx: int, ly: int, lz: int) -> bool {
    ||| (1 <= lx <= 3 && 1 <= ly <= 3 && 1 <= lz <= 3)
    ||| exists|i: int|
        0 <= i < 7 && broadleaf_corner(seed, i, 3) <= lx <= broadleaf_corner(seed, i, 3) + 1
            && broadleaf_corner(seed, i, 5) <= ly <= broadleaf_corner(seed, i, 5) + 1
            && #[trigger] broadleaf_corner(seed, i, 7) <= lz <= broadleaf_corner(seed, i, 7) + 1
}

/// The cells of a broadleaf crown whose box has its lower middle cell one below
/// `(x, top, z)`, listed with x varying fastest, then y, then z.
pub open spec fn broadleaf_cells(x: int, top: int, z: int, seed: u32) -> Seq<CrownCell> {
    Seq::new(
        100,
        |k: int|
            CrownCell {
                x: (x + k % 5 - 2) as i32,
                y: (top + (k / 5) % 4 - 1) as i32,
                z: (z + k / 20 - 2) as i32,
                mark: if in_broadleaf_crown(seed, k % 5, (k / 5) % 4, k / 20) { 1 } else { 0 },
            },
    )
}

/// The trunk height of an oak or birch grown from `seed`.
pub open spec fn broadleaf_height(seed: u32) -> int {
    4 + lcg(seed) % 2
}

proof fn lemma_box_index_distinct(a: int, b: int)
    requires
        0 <= a < b < 100,
    ensures
        !(a % 5 == b % 5 && (a / 5) % 4 == (b / 5) % 4 && a / 20 == b / 20),
{
}

proof fn lemma_broadleaf_distinct(x: int, top: int, z: int, seed: u32)
    requires
        coord_ok(x),
        near_coord(top),
        coord_ok(z),
    ensures
        distinct_cells(broadleaf_cells(x, top, z, seed)),
{
    let cells = broadleaf_cells(x, top, z, seed);
    assert forall|a: int, b: int|
        0 <= a < b < cells.len() implies !(cells[a].x == cells[b].x && cells[a].y == cells[b].y
            && cells[a].z == cells[b].z) by {
        lemma_box_index_distinct(a, b);
    }
}

/// Whether the broadleaf crown of `seed` has a leaf at `(lx, ly, lz)`.
fn broadleaf_mark(corners: &Vec<(u32, u32, u32)>, seed: u32, lx: u32, ly: u32, lz: u32) -> (r: u8)
    requires
        corners@.len() == 7,
        forall|i: int|
            0 <= i < 7 ==> (#[trigger] corners@[i]).0 == broadleaf_corner(seed, i, 3) && corners@[i].1
                == broadleaf_corner(seed, i, 5) && corners@[i].2 == broadleaf_corner(seed, i, 7),
    ensures
        r == if in_broadleaf_crown(seed, lx as int, ly as int, lz as int) { 1u8 } else { 0u8 },
{
    if 1 <= lx && lx <= 3 && 1 <= ly && ly <= 3 && 1 <= lz && lz <= 3 {
        return 1;
    }
    for i in 0..7
        invariant
            corners@.len() == 7,
            forall|i: int|
                0 <= i < 7 ==> (#[trigger] corners@[i]).0 == broadleaf_corner(seed, i, 3) && corners@[i].1
                    == broadleaf_corner(seed, i, 5) && corners@[i].2 == broadleaf_corner(seed, i, 7),
            forall|j: int|
                0 <= j < i ==> !(broadleaf_corner(seed, j, 3) <= lx <= broadleaf_corner(seed, j, 3) + 1
                    && broadleaf_corner(seed, j, 5) <= ly <= broadleaf_corner(seed, j, 5) + 1
                    && #[trigger] broadleaf_corner(seed, j, 7) <= lz <= broadleaf_corner(seed, j, 7) + 1),
    {
        let (px, py, pz) = corners[i];
        if px <= lx && lx <= px + 1 && py <= ly && ly <= py + 1 && pz <= lz && lz <= pz + 1 {
            assert(corners@[i as int].0 == broadleaf_corner(seed, i as int, 3));
            return 1;
        }
        assert(corners@[i as int].0 == broadleaf_corner(seed, i as int, 3));
    }
    0
}

/// The crown of an oak or birch, as `broadleaf_cells` lists it.
fn broadleaf_crown(x: i32, top: i32, z: i32, seed: u32) -> (r: Vec<CrownCell>)
    requires
        coord_ok(x as int),
        near_coord(top as int),
        coord_ok(z as int),
    ensures
        r@ == broadleaf_cells(x as int, top as int, z as int, seed),
        distinct_cells(r@),
{
    let rng = SeededRng::from_seed(seed);
    let base = rng.next_u32();
    let mut corners: Vec<(u32, u32, u32)> = Vec::new();
    for i in 0..7u32
        invariant
            base == lcg(seed),
            corners@.len() == i,
            forall|j: int|
                0 <= j < i ==> (#[trigger] corners@[j]).0 == broadleaf_corner(seed, j, 3) && corners@[j].1
                    == broadleaf_corner(seed, j, 5) && corners@[j].2 == broadleaf_corner(seed, j, 7),
    {
        let px = add32(base, i * 3) % 3;
        let py = add32(base, i * 5) % 3;
        let pz = add32(base, i * 7) % 3;
        corners.push((px, py, pz));
    }
    let mut cells: Vec<CrownCell> = Vec::new();
    let ghost spec_cells = broadleaf_cells(x as int, top as int, z as int, seed);
    for k in 0..100u32
        invariant
            coord_ok(x as int) && near_coord(top as int) && coord_ok(z as int),
            spec_cells == broadleaf_cells(x as int, top as int, z as int, seed),
            corners@.len() == 7,
            forall|i: int|
                0 <= i < 7 ==> (#[trigger] corners@[i]).0 == broadleaf_corner(seed, i, 3) && corners@[i].1
                    == broadleaf_corner(seed, i, 5) && corners@[i].2 == broadleaf_corner(seed, i, 7),
            cells@ == spec_cells.take(k as int),
    {
        let lx = k % 5;
        let ly = (k / 5) % 4;
        let lz = k / 20;
        let mark = broadleaf_mark(&corners, seed, lx, ly, lz);
        cells.push(CrownCell { x: x + lx as i32 - 2, y: top + ly as i32 - 1, z: z + lz as i32 - 2, mark });
        assert(cells@ =~= spec_cells.take(k + 1));
    }
    proof {
        assert(cells@ =~= spec_cells);
        lemma_broadleaf_distinct(x as int, top as int, z as int, seed);
    }
    cells
}

/// Grows an oak or birch from `seed` with the given wood and leaves.
fn generate_broadleaf_tree(
    chunk: &mut Chunk,
    x: i32,
    base_y: i32,
    z: i32,
    seed: u32,
    log: BlockType,
    leaves: BlockType,
) -> (r: bool)
    requires
        old(chunk).wf(),
        coord_ok(x as int),
        coord_ok(base_y as int),
        coord_ok(z as int),
        log != BlockType::Air,
        leaves != BlockType::Air,
        !replaceable_by_leaves(log),
    ensures
        ({
            let h = broadleaf_height(seed);
            let cells = broadleaf_cells(x as int, base_y + h - 1, z as int, seed);
            &&& r == tree_fits(*old(chunk), x as int, base_y as int, z as int, h, cells)
            &&& r ==> tree_grown(*old(chunk), *final(chunk), x as int, base_y as int, z as int, h, cells, log, leaves)
            &&& !r ==> *final(chunk) == *old(chunk)
        }),
{
    let rng = SeededRng::from_seed(seed);
    let trunk_height = 4 + (rng.next_u32() % 2) as i32;
    let cells = broadleaf_crown(x, base_y + trunk_height - 1, z, seed);
    place_tree(chunk, x, base_y, z, trunk_height, &cells, log, leaves)
}

/// Grows an oak from `seed` with its trunk starting at `(x, base_y, z)`.
fn generate_oak_tree(chunk: &mut Chunk, x: i32, base_y: i32, z: i32, seed: u32) -> (r: bool)
    requires
        old(chunk).wf(),
        coord_ok(x as int),
        coord_ok(base_y as int),
        coord_ok(z as int),
    ensures
        ({
            let h = broadleaf_height(seed);
            let cells = broadleaf_cells(x as int, base_y + h - 1, z as int, seed);
            &&& r == tree_fits(*old(chunk), x as int, base_y as int, z as int, h, cells)
            &&& r ==> tree_grown(*old(chunk), *final(chunk), x as int, base_y as int, z as int, h, cells, BlockType::OakLog, BlockType::OakLeaves)
            &&& !r ==> *final(chunk) == *old(chunk)
        }),
{
    generate_broadleaf_tree(chunk, x, base_y, z, seed, BlockType::OakLog, BlockType::OakLeaves)
}

/// Grows a birch from `seed` with its trunk starting at `(x, base_y, z)`.
fn generate_birch_tree(chunk: &mut Chunk, x: i32, base_y: i32, z: i32, seed: u32) -> (r: bool)
    requires
        old(chunk).wf(),
        coord_ok(x as int),
        coord_ok(base_y as int),
        coord_ok(z as int),
    ensures
        ({
            let h = broadleaf_height(seed);
            let cells = broadleaf_cells(x as int, base_y + h - 1, z as int, seed);
            &&& r == tree_fits(*old(chunk), x as int, base_y as int, z as int, h, cells)
            &&& r ==> tree_grown(*old(chunk), *final(chunk), x as int, base_y as int, z as int, h, cells, BlockType::BirchLog, BlockType::BirchLeaves)
            &&& !r ==> *final(chunk) == *old(chunk)
        }),
{
    generate_broadleaf_tree(chunk, x, base_y, z, seed, BlockType::BirchLog, BlockType::BirchLeaves)
}


/// The noise value in `0..20` that a spruce draws for the leaf cell `(lx, ly, lz)`.
pub open spec fn spruce_noise(seed: u32, lx: int, ly: int, lz: int) -> int {
    (lcg(wrap32(seed + lx + lz * 7 + ly * 49)) % 20) as int
}

/// Whether the cell `(lx, ly, lz)` belongs to a spruce's ragged disc of radius `dev` around the
/// trunk: within `dev` of the middle column on both axes, and drawn with noise at most
/// `19 - dev`.
pub open spec fn spruce_disc(seed: u32, lx: int, ly: int, lz: int, dev: int) -> bool {
    &&& -dev <= lx - 3 <= dev
    &&& -dev <= lz - 3 <= dev
    &&& spruce_noise(seed, lx, ly, lz) <= 19 - dev
}

/// The x corner of the `i`-th branch square of a spruce.
pub open spec fn spruce_branch_x(seed: u32, i: int) -> int {
    (lcg(wrap32(seed + i * 11)) % 4) as int
}

/// The layer of the `i`-th branch square of a spruce.
pub open spec fn spruce_branch_y(seed: u32, i: int) -> int {
    4 + (lcg(wrap32(seed + i * 13)) % 2) as int
}

/// The z corner of the `i`-th branch square of a spruce.
pub open spec fn spruce_branch_z(seed: u32, i: int) -> int {
    (lcg(wrap32(seed + i * 17)) % 4) as int
}

/// Whether one of the twenty 2 x 2 branch squares of a spruce covers `(lx, ly, lz)`.
pub open spec fn in_spruce_branch(seed: u32, lx: int, ly: int, lz: int) -> bool {
    exists|i: int|
        0 <= i < 20 && #[trigger] spruce_branch_y(seed, i) == ly && spruce_branch_x(seed, i) <= lx
            <= spruce_branch_x(seed, i) + 1 && spruce_branch_z(seed, i) <= lz <= spruce_branch_z(seed, i) + 1
}

/// The highest layer of a spruce's branch squares.
pub open spec fn spruce_branch_top(seed: u32) -> int {
    if exists|i: int| 0 <= i < 20 && #[trigger] spruce_branch_y(seed, i) == 5 {
        5
    } else {
        4
    }
}

/// Whether a spruce has foliage at `(lx, ly, lz)` of its 7 x 10 x 7 box: shrinking discs on
/// the three lowest layers, the branch squares, and two shrinking discs above the highest
/// branch layer.
pub open spec fn in_spruce_foliage(seed: u32, lx: int, ly: int, lz: int) -> bool {
    let top = spruce_branch_top(seed);
    ||| 0 <= ly <= 2 && spruce_disc(seed, lx, ly, lz, 3 - ly)
    ||| in_spruce_branch(seed, lx, ly, lz)
    ||| top + 1 <= ly <= top + 2 && spruce_disc(seed, lx, ly, lz, top + 3 - ly)
}

/// The mark of `(lx, ly, lz)` in a spruce crown: leaves on the foliage and on the two cells
/// of the middle column above the lowest layer, and room kept free just above the foliage
/// and above them.
pub open spec fn spruce_mark(seed: u32, lx: int, ly: int, lz: int) -> u8 {
    if lx == 3 && lz == 3 && (ly == 1 || ly == 2) {
        1
    } else if lx == 3 && lz == 3 && ly == 3 {
        2
    } else if in_spruce_foliage(seed, lx, ly, lz) {
        1
    } else if in_spruce_foliage(seed, lx, ly - 1, lz) {
        2
    } else {
        0
    }
}

/// The cells of a spruce crown whose 7 x 10 x 7 box has its middle column on `(x, z)` and
/// reaches six layers below `top`, listed with x varying fastest, then y, then z.
pub open spec fn spruce_cells(x: int, top: int, z: int, seed: u32) -> Seq<CrownCell> {
    Seq::new(
        490,
        |k: int|
            CrownCell {
                x: (x + k % 7 - 3) as i32,
                y: (top + (k / 7) % 10 - 6) as i32,
                z: (z + k / 70 - 3) as i32,
                mark: spruce_mark(seed, k % 7, (k / 7) % 10, k / 70),
            },
    )
}

/// The trunk height of a spruce grown from `seed`.
pub open spec fn spruce_height(seed: u32) -> int {
    9 + lcg(seed) % 5
}

proof fn lemma_spruce_index_distinct(a: int, b: int)
    requires
        0 <= a < b < 490,
    ensures
        !(a % 7 == b % 7 && (a / 7) % 10 == (b / 7) % 10 && a / 70 == b / 70),
{
}

/// The noise value a spruce draws for `(lx, ly, lz)`.
fn spruce_noise_at(seed: u32, lx: u32, ly: u32, lz: u32) -> (r: u32)
    requires
        lx < 7 && ly < 10 && lz < 7,
    ensures
        r == spruce_noise(seed, lx as int, ly as int, lz as int),
{
    let rng = SeededRng::from_seed(seed);
    rng.variant(lx + lz * 7 + ly * 49).next_u32() % 20
}

/// Whether `(lx, ly, lz)` lies in the disc of radius `dev`.
fn spruce_disc_at(seed: u32, lx: u32, ly: u32, lz: u32, dev: u32) -> (r: bool)
    requires
        lx < 7 && ly < 10 && lz < 7,
        dev <= 3,
    ensures
        r == spruce_disc(seed, lx as int, ly as int, lz as int, dev as int),
{
    lx + dev >= 3 && lx <= 3 + dev && lz + dev >= 3 && lz <= 3 + dev && spruce_noise_at(seed, lx, ly, lz) + dev <= 19
}

/// Whether a spruce with the given branch squares has foliage at `(lx, ly, lz)`.
fn spruce_foliage_at(seed: u32, branches: &Vec<(u32, u32, u32)>, top: u32, lx: u32, ly: u32, lz: u32) -> (r: bool)
    requires
        lx < 7 && ly < 10 && lz < 7,
        top == spruce_branch_top(seed),
        branches@.len() == 20,
        forall|i: int|
            0 <= i < 20 ==> (#[trigger] branches@[i]).0 == spruce_branch_x(seed, i) && branches@[i].1
                == spruce_branch_y(seed, i) && branches@[i].2 == spruce_branch_z(seed, i),
    ensures
        r == in_spruce_foliage(seed, lx as int, ly as int, lz as int),
{
    if ly <= 2 && spruce_disc_at(seed, lx, ly, lz, 3 - ly) {
        return true;
    }
    if top + 1 <= ly && ly <= top + 2 && spruce_disc_at(seed, lx, ly, lz, top + 3 - ly) {
        return true;
    }
    for i in 0..20
        invariant
            branches@.len() == 20,
            forall|i: int|
                0 <= i < 20 ==> (#[trigger] branches@[i]).0 == spruce_branch_x(seed, i) && branches@[i].1
                    == spruce_branch_y(seed, i) && branches@[i].2 == spruce_branch_z(seed, i),
            forall|j: int|
                0 <= j < i ==> !(#[trigger] spruce_branch_y(seed, j) == ly && spruce_branch_x(seed, j) <= lx
                    <= spruce_branch_x(seed, j) + 1 && spruce_branch_z(seed, j) <= lz <= spruce_branch_z(seed, j) + 1),
    {
        let (bx, by, bz) = branches[i];
        assert(branches@[i as int].1 == spruce_branch_y(seed, i as int));
        if by == ly && bx <= lx && lx <= bx + 1 && bz <= lz && lz <= bz + 1 {
            return true;
        }
    }
    false
}

/// The mark of `(lx, ly, lz)` in the crown of a spruce with the given branch squares.
fn spruce_mark_at(seed: u32, branches: &Vec<(u32, u32, u32)>, top: u32, lx: u32, ly: u32, lz: u32) -> (r: u8)
    requires
        lx < 7 && ly < 10 && lz < 7,
        top == spruce_branch_top(seed),
        branches@.len() == 20,
        forall|i: int|
            0 <= i < 20 ==> (#[trigger] branches@[i]).0 == spruce_branch_x(seed, i) && branches@[i].1
                == spruce_branch_y(seed, i) && branches@[i].2 == spruce_branch_z(seed, i),
    ensures
        r == spruce_mark(seed, lx as int, ly as int, lz as int),
{
    if lx == 3 && lz == 3 && (ly == 1 || ly == 2) {
        1
    } else if lx == 3 && lz == 3 && ly == 3 {
        2
    } else if spruce_foliage_at(seed, branches, top, lx, ly, lz) {
        1
    } else if ly > 0 && spruce_foliage_at(seed, branches, top, lx, ly - 1, lz) {
        2
    } else {
        0
    }
}

/// The corner and layer of the `i`-th branch square of a spruce.
fn spruce_branch_at(seed: u32, i: u32) -> (r: (u32, u32, u32))
    requires
        i < 20,
    ensures
        r.0 == spruce_branch_x(seed, i as int),
        r.1 == spruce_branch_y(seed, i as int),
        r.2 == spruce_branch_z(seed, i as int),
        r.1 == 4 || r.1 == 5,
{
    let rng = SeededRng::from_seed(seed);
    let bx = rng.variant(i * 11).next_u32() % 4;
    let by = 4 + rng.variant(i * 13).next_u32() % 2;
    let bz = rng.variant(i * 17).next_u32() % 4;
    (bx, by, bz)
}

/// The crown of a spruce, as `spruce_cells` lists it.
fn spruce_crown(x: i32, top: i32, z: i32, seed: u32) -> (r: Vec<CrownCell>)
    requires
        coord_ok(x as int),
        near_coord(top as int),
        coord_ok(z as int),
    ensures
        r@ == spruce_cells(x as int, top as int, z as int, seed),
        distinct_cells(r@),
{
    let mut branches: Vec<(u32, u32, u32)> = Vec::new();
    let mut branch_top: u32 = 4;
    for i in 0..20u32
        invariant
            branches@.len() == i,
            forall|j: int|
                0 <= j < i ==> (#[trigger] branches@[j]).0 == spruce_branch_x(seed, j) && branches@[j].1
                    == spruce_branch_y(seed, j) && branches@[j].2 == spruce_branch_z(seed, j),
            branch_top == if exists|j: int| 0 <= j < i && #[trigger] spruce_branch_y(seed, j) == 5 {
                5u32
            } else {
                4u32
            },
    {
        let (bx, by, bz) = spruce_branch_at(seed, i);
        proof {
            if exists|j: int| 0 <= j < i + 1 && #[trigger] spruce_branch_y(seed, j) == 5 {
                if by != 5 {
                    let j = choose|j: int| 0 <= j < i + 1 && #[trigger] spruce_branch_y(seed, j) == 5;
                    assert(j < i);
                }
            }
        }
        if by > branch_top {
            branch_top = by;
        }
        branches.push((bx, by, bz));
    }
    let mut cells: Vec<CrownCell> = Vec::new();
    let ghost spec_cells = spruce_cells(x as int, top as int, z as int, seed);
    for k in 0..490u32
        invariant
            coord_ok(x as int) && near_coord(top as int) && coord_ok(z as int),
            spec_cells == spruce_cells(x as int, top as int, z as int, seed),
            branch_top == spruce_branch_top(seed),
            branches@.len() == 20,
            forall|i: int|
                0 <= i < 20 ==> (#[trigger] branches@[i]).0 == spruce_branch_x(seed, i) && branches@[i].1
                    == spruce_branch_y(seed, i) && branches@[i].2 == spruce_branch_z(seed, i),
            cells@ == spec_cells.take(k as int),
    {
        let lx = k % 7;
        let ly = (k / 7) % 10;
        let lz = k / 70;
        let mark = spruce_mark_at(seed, &branches, branch_top, lx, ly, lz);
        cells.push(CrownCell { x: x + lx as i32 - 3, y: top + ly as i32 - 6, z: z + lz as i32 - 3, mark });
        assert(cells@ =~= spec_cells.take(k + 1));
    }
    proof {
        assert(cells@ =~= spec_cells);
        assert forall|a: int, b: int|
            0 <= a < b < cells@.len() implies !(cells@[a].x == cells@[b].x && cells@[a].y == cells@[b].y
                && cells@[a].z == cells@[b].z) by {
            lemma_spruce_index_distinct(a, b);
        }
    }
    cells
}

/// Grows a spruce from `seed` with its trunk starting at `(x, base_y, z)`.
fn generate_spruce_tree(chunk: &mut Chunk, x: i32, base_y: i32, z: i32, seed: u32) -> (r: bool)
    requires
        old(chunk).wf(),
        coord_ok(x as int),
        coord_ok(base_y as int),
        coord_ok(z as int),
    ensures
        ({
            let h = spruce_height(seed);
            let cells = spruce_cells(x as int, base_y + h - 1, z as int, seed);
            &&& r == tree_fits(*old(chunk), x as int, base_y as int, z as int, h, cells)
            &&& r ==> tree_grown(*old(chunk), *final(chunk), x as int, base_y as int, z as int, h, cells, BlockType::SpruceLog, BlockType::SpruceLeaves)
            &&& !r ==> *final(chunk) == *old(chunk)
        }),
{
    let rng = SeededRng::from_seed(seed);
    let trunk_height = 9 + (rng.next_u32() % 5) as i32;
    let cells = spruce_crown(x, base_y + trunk_height - 1, z, seed);
    place_tree(chunk, x, base_y, z, trunk_height, &cells, BlockType::SpruceLog, BlockType::SpruceLeaves)
}


/// The height of a cactus grown from `seed`.
pub open spec fn cactus_height(seed: u32) -> int {
    2 + lcg(seed) % 3
}

/// Whether a cactus grown from `seed` tries to carry a flower: three draws in ten.
pub open spec fn cactus_flowers(seed: u32) -> bool {
    lcg(seed) % 1000 < 300
}

/// Whether the cactus grown on `chunk` gets its flower on the cell above its top.
pub open spec fn cactus_flower_placed(chunk: Chunk, x: int, base_y: int, z: int, seed: u32) -> bool {
    let fy = base_y + cactus_height(seed);
    &&& cactus_flowers(seed)
    &&& in_chunk(x, fy, z)
    &&& clear_for_tree(chunk.block_at(x, fy, z))
}

/// Whether `after` is `before` with a cactus grown from `seed`: its stem as `tree_grown`
/// describes, and its flower on the cell above when `cactus_flower_placed`.
pub open spec fn cactus_grown(before: Chunk, after: Chunk, x: int, base_y: int, z: int, seed: u32) -> bool {
    let h = cactus_height(seed);
    let fy = base_y + h;
    let flower = cactus_flower_placed(before, x, base_y, z, seed);
    &&& after.wf()
    &&& after.pos == before.pos
    &&& forall|i: int, j: int, k: int| #[trigger]
        after.block_at(i, j, k) == if flower && i == x && j == fy && k == z {
            BlockType::CactusFlower
        } else {
            tree_block(before, x, base_y, z, h, Seq::empty(), BlockType::Cactus, BlockType::Cactus, i, j, k)
        }
    &&& forall|i: int, j: int, k: int| #[trigger]
        after.rotation_at(i, j, k) == if (flower && i == x && j == fy && k == z) || tree_writes(
            before,
            x,
            base_y,
            z,
            h,
            Seq::empty(),
            i,
            j,
            k,
        ) {
            no_rotation()
        } else {
            before.rotation_at(i, j, k)
        }
    &&& after.needs_mesh == (before.needs_mesh || tree_touches(before, x, base_y, z, h, Seq::empty()) || flower)
}

/// Grows a cactus from `seed` with its stem starting at `(x, base_y, z)`.
fn generate_cactus(chunk: &mut Chunk, x: i32, base_y: i32, z: i32, seed: u32) -> (r: bool)
    requires
        old(chunk).wf(),
        coord_ok(x as int),
        coord_ok(base_y as int),
        coord_ok(z as int),
    ensures
        r == tree_fits(*old(chunk), x as int, base_y as int, z as int, cactus_height(seed), Seq::empty()),
        r ==> cactus_grown(*old(chunk), *final(chunk), x as int, base_y as int, z as int, seed),
        !r ==> *final(chunk) == *old(chunk),
{
    let rng = SeededRng::from_seed(seed);
    let trunk_height = 2 + (rng.next_u32() % 3) as i32;
    let no_crown: Vec<CrownCell> = Vec::new();
    let ghost start = *chunk;
    proof {
        assert(no_crown@ =~= Seq::<CrownCell>::empty());
    }
    if !place_tree(chunk, x, base_y, z, trunk_height, &no_crown, BlockType::Cactus, BlockType::Cactus) {
        return false;
    }
    let ghost mid = *chunk;
    let flower_y = base_y + trunk_height;
    proof {
        assert(mid.block_at(x as int, flower_y as int, z as int) == start.block_at(x as int, flower_y as int, z as int));
    }
    if rng.next_u32() % 1000 < 300 {
        if flower_y < crate::chunk::CHUNK_HEIGHT {
            let current_block = chunk.get_block(x, flower_y, z);
            if current_block == BlockType::Air || current_block.is_transparent() {
                chunk.set_block(x, flower_y, z, BlockType::CactusFlower, Rotation::none());
            }
        }
    }
    true
}

/// Whether `after` is `before` with a tree of kind `tree_type` grown from `seed` at
/// `(x, base_y, z)`, given that the builder answered `grew`.
pub open spec fn tree_outcome(
    tree_type: TreeType,
    before: Chunk,
    after: Chunk,
    x: int,
    base_y: int,
    z: int,
    seed: u32,
    grew: bool,
) -> bool {
    match tree_type {
        TreeType::Oak | TreeType::Birch => {
            let h = broadleaf_height(seed);
            let cells = broadleaf_cells(x, base_y + h - 1, z, seed);
            let (log, leaves) = if tree_type == TreeType::Oak {
                (BlockType::OakLog, BlockType::OakLeaves)
            } else {
                (BlockType::BirchLog, BlockType::BirchLeaves)
            };
            &&& grew == tree_fits(before, x, base_y, z, h, cells)
            &&& grew ==> tree_grown(before, after, x, base_y, z, h, cells, log, leaves)
            &&& !grew ==> after == before
        },
        TreeType::Spruce => {
            let h = spruce_height(seed);
            let cells = spruce_cells(x, base_y + h - 1, z, seed);
            &&& grew == tree_fits(before, x, base_y, z, h, cells)
            &&& grew ==> tree_grown(before, after, x, base_y, z, h, cells, BlockType::SpruceLog, BlockType::SpruceLeaves)
            &&& !grew ==> after == before
        },
        TreeType::Cactus => {
            &&& grew == tree_fits(before, x, base_y, z, cactus_height(seed), Seq::empty())
            &&& grew ==> cactus_grown(before, after, x, base_y, z, seed)
            &&& !grew ==> after == before
        },
    }
}

/// Grows a tree of kind `tree_type` from `seed` with its trunk starting at `(x, base_y, z)`,
/// if it finds room; says whether it grew.
pub fn generate_tree(chunk: &mut Chunk, x: i32, base_y: i32, z: i32, seed: u32, tree_type: TreeType) -> (r: bool)
    requires
        old(chunk).wf(),
        coord_ok(x as int),
        coord_ok(base_y as int),
        coord_ok(z as int),
    ensures
        tree_outcome(tree_type, *old(chunk), *final(chunk), x as int, base_y as int, z as int, seed, r),
{
    match tree_type {
        TreeType::Oak => generate_oak_tree(chunk, x, base_y, z, seed),
        TreeType::Spruce => generate_spruce_tree(chunk, x, base_y, z, seed),
        TreeType::Birch => generate_birch_tree(chunk, x, base_y, z, seed),
        TreeType::Cactus => generate_cactus(chunk, x, base_y, z, seed),
    }
}


/// Whether the world column `(world_x, world_z)` lies at least three blocks inside its chunk.
pub open spec fn inside_chunk_margin(world_x: int, world_z: int) -> bool {
    &&& 3 <= world_x % (CHUNK_SIZE as int) < CHUNK_SIZE - 3
    &&& 3 <= world_z % (CHUNK_SIZE as int) < CHUNK_SIZE - 3
}

/// Whether a tree at `(tx, tz)` crowds the column `(world_x, world_z)`: closer than six blocks
/// on both axes.
pub open spec fn crowds(tx: int, tz: int, world_x: int, world_z: int) -> bool {
    -6 < tx - world_x < 6 && -6 < tz - world_z < 6
}

/// Whether the distance from the tree at `p` to the column `(x, z)` fits in `i32` on each axis,
/// its magnitude included.
pub open spec fn distance_fits(p: (i32, i32), x: int, z: int) -> bool {
    &&& i32::MIN < p.0 - x <= i32::MAX
    &&& i32::MIN < p.1 - z <= i32::MAX
}

/// Whether every tree of `known` lies within `i32` distance of every column that the chunk at
/// `pos` may grow a tree in (local coordinates 3 to 12).
pub open spec fn trees_within_reach(known: Set<(i32, i32)>, pos: crate::chunk::ChunkPos) -> bool {
    forall|p: (i32, i32)|
        #[trigger] known.contains(p) ==> {
            &&& i32::MIN < p.0 - (pos.x * CHUNK_SIZE + 12)
            &&& p.0 - (pos.x * CHUNK_SIZE + 3) <= i32::MAX
            &&& i32::MIN < p.1 - (pos.z * CHUNK_SIZE + 12)
            &&& p.1 - (pos.z * CHUNK_SIZE + 3) <= i32::MAX
        }
}

/// Remembers where trees have grown, so that new trees keep their distance.
pub struct TreeGenerator {
    tree_positions: Vec<(i32, i32)>,
}

impl TreeGenerator {
    /// No column is recorded twice.
    #[verifier::type_invariant]
    spec fn wf(&self) -> bool {
        forall|a: int, b: int|
            0 <= a < b < self.tree_positions@.len() ==> self.tree_positions@[a] != self.tree_positions@[b]
    }

    /// The columns where trees have grown.
    pub closed spec fn positions(&self) -> Set<(i32, i32)> {
        self.tree_positions@.to_set()
    }

    /// A generator that knows of no tree.
    pub fn new() -> (r: TreeGenerator)
        ensures
            r.positions() == Set::<(i32, i32)>::empty(),
    {
        let r = TreeGenerator { tree_positions: Vec::new() };
        assert(r.tree_positions@.to_set() =~= Set::<(i32, i32)>::empty());
        r
    }

    /// Whether a tree may grow in the world column `(world_x, world_z)`: far enough inside its
    /// chunk and not crowded by a known tree. Inside the margin every known tree is compared
    /// with the column, so its distance on each axis must fit in `i32`.
    pub fn can_place_tree(&self, world_x: i32, world_z: i32) -> (r: bool)
        requires
            inside_chunk_margin(world_x as int, world_z as int) ==> forall|p: (i32, i32)|
                #[trigger] self.positions().contains(p) ==> distance_fits(p, world_x as int, world_z as int),
        ensures
            r == (inside_chunk_margin(world_x as int, world_z as int) && forall|p: (i32, i32)|
                #[trigger] self.positions().contains(p) ==> !crowds(p.0 as int, p.1 as int, world_x as int, world_z as int)),
    {
        let local_x = world_x.checked_rem_euclid(CHUNK_SIZE).unwrap();
        let local_z = world_z.checked_rem_euclid(CHUNK_SIZE).unwrap();
        if local_x < 3 || local_x >= CHUNK_SIZE - 3 || local_z < 3 || local_z >= CHUNK_SIZE - 3 {
            return false;
        }
        let n = self.tree_positions.len();
        for i in 0..n
            invariant
                n == self.tree_positions@.len(),
                forall|p: (i32, i32)|
                    #[trigger] self.positions().contains(p) ==> distance_fits(p, world_x as int, world_z as int),
                forall|a: int|
                    0 <= a < i ==> !crowds((#[trigger] self.tree_positions@[a]).0 as int, self.tree_positions@[a].1 as int, world_x as int, world_z as int),
        {
            let (tx, tz) = self.tree_positions[i];
            assert(self.positions().contains(self.tree_positions@[i as int]));
            let dx = tx - world_x;
            let dz = tz - world_z;
            if -6 < dx && dx < 6 && -6 < dz && dz < 6 {
                return false;
            }
        }
        proof {
            assert forall|p: (i32, i32)| #[trigger] self.positions().contains(p) implies !crowds(p.0 as int, p.1 as int, world_x as int, world_z as int) by {
                let a = choose|a: int| 0 <= a < self.tree_positions@.len() && self.tree_positions@[a] == p;
                assert(!crowds(self.tree_positions@[a].0 as int, self.tree_positions@[a].1 as int, world_x as int, world_z as int));
            }
        }
        true
    }

    /// Whether every known tree lies within `i32` distance of the columns where the chunk at
    /// `pos` may grow trees, so that trees can be spawned for that chunk.
    pub fn within_reach(&self, pos: crate::chunk::ChunkPos) -> (r: bool)
        ensures
            r == trees_within_reach(self.positions(), pos),
    {
        let lo_x: i64 = pos.x as i64 * 16 + 3;
        let lo_z: i64 = pos.z as i64 * 16 + 3;
        let n = self.tree_positions.len();
        for i in 0..n
            invariant
                n == self.tree_positions@.len(),
                lo_x == pos.x * CHUNK_SIZE + 3,
                lo_z == pos.z * CHUNK_SIZE + 3,
                forall|a: int| 0 <= a < i ==> {
                    let p = #[trigger] self.tree_positions@[a];
                    &&& i32::MIN < p.0 - (pos.x * CHUNK_SIZE + 12)
                    &&& p.0 - (pos.x * CHUNK_SIZE + 3) <= i32::MAX
                    &&& i32::MIN < p.1 - (pos.z * CHUNK_SIZE + 12)
                    &&& p.1 - (pos.z * CHUNK_SIZE + 3) <= i32::MAX
                },
        {
            let (tx, tz) = self.tree_positions[i];
            let min: i64 = i32::MIN as i64;
            let max: i64 = i32::MAX as i64;
            let (txl, tzl) = (tx as i64, tz as i64);
            let ok = min < txl - (lo_x + 9) && txl - lo_x <= max && min < tzl - (lo_z + 9) && tzl - lo_z <= max;
            if !ok {
                assert(self.positions().contains(self.tree_positions@[i as int]));
                return false;
            }
        }
        proof {
            assert forall|p: (i32, i32)| #[trigger] self.positions().contains(p) implies {
                &&& i32::MIN < p.0 - (pos.x * CHUNK_SIZE + 12)
                &&& p.0 - (pos.x * CHUNK_SIZE + 3) <= i32::MAX
                &&& i32::MIN < p.1 - (pos.z * CHUNK_SIZE + 12)
                &&& p.1 - (pos.z * CHUNK_SIZE + 3) <= i32::MAX
            } by {
                let a = choose|a: int| 0 <= a < self.tree_positions@.len() && self.tree_positions@[a] == p;
                assert(p == self.tree_positions@[a]);
            }
        }
        true
    }

    /// Records a tree in the world column `(world_x, world_z)`.
    pub fn register_tree(&mut self, world_x: i32, world_z: i32)
        ensures
            final(self).positions() == old(self).positions().insert((world_x, world_z)),
    {
        proof {
            use_type_invariant(&*self);
        }
        let n = self.tree_positions.len();
        for i in 0..n
            invariant
                n == self.tree_positions@.len(),
                forall|a: int, b: int|
                    0 <= a < b < self.tree_positions@.len() ==> self.tree_positions@[a] != self.tree_positions@[b],
                *self == *old(self),
                forall|a: int| 0 <= a < i ==> self.tree_positions@[a] != (world_x, world_z),
        {
            let (tx, tz) = self.tree_positions[i];
            if tx == world_x && tz == world_z {
                proof {
                    assert(self.tree_positions@[i as int] == (world_x, world_z));
                    assert(old(self).positions().insert((world_x, world_z)) =~= old(self).positions());
                }
                return;
            }
        }
        let ghost before = self.tree_positions@;
        let mut positions: Vec<(i32, i32)> = Vec::new();
        std::mem::swap(&mut positions, &mut self.tree_positions);
        positions.push((world_x, world_z));
        assert(positions@ == before.push((world_x, world_z)));
        assert forall|a: int, b: int| 0 <= a < b < positions@.len() implies positions@[a] != positions@[b] by {
            if b == before.len() {
                assert(before[a] != (world_x, world_z));
            }
        }
        self.tree_positions = positions;
        proof {
            assert(self.tree_positions@ == before.push((world_x, world_z)));
            assert(self.tree_positions@.to_set() =~= before.to_set().insert((world_x, world_z))) by {
                assert forall|p: (i32, i32)| self.tree_positions@.to_set().contains(p) implies before.to_set().insert((world_x, world_z)).contains(p) by {
                    let a = choose|a: int| 0 <= a < self.tree_positions@.len() && self.tree_positions@[a] == p;
                    if a < before.len() {
                        assert(before[a] == p);
                    }
                }
                assert forall|p: (i32, i32)| before.to_set().insert((world_x, world_z)).contains(p) implies self.tree_positions@.to_set().contains(p) by {
                    if p == (world_x, world_z) {
                        assert(self.tree_positions@[before.len() as int] == p);
                    } else {
                        let a = choose|a: int| 0 <= a < before.len() && before[a] == p;
                        assert(self.tree_positions@[a] == p);
                    }
                }
            }
        }
    }
}


/// The tree a biome grows, the ground it grows on, and the chance draw in thousandths it must
/// exceed.
pub open spec fn biome_trees(name: Seq<char>) -> Option<(TreeType, BlockType, int)> {
    if name == "taiga"@ {
        Some((TreeType::Spruce, BlockType::Podzol, 960))
    } else if name == "snowy_taiga"@ {
        Some((TreeType::Spruce, BlockType::SnowyGrassBlock, 960))
    } else if name == "oak_forest"@ {
        Some((TreeType::Oak, BlockType::GrassBlock, 940))
    } else if name == "birch_forest"@ {
        Some((TreeType::Birch, BlockType::GrassBlock, 940))
    } else if name == "desert"@ {
        Some((TreeType::Cactus, BlockType::Sand, 990))
    } else {
        None
    }
}

/// The tree kind and seed with which the column `(x, z)` of `chunk` tries to grow a tree, before
/// the distance rules are asked: its surface must lie at or above the water level and eight
/// layers below the top, be the ground its biome's trees need, and the column's chance draw
/// must exceed the biome's threshold.
pub open spec fn tree_attempt(
    chunk: Chunk,
    terrain: TerrainSample,
    biomes: Seq<Biome>,
    water_level: int,
    x: int,
    z: int,
) -> Option<(TreeType, u32)> {
    let s = surface(chunk, x, z);
    let seed = column_seed(chunk.pos.x * CHUNK_SIZE + x, chunk.pos.z * CHUNK_SIZE + z);
    if s >= 0 && s >= water_level && s < CHUNK_HEIGHT - 8 {
        match biome_trees(biomes[terrain.biome_at(x, s, z)].name@) {
            Some((t, ground, threshold)) => if chunk.block_at(x, s, z) == ground && lcg(seed) % 1000 > threshold {
                Some((t, lcg(seed)))
            } else {
                None
            },
            None => None,
        }
    } else {
        None
    }
}

/// Whether a tree of kind `t` grown from `seed` at `(x, base_y, z)` finds room in `chunk`.
pub open spec fn tree_grows(t: TreeType, chunk: Chunk, x: int, base_y: int, z: int, seed: u32) -> bool {
    match t {
        TreeType::Oak | TreeType::Birch => {
            let h = broadleaf_height(seed);
            tree_fits(chunk, x, base_y, z, h, broadleaf_cells(x, base_y + h - 1, z, seed))
        },
        TreeType::Spruce => {
            let h = spruce_height(seed);
            tree_fits(chunk, x, base_y, z, h, spruce_cells(x, base_y + h - 1, z, seed))
        },
        TreeType::Cactus => tree_fits(chunk, x, base_y, z, cactus_height(seed), Seq::empty()),
    }
}

/// Whether `(after, known_after)` follows from `(before, known_before)` by the tree step of the
/// column `(x, z)`: when the column attempts a tree and the column is inside the chunk margin
/// and not crowded by a known tree, the tree grows on the surface if it finds room and its
/// column becomes known; otherwise nothing changes.
pub open spec fn tree_step(
    before: Chunk,
    after: Chunk,
    known_before: Set<(i32, i32)>,
    known_after: Set<(i32, i32)>,
    terrain: TerrainSample,
    biomes: Seq<Biome>,
    water_level: int,
    x: int,
    z: int,
) -> bool {
    let wx = before.pos.x * CHUNK_SIZE + x;
    let wz = before.pos.z * CHUNK_SIZE + z;
    let base_y = surface(before, x, z) + 1;
    match tree_attempt(before, terrain, biomes, water_level, x, z) {
        Some((t, seed)) => if inside_chunk_margin(wx, wz) && forall|p: (i32, i32)|
            #[trigger] known_before.contains(p) ==> !crowds(p.0 as int, p.1 as int, wx, wz) {
            let grew = tree_grows(t, before, x, base_y, z, seed);
            &&& tree_outcome(t, before, after, x, base_y, z, seed, grew)
            &&& known_after == if grew { known_before.insert((wx as i32, wz as i32)) } else { known_before }
        } else {
            after == before && known_after == known_before
        },
        None => after == before && known_after == known_before,
    }
}

/// Whether `states` and `known` run through the tree steps of the 256 columns of a chunk, in
/// order of x and then z.
pub open spec fn tree_steps(
    states: Seq<Chunk>,
    known: Seq<Set<(i32, i32)>>,
    terrain: TerrainSample,
    biomes: Seq<Biome>,
    water_level: int,
    n: int,
) -> bool {
    &&& states.len() == n + 1
    &&& known.len() == n + 1
    &&& forall|c: int|
        0 <= c < n ==> #[trigger] tree_step(
            states[c],
            states[c + 1],
            known[c],
            known[c + 1],
            terrain,
            biomes,
            water_level,
            c / 16,
            c % 16,
        )
}

/// Whether `(after, known_after)` follows from `(before, known_before)` by the tree steps of
/// all 256 columns.
pub open spec fn trees_spawned(
    before: Chunk,
    after: Chunk,
    known_before: Set<(i32, i32)>,
    known_after: Set<(i32, i32)>,
    terrain: TerrainSample,
    biomes: Seq<Biome>,
    water_level: int,
) -> bool {
    exists|states: Seq<Chunk>, known: Seq<Set<(i32, i32)>>|
        #[trigger] tree_steps(states, known, terrain, biomes, water_level, 256) && states[0] == before
            && states[256] == after && known[0] == known_before && known[256] == known_after
}

/// The tree the biome named `name` grows, with its ground and threshold.
fn tree_plan(name: &Vec<char>) -> (r: Option<(TreeType, BlockType, u32)>)
    ensures
        match (r, biome_trees(name@)) {
            (Some((t, g, th)), Some((t2, g2, th2))) => t == t2 && g == g2 && th == th2,
            (None, None) => true,
            _ => false,
        },
{
    if chars_equal(name, &str_chars("taiga")) {
        Some((TreeType::Spruce, BlockType::Podzol, 960))
    } else if chars_equal(name, &str_chars("snowy_taiga")) {
        Some((TreeType::Spruce, BlockType::SnowyGrassBlock, 960))
    } else if chars_equal(name, &str_chars("oak_forest")) {
        Some((TreeType::Oak, BlockType::GrassBlock, 940))
    } else if chars_equal(name, &str_chars("birch_forest")) {
        Some((TreeType::Birch, BlockType::GrassBlock, 940))
    } else if chars_equal(name, &str_chars("desert")) {
        Some((TreeType::Cactus, BlockType::Sand, 990))
    } else {
        None
    }
}

impl TreeGenerator {
    /// Runs the tree step of the column `(x, z)`.
    fn spawn_tree_in_column(
        &mut self,
        chunk: &mut Chunk,
        terrain: &TerrainSample,
        biomes: &BiomeManager,
        water_level: i32,
        x: i32,
        z: i32,
    )
        requires
            old(chunk).wf(),
            crate::chunk::pos_in_world(old(chunk).pos),
            trees_within_reach(old(self).positions(), old(chunk).pos),
            terrain.wf(biomes.biomes().len() as int),
            0 <= x < CHUNK_SIZE,
            0 <= z < CHUNK_SIZE,
        ensures
            trees_within_reach(final(self).positions(), final(chunk).pos),
            final(chunk).wf(),
            final(chunk).pos == old(chunk).pos,
            tree_step(*old(chunk), *final(chunk), old(self).positions(), final(self).positions(), *terrain, biomes.biomes(), water_level as int, x as int, z as int),
    {
        let world_x = chunk.pos.x * CHUNK_SIZE + x;
        let world_z = chunk.pos.z * CHUNK_SIZE + z;
        let actual_surface = chunk.surface_level(x, z);
        if actual_surface < 0 || actual_surface < water_level || actual_surface >= CHUNK_HEIGHT - 8 {
            return;
        }
        proof {
            crate::chunk::lemma_cell_index(x as int, actual_surface as int, z as int);
        }
        let idx = (x + z * CHUNK_SIZE + actual_surface * CHUNK_SIZE * CHUNK_SIZE) as usize;
        let biome = biomes.get(terrain.biomes[idx]);
        let name = str_chars(biome.name.as_str());
        let plan = tree_plan(&name);
        match plan {
            None => {
                return;
            },
            Some((tree_type, surface_requirement, tree_threshold)) => {
                let block = chunk.get_block(x, actual_surface, z);
                if block != surface_requirement {
                    return;
                }
                let rng = SeededRng::new(world_x, world_z);
                let tree_check = rng.next_u32() % 1000;
                proof {
                    let wx = world_x as int;
                    let wz = world_z as int;
                    if inside_chunk_margin(wx, wz) {
                        assert(wx % 16 == x && wz % 16 == z);
                        assert forall|p: (i32, i32)| #[trigger] self.positions().contains(p) implies distance_fits(p, wx, wz) by {
                            assert(trees_within_reach(self.positions(), chunk.pos));
                        }
                    }
                }
                if tree_check > tree_threshold && self.can_place_tree(world_x, world_z) {
                    let seed = rng.next_u32();
                    let ghost before = *chunk;
                    let grew = generate_tree(chunk, x, actual_surface + 1, z, seed, tree_type);
                    proof {
                        assert(grew == tree_grows(tree_type, before, x as int, actual_surface + 1, z as int, seed));
                    }
                    if grew {
                        let ghost known_before = self.positions();
                        self.register_tree(world_x, world_z);
                        proof {
                            assert(world_x % 16 == x && world_z % 16 == z);
                            assert forall|p: (i32, i32)| #[trigger] self.positions().contains(p) implies {
                                &&& i32::MIN < p.0 - (chunk.pos.x * CHUNK_SIZE + 12)
                                &&& p.0 - (chunk.pos.x * CHUNK_SIZE + 3) <= i32::MAX
                                &&& i32::MIN < p.1 - (chunk.pos.z * CHUNK_SIZE + 12)
                                &&& p.1 - (chunk.pos.z * CHUNK_SIZE + 3) <= i32::MAX
                            } by {
                                if p != (world_x, world_z) {
                                    assert(known_before.contains(p));
                                }
                            }
                        }
                    }
                }
            },
        }
    }

    /// Grows the trees of every column of `chunk`, as its biomes call for, keeping new trees
    /// away from known ones and from the chunk's edges, and records the trees that grew.
    pub fn spawn_trees_for_chunk(
        &mut self,
        chunk: &mut Chunk,
        terrain: &TerrainSample,
        biomes: &BiomeManager,
        water_level: i32,
    )
        requires
            old(chunk).wf(),
            crate::chunk::pos_in_world(old(chunk).pos),
            trees_within_reach(old(self).positions(), old(chunk).pos),
            terrain.wf(biomes.biomes().len() as int),
        ensures
            trees_within_reach(final(self).positions(), final(chunk).pos),
            final(chunk).wf(),
            final(chunk).pos == old(chunk).pos,
            trees_spawned(*old(chunk), *final(chunk), old(self).positions(), final(self).positions(), *terrain, biomes.biomes(), water_level as int),
    {
        let ghost mut states: Seq<Chunk> = seq![*chunk];
        let ghost mut known: Seq<Set<(i32, i32)>> = seq![self.positions()];
        let ghost start = *chunk;
        let ghost start_known = self.positions();
        for x in 0..CHUNK_SIZE
            invariant
                trees_within_reach(self.positions(), chunk.pos),
                chunk.wf(),
                chunk.pos == start.pos,
                crate::chunk::pos_in_world(start.pos),
                terrain.wf(biomes.biomes().len() as int),
                tree_steps(states, known, *terrain, biomes.biomes(), water_level as int, x * CHUNK_SIZE),
                states[0] == start,
                known[0] == start_known,
                states.last() == *chunk,
                known.last() == self.positions(),
        {
            for z in 0..CHUNK_SIZE
                invariant
                    trees_within_reach(self.positions(), chunk.pos),
                    chunk.wf(),
                    chunk.pos == start.pos,
                    crate::chunk::pos_in_world(start.pos),
                    0 <= x < CHUNK_SIZE,
                    terrain.wf(biomes.biomes().len() as int),
                    tree_steps(states, known, *terrain, biomes.biomes(), water_level as int, x * CHUNK_SIZE + z),
                    states[0] == start,
                    known[0] == start_known,
                    states.last() == *chunk,
                    known.last() == self.positions(),
            {
                let ghost before = *chunk;
                let ghost known_before = self.positions();
                self.spawn_tree_in_column(chunk, terrain, biomes, water_level, x, z);
                proof {
                    let n = x * CHUNK_SIZE + z;
                    let old_states = states;
                    let old_known = known;
                    states = states.push(*chunk);
                    known = known.push(self.positions());
                    assert(n / 16 == x && n % 16 == z);
                    assert forall|c: int| 0 <= c < n + 1 implies #[trigger] tree_step(
                        states[c],
                        states[c + 1],
                        known[c],
                        known[c + 1],
                        *terrain,
                        biomes.biomes(),
                        water_level as int,
                        c / 16,
                        c % 16,
                    ) by {
                        if c < n {
                            assert(states[c] == old_states[c] && states[c + 1] == old_states[c + 1]);
                            assert(known[c] == old_known[c] && known[c + 1] == old_known[c + 1]);
                        } else {
                            assert(states[c] == before && known[c] == known_before);
                        }
                    }
                }
            }
        }
        proof {
            assert(tree_steps(states, known, *terrain, biomes.biomes(), water_level as int, 256));
        }
    }
}


/// No two of `trees` stand closer than six blocks on both axes.
pub open spec fn spread_out(trees: Set<(i32, i32)>) -> bool {
    forall|p: (i32, i32), q: (i32, i32)|
        #[trigger] trees.contains(p) && #[trigger] trees.contains(q) && p != q ==> !crowds(
            p.0 as int,
            p.1 as int,
            q.0 as int,
            q.1 as int,
        )
}

proof fn lemma_step_keeps_spread(
    before: Chunk,
    after: Chunk,
    known_before: Set<(i32, i32)>,
    known_after: Set<(i32, i32)>,
    terrain: TerrainSample,
    biomes: Seq<Biome>,
    water_level: int,
    x: int,
    z: int,
)
    requires
        tree_step(before, after, known_before, known_after, terrain, biomes, water_level, x, z),
        crate::chunk::pos_in_world(before.pos),
        0 <= x < CHUNK_SIZE,
        0 <= z < CHUNK_SIZE,
        spread_out(known_before),
    ensures
        spread_out(known_after),
        known_before.subset_of(known_after),
        after.pos == before.pos,
{
    let wx = before.pos.x * CHUNK_SIZE + x;
    let wz = before.pos.z * CHUNK_SIZE + z;
    let w = (wx as i32, wz as i32);
    assert(w.0 as int == wx && w.1 as int == wz);
    if known_after != known_before {
        assert(known_after == known_before.insert(w));
        assert forall|p: (i32, i32), q: (i32, i32)|
            #[trigger] known_after.contains(p) && #[trigger] known_after.contains(q) && p != q implies !crowds(
                p.0 as int,
                p.1 as int,
                q.0 as int,
                q.1 as int,
            ) by {
            if p == w {
                assert(known_before.contains(q));
                assert(!crowds(q.0 as int, q.1 as int, wx, wz));
            } else if q == w {
                assert(known_before.contains(p));
                assert(!crowds(p.0 as int, p.1 as int, wx, wz));
            } else {
                assert(known_before.contains(p) && known_before.contains(q));
            }
        }
    }
}

proof fn lemma_steps_keep_spread(
    states: Seq<Chunk>,
    known: Seq<Set<(i32, i32)>>,
    terrain: TerrainSample,
    biomes: Seq<Biome>,
    water_level: int,
    n: int,
    c: int,
)
    requires
        tree_steps(states, known, terrain, biomes, water_level, n),
        crate::chunk::pos_in_world(states[0].pos),
        spread_out(known[0]),
        0 <= c <= n,
        n <= 256,
    ensures
        spread_out(known[c]),
        known[0].subset_of(known[c]),
        states[c].pos == states[0].pos,
    decreases c,
{
    if c > 0 {
        lemma_steps_keep_spread(states, known, terrain, biomes, water_level, n, c - 1);
        let d = c - 1;
        assert(tree_step(states[d], states[d + 1], known[d], known[d + 1], terrain, biomes, water_level, d / 16, d % 16));
        lemma_step_keeps_spread(
            states[d],
            states[d + 1],
            known[d],
            known[d + 1],
            terrain,
            biomes,
            water_level,
            d / 16,
            d % 16,
        );
    }
}

/// Trees keep their distance: spawning the trees of a chunk forgets no known tree, and when no
/// two known trees crowd each other, no two crowd each other afterwards either.
pub proof fn law_trees_keep_their_distance(
    before: Chunk,
    after: Chunk,
    known_before: Set<(i32, i32)>,
    known_after: Set<(i32, i32)>,
    terrain: TerrainSample,
    biomes: Seq<Biome>,
    water_level: int,
)
    requires
        before.wf(),
        crate::chunk::pos_in_world(before.pos),
        trees_spawned(before, after, known_before, known_after, terrain, biomes, water_level),
        spread_out(known_before),
    ensures
        spread_out(known_after),
        known_before.subset_of(known_after),
{
    let (states, known) = choose|states: Seq<Chunk>, known: Seq<Set<(i32, i32)>>|
        #[trigger] tree_steps(states, known, terrain, biomes, water_level, 256) && states[0] == before
            && states[256] == after && known[0] == known_before && known[256] == known_after;
    lemma_steps_keep_spread(states, known, terrain, biomes, water_level, 256, 256);
}


/// Whether `q` is a column of the chunk at `pos` lying at least three blocks inside it.
pub open spec fn in_chunk_margin_of(pos: crate::chunk::ChunkPos, q: (i32, i32)) -> bool {
    &&& pos.x * CHUNK_SIZE + 3 <= q.0 <= pos.x * CHUNK_SIZE + 12
    &&& pos.z * CHUNK_SIZE + 3 <= q.1 <= pos.z * CHUNK_SIZE + 12
}

/// Whether the trees of `known` that `known_before` lacks lie inside the chunk at `pos`, away
/// from its sides, and crowd neither a tree of `known_before` nor one another.
pub open spec fn added_trees_apart(known_before: Set<(i32, i32)>, known: Set<(i32, i32)>, pos: crate::chunk::ChunkPos) -> bool {
    &&& known_before.subset_of(known)
    &&& forall|q: (i32, i32)|
        #[trigger] known.contains(q) && !known_before.contains(q) ==> in_chunk_margin_of(pos, q)
    &&& forall|q: (i32, i32), r: (i32, i32)|
        #[trigger] known.contains(q) && !known_before.contains(q) && #[trigger] known.contains(r) && r != q
            ==> !crowds(r.0 as int, r.1 as int, q.0 as int, q.1 as int)
}

proof fn lemma_insert_keeps_apart(
    known_start: Set<(i32, i32)>,
    known_before: Set<(i32, i32)>,
    w: (i32, i32),
    pos: crate::chunk::ChunkPos,
)
    requires
        added_trees_apart(known_start, known_before, pos),
        in_chunk_margin_of(pos, w),
        forall|p: (i32, i32)| #[trigger] known_before.contains(p) ==> !crowds(p.0 as int, p.1 as int, w.0 as int, w.1 as int),
    ensures
        added_trees_apart(known_start, known_before.insert(w), pos),
{
    let known_after = known_before.insert(w);
    assert(!known_before.contains(w)) by {
        if known_before.contains(w) {
            assert(!crowds(w.0 as int, w.1 as int, w.0 as int, w.1 as int));
        }
    }
    assert forall|q: (i32, i32), r: (i32, i32)|
        #[trigger] known_after.contains(q) && !known_start.contains(q) && #[trigger] known_after.contains(r) && r != q
            implies !crowds(r.0 as int, r.1 as int, q.0 as int, q.1 as int) by {
        if q == w {
            assert(known_before.contains(r));
        } else if r == w {
            assert(known_before.contains(q));
            assert(!crowds(q.0 as int, q.1 as int, w.0 as int, w.1 as int));
        } else {
            assert(known_before.contains(q) && known_before.contains(r));
        }
    }
}

#[verifier::spinoff_prover]
#[verifier::rlimit(40)]
proof fn lemma_step_adds_apart(
    before: Chunk,
    after: Chunk,
    known_before: Set<(i32, i32)>,
    known_after: Set<(i32, i32)>,
    terrain: TerrainSample,
    biomes: Seq<Biome>,
    water_level: int,
    x: int,
    z: int,
    known_start: Set<(i32, i32)>,
)
    requires
        tree_step(before, after, known_before, known_after, terrain, biomes, water_level, x, z),
        crate::chunk::pos_in_world(before.pos),
        0 <= x < CHUNK_SIZE,
        0 <= z < CHUNK_SIZE,
        added_trees_apart(known_start, known_before, before.pos),
    ensures
        added_trees_apart(known_start, known_after, before.pos),
        after.pos == before.pos,
{
    let wx = before.pos.x * CHUNK_SIZE + x;
    let wz = before.pos.z * CHUNK_SIZE + z;
    let w = (wx as i32, wz as i32);
    assert(w.0 as int == wx && w.1 as int == wz);
    if known_after != known_before {
        assert(known_after == known_before.insert(w));
        assert(inside_chunk_margin(wx, wz));
        assert(wx % 16 == x && wz % 16 == z);
        assert(in_chunk_margin_of(before.pos, w));
        lemma_insert_keeps_apart(known_start, known_before, w, before.pos);
    }
}

proof fn lemma_steps_add_apart(
    states: Seq<Chunk>,
    known: Seq<Set<(i32, i32)>>,
    terrain: TerrainSample,
    biomes: Seq<Biome>,
    water_level: int,
    n: int,
    c: int,
)
    requires
        tree_steps(states, known, terrain, biomes, water_level, n),
        crate::chunk::pos_in_world(states[0].pos),
        0 <= c <= n,
        n <= 256,
    ensures
        added_trees_apart(known[0], known[c], states[0].pos),
        states[c].pos == states[0].pos,
    decreases c,
{
    if c == 0 {
        assert(known[0].subset_of(known[0]));
    } else {
        lemma_steps_add_apart(states, known, terrain, biomes, water_level, n, c - 1);
        let d = c - 1;
        assert(tree_step(states[d], states[d + 1], known[d], known[d + 1], terrain, biomes, water_level, d / 16, d % 16));
        lemma_step_adds_apart(
            states[d],
            states[d + 1],
            known[d],
            known[d + 1],
            terrain,
            biomes,
            water_level,
            d / 16,
            d % 16,
            known[0],
        );
    }
}

/// Each tree that spawning adds stands in the chunk at least three blocks from its sides, and
/// at least six blocks, on one axis or the other, from every tree known before and from every
/// other tree it adds.
pub proof fn law_each_new_tree_keeps_its_distance(
    before: Chunk,
    after: Chunk,
    known_before: Set<(i32, i32)>,
    known_after: Set<(i32, i32)>,
    terrain: TerrainSample,
    biomes: Seq<Biome>,
    water_level: int,
)
    requires
        crate::chunk::pos_in_world(before.pos),
        trees_spawned(before, after, known_before, known_after, terrain, biomes, water_level),
    ensures
        added_trees_apart(known_before, known_after, before.pos),
{
    let (states, known) = choose|states: Seq<Chunk>, known: Seq<Set<(i32, i32)>>|
        #[trigger] tree_steps(states, known, terrain, biomes, water_level, 256) && states[0] == before
            && states[256] == after && known[0] == known_before && known[256] == known_after;
    lemma_steps_add_apart(states, known, terrain, biomes, water_level, 256, 256);
}


/// A tree is built of its own kind's wood and leaves: every cell that growing a tree changes
/// holds oak log or oak leaves for an oak, birch log or birch leaves for a birch, spruce log or
/// spruce leaves for a spruce, and cactus or a cactus flower for a cactus; and a tree that grew
/// stands on a trunk of that wood at its base.
pub proof fn law_trees_are_built_of_their_kind(
    t: TreeType,
    before: Chunk,
    after: Chunk,
    x: int,
    base_y: int,
    z: int,
    seed: u32,
    grew: bool,
    i: int,
    j: int,
    k: int,
)
    requires
        tree_outcome(t, before, after, x, base_y, z, seed, grew),
    ensures
        after.block_at(i, j, k) != before.block_at(i, j, k) ==> {
            let b = after.block_at(i, j, k);
            match t {
                TreeType::Oak => b == BlockType::OakLog || b == BlockType::OakLeaves,
                TreeType::Birch => b == BlockType::BirchLog || b == BlockType::BirchLeaves,
                TreeType::Spruce => b == BlockType::SpruceLog || b == BlockType::SpruceLeaves,
                TreeType::Cactus => b == BlockType::Cactus || b == BlockType::CactusFlower,
            }
        },
        ({
            let wood = match t {
                TreeType::Oak => BlockType::OakLog,
                TreeType::Birch => BlockType::BirchLog,
                TreeType::Spruce => BlockType::SpruceLog,
                TreeType::Cactus => BlockType::Cactus,
            };
            let (shortest, tallest) = match t {
                TreeType::Oak | TreeType::Birch => (4int, 5int),
                TreeType::Spruce => (9int, 13int),
                TreeType::Cactus => (2int, 4int),
            };
            &&& grew && 0 <= j - base_y < shortest && in_chunk(x, j, z) ==> after.block_at(x, j, z) == wood
            &&& after.block_at(i, j, k) == wood && before.block_at(i, j, k) != wood ==> i == x && k == z
                && base_y <= j < base_y + tallest
        }),
{
    broadleaf_height_bounds(seed);
    spruce_height_bounds(seed);
    cactus_height_bounds(seed);
}

proof fn broadleaf_height_bounds(seed: u32)
    ensures
        4 <= broadleaf_height(seed) <= 5,
{
}

proof fn spruce_height_bounds(seed: u32)
    ensures
        9 <= spruce_height(seed) <= 13,
{
}

proof fn cactus_height_bounds(seed: u32)
    ensures
        2 <= cactus_height(seed) <= 4,
{
}

}
