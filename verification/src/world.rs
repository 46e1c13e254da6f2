use vstd::prelude::*;
use crate::chunk::{ChunkPos, RENDER_DISTANCE};

verus! {

/// How far, in chunks and along either axis, a chunk may lie from the player's chunk before
/// its mesh is dropped.
pub const UNLOAD_DISTANCE: i32 = 24;

/// The chunks within the render distance of `center` along both axes, x outermost, each
/// coordinate rising: a square of 33 x 33 chunks.
pub open spec fn view_square(center: ChunkPos) -> Seq<ChunkPos> {
    Seq::new(
        1089,
        |i: int|
            ChunkPos {
                x: (center.x - RENDER_DISTANCE + i / 33) as i32,
                z: (center.z - RENDER_DISTANCE + i % 33) as i32,
            },
    )
}

/// Whether the render distance around `center` stays within `i32`.
pub open spec fn view_fits(center: ChunkPos) -> bool {
    &&& i32::MIN + RENDER_DISTANCE <= center.x < i32::MAX - RENDER_DISTANCE
    &&& i32::MIN + RENDER_DISTANCE <= center.z < i32::MAX - RENDER_DISTANCE
}

/// The chunks that are kept loaded and drawn around the player's chunk `center`.
pub fn chunks_in_view(center: ChunkPos) -> (r: Vec<ChunkPos>)
    requires
        view_fits(center),
    ensures
        r@ == view_square(center),
{
    let mut r: Vec<ChunkPos> = Vec::new();
    let mut x = center.x - RENDER_DISTANCE;
    while x <= center.x + RENDER_DISTANCE
        invariant
            view_fits(center),
            center.x - RENDER_DISTANCE <= x <= center.x + RENDER_DISTANCE + 1,
            r@ == view_square(center).take((x - (center.x - RENDER_DISTANCE)) * 33),
        decreases center.x + RENDER_DISTANCE + 1 - x,
    {
        let mut z = center.z - RENDER_DISTANCE;
        while z <= center.z + RENDER_DISTANCE
            invariant
                view_fits(center),
                center.x - RENDER_DISTANCE <= x <= center.x + RENDER_DISTANCE,
                center.z - RENDER_DISTANCE <= z <= center.z + RENDER_DISTANCE + 1,
                r@ == view_square(center).take(
                    (x - (center.x - RENDER_DISTANCE)) * 33 + (z - (center.z - RENDER_DISTANCE)),
                ),
            decreases center.z + RENDER_DISTANCE + 1 - z,
        {
            let ghost n = (x - (center.x - RENDER_DISTANCE)) * 33 + (z - (center.z - RENDER_DISTANCE));
            let ghost before = r@;
            r.push(ChunkPos { x, z });
            proof {
                let a = x - (center.x - RENDER_DISTANCE);
                let b = z - (center.z - RENDER_DISTANCE);
                assert(0 <= a < 33 && 0 <= b < 33);
                assert(n / 33 == a && n % 33 == b) by (nonlinear_arith)
                    requires
                        n == a * 33 + b,
                        0 <= b < 33,
                ;
                assert(0 <= n < 1089) by (nonlinear_arith)
                    requires
                        n == a * 33 + b,
                        0 <= a < 33,
                        0 <= b < 33,
                ;
                assert(view_square(center)[n] == ChunkPos { x, z });
                assert(r@ =~= view_square(center).take(n + 1));
            }
            z = z + 1;
        }
        proof {
            let a = x - (center.x - RENDER_DISTANCE);
            assert(a * 33 + 33 == (a + 1) * 33) by (nonlinear_arith);
        }
        x = x + 1;
    }
    assert(r@ =~= view_square(center));
    r
}

/// Whether the chunk at `pos` lies too far from the player's chunk `center` to keep its mesh.
pub open spec fn too_far(center: ChunkPos, pos: ChunkPos) -> bool {
    let dx = pos.x - center.x;
    let dz = pos.z - center.z;
    dx > UNLOAD_DISTANCE || -dx > UNLOAD_DISTANCE || dz > UNLOAD_DISTANCE || -dz > UNLOAD_DISTANCE
}

/// The chunks kept in view around the player are never far enough to lose their meshes.
pub proof fn law_view_within_unload_distance(center: ChunkPos, i: int)
    requires
        view_fits(center),
        0 <= i < view_square(center).len(),
    ensures
        !too_far(center, view_square(center)[i]),
{
    assert(0 <= i / 33 < 33 && 0 <= i % 33 < 33) by (nonlinear_arith)
        requires
            0 <= i < 1089,
    ;
}

/// Whether the chunk at `pos` lies too far from `center` to keep its mesh.
pub fn beyond_unload_distance(center: ChunkPos, pos: ChunkPos) -> (r: bool)
    requires
        i32::MIN < pos.x - center.x <= i32::MAX,
        i32::MIN < pos.z - center.z <= i32::MAX,
    ensures
        r == too_far(center, pos),
{
    let dx = pos.x - center.x;
    let dz = pos.z - center.z;
    let adx = if dx < 0 { -dx } else { dx };
    let adz = if dz < 0 { -dz } else { dz };
    adx > UNLOAD_DISTANCE || adz > UNLOAD_DISTANCE
}

} // verus!
