//! Placement of the instanced cubes: a square grid in the ground plane,
//! centred on the origin.
use vstd::prelude::*;

verus! {

/// Instances along each side of the grid.
pub const INSTANCES_PER_ROW: u32 = 10;

/// World units between neighbouring instances.
pub const INSTANCE_SPACING: i32 = 3;

/// Where one instance stands in the ground plane, and whether it is tilted.
///
/// Every instance but the one at the origin is turned an eighth of a turn
/// about the axis from the origin through its position; the one at the origin
/// has no such axis and keeps the identity rotation.
#[derive(Clone, Copy, Debug, PartialEq, Eq, Structural)]
pub struct Placement {
    pub x: i32,
    pub z: i32,
    pub tilted: bool,
}

/// The world coordinate of grid column or row `n`.
pub open spec fn grid_coord(n: int) -> int {
    INSTANCE_SPACING * (n - INSTANCES_PER_ROW / 2)
}

/// The placement of instance `k`, counting along rows of constant `z`.
pub open spec fn placement_of(k: int) -> Placement {
    let x = grid_coord(k % INSTANCES_PER_ROW as int);
    let z = grid_coord(k / INSTANCES_PER_ROW as int);
    Placement { x: x as i32, z: z as i32, tilted: !(x == 0 && z == 0) }
}

/// All instance placements, row by row: instance `k` stands at column
/// `k % 10` and row `k / 10`.
pub fn instance_grid() -> (r: Vec<Placement>)
    ensures
        r@.len() == INSTANCES_PER_ROW * INSTANCES_PER_ROW,
        forall|k: int| 0 <= k < r@.len() ==> #[trigger] r@[k] == placement_of(k),
{
    let n: u32 = INSTANCES_PER_ROW * INSTANCES_PER_ROW;
    let mut r: Vec<Placement> = Vec::new();
    let mut k: u32 = 0;
    while k < n
        invariant
            n == INSTANCES_PER_ROW * INSTANCES_PER_ROW,
            k <= n,
            r@.len() == k,
            forall|j: int| 0 <= j < r@.len() ==> #[trigger] r@[j] == placement_of(j),
        decreases n - k,
    {
        let col: i32 = (k % INSTANCES_PER_ROW) as i32;
        let row: i32 = (k / INSTANCES_PER_ROW) as i32;
        let half: i32 = (INSTANCES_PER_ROW / 2) as i32;
        let x: i32 = INSTANCE_SPACING * (col - half);
        let z: i32 = INSTANCE_SPACING * (row - half);
        r.push(Placement { x, z, tilted: !(x == 0 && z == 0) });
        k = k + 1;
    }
    r
}

} // verus!
