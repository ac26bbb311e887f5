//! Hexagonal coordinates, the distance between two of them, and the board.

use vstd::prelude::*;

verus! {

/// A tile of the hexagonal grid, in axial coordinates.
#[derive(Clone, Copy, Debug, PartialEq, Eq, Structural)]
pub struct PosHex {
    pub q: i32,
    pub r: i32,
}

/// A number of steps between tiles.
#[derive(Clone, Copy, Debug, PartialEq, Eq, Structural)]
pub struct Distance(pub i64);

/// The absolute value of `x`.
pub open spec fn abs(x: int) -> int {
    if x < 0 {
        -x
    } else {
        x
    }
}

/// The larger of `x` and `y`.
pub open spec fn max2(x: int, y: int) -> int {
    if x < y {
        y
    } else {
        x
    }
}

/// The hexagonal metric: the least number of steps between neighbouring
/// tiles that leads from `a` to `b`. In axial coordinates that is the
/// largest of the three differences along the grid's axes.
pub open spec fn spec_distance_hex(a: PosHex, b: PosHex) -> int {
    let dq = a.q - b.q;
    let dr = a.r - b.r;
    max2(abs(dq), max2(abs(dr), abs(dq + dr)))
}

/// The distance between `a` and `b`, for all coordinates without overflow.
pub fn distance_hex(a: PosHex, b: PosHex) -> (d: Distance)
    ensures
        d.0 == spec_distance_hex(a, b),
        0 <= d.0,
{
    let dq: i64 = a.q as i64 - b.q as i64;
    let dr: i64 = a.r as i64 - b.r as i64;
    let ds: i64 = dq + dr;
    let aq: i64 = if dq < 0 { -dq } else { dq };
    let ar: i64 = if dr < 0 { -dr } else { dr };
    let az: i64 = if ds < 0 { -ds } else { ds };
    // The three differences sum to zero, so the largest is half of the sum
    // of their absolute values.
    Distance((aq + ar + az) / 2)
}

/// `a` and `b` share an edge: `b` lies one step from `a` in one of the six
/// directions of the grid.
pub open spec fn are_neighbours(a: PosHex, b: PosHex) -> bool {
    let dq = b.q - a.q;
    let dr = b.r - a.r;
    ||| dq == 1 && dr == 0
    ||| dq == -1 && dr == 0
    ||| dq == 0 && dr == 1
    ||| dq == 0 && dr == -1
    ||| dq == 1 && dr == -1
    ||| dq == -1 && dr == 1
}

/// The distance is a metric on the tiles, and it counts steps between
/// neighbours: it is zero exactly from a tile to itself, the same in both
/// directions, never shorter by a detour, and one exactly between tiles that
/// share an edge.
pub proof fn lemma_distance_hex_is_a_metric(a: PosHex, b: PosHex, c: PosHex)
    ensures
        spec_distance_hex(a, b) == 0 <==> a == b,
        spec_distance_hex(a, b) == spec_distance_hex(b, a),
        spec_distance_hex(a, c) <= spec_distance_hex(a, b) + spec_distance_hex(b, c),
        spec_distance_hex(a, b) == 1 <==> are_neighbours(a, b),
{
}

/// The board: every tile within `radius` steps of the origin.
#[derive(Clone, Copy, Debug, PartialEq, Eq, Structural)]
pub struct HexMap {
    pub radius: Distance,
}

impl HexMap {
    /// Whether `pos` is a tile of the board.
    pub open spec fn spec_is_inboard(self, pos: PosHex) -> bool {
        spec_distance_hex(PosHex { q: 0, r: 0 }, pos) <= self.radius.0
    }

    /// A board of the given radius.
    pub fn new(radius: Distance) -> (map: HexMap)
        ensures
            map.radius == radius,
    {
        HexMap { radius }
    }

    pub fn radius(&self) -> (radius: Distance)
        ensures
            radius == self.radius,
    {
        self.radius
    }

    /// Whether `pos` is a tile of the board.
    pub fn is_inboard(&self, pos: PosHex) -> (inboard: bool)
        ensures
            inboard == self.spec_is_inboard(pos),
    {
        let origin = PosHex { q: 0, r: 0 };
        distance_hex(origin, pos).0 <= self.radius.0
    }
}

} // verus!
