use vstd::prelude::*;

verus! {

/// A point in the arena. `x` and `y` take part in the simulation; `z` only
/// orders drawing and is carried along unchanged.
#[derive(Clone, Copy, Debug, PartialEq, Eq, Structural)]
pub struct Position {
    pub x: i64,
    pub y: i64,
    pub z: i64,
}

impl Position {
    pub fn new(x: i64, y: i64, z: i64) -> (r: Position)
        ensures
            r == (Position { x, y, z }),
    {
        Position { x, y, z }
    }
}

pub open spec fn square(v: int) -> int {
    v * v
}

/// The planar distance between `a` and `b` is strictly below `radius`
/// (compared on squares, which is exact for a non-negative radius).
pub open spec fn within_radius(a: Position, b: Position, radius: int) -> bool {
    square(a.x - b.x) + square(a.y - b.y) < square(radius)
}

pub open spec fn clamp(v: int, lo: int, hi: int) -> int {
    if v < lo {
        lo
    } else if v > hi {
        hi
    } else {
        v
    }
}

/// Lower edge of a footprint of half-width `half` centred on `c`, clamped into
/// `[-bound, bound]`.
pub open spec fn clamped_low_edge(c: int, half: int, bound: int) -> int {
    clamp(c - half, -bound, bound)
}

/// Upper edge of the same footprint, clamped likewise.
pub open spec fn clamped_high_edge(c: int, half: int, bound: int) -> int {
    clamp(c + half, -bound, bound)
}

/// The centre recomputed as the midpoint (rounded down) of the clamped edges.
pub open spec fn clamp_centre(c: int, half: int, bound: int) -> int {
    let lo = clamped_low_edge(c, half, bound);
    let hi = clamped_high_edge(c, half, bound);
    lo + (hi - lo) / 2
}

/// Whether the planar distance between `pos1` and `pos2` is below `radius`.
pub fn is_colliding(pos1: &Position, pos2: &Position, radius: u32) -> (r: bool)
    ensures
        r == within_radius(*pos1, *pos2, radius as int),
{
    let dx: i128 = pos1.x as i128 - pos2.x as i128;
    let dy: i128 = pos1.y as i128 - pos2.y as i128;
    let r: i128 = radius as i128;
    if dx >= r || -dx >= r || dy >= r || -dy >= r {
        proof {
            let (a, b, c) = (dx as int, dy as int, r as int);
            assert(a * a >= c * c || b * b >= c * c) by (nonlinear_arith)
                requires
                    c >= 0,
                    a >= c || -a >= c || b >= c || -b >= c,
            ;
            assert(a * a >= 0 && b * b >= 0) by (nonlinear_arith);
        }
        return false;
    }
    proof {
        let (a, b, c) = (dx as int, dy as int, r as int);
        assert(0 <= a * a < c * c && 0 <= b * b < c * c && c * c <= 0x1_0000_0000_0000_0000) by (nonlinear_arith)
            requires
                -c < a < c,
                -c < b < c,
                0 <= c <= 0xffff_ffff,
        ;
    }
    dx * dx + dy * dy < r * r
}

/// Clamps the footprint of half-width `half` around `c` into `[-bound, bound]`
/// edge by edge, and returns the midpoint of the clamped edges.
pub fn clamp_axis(c: i64, half: i64, bound: i64) -> (r: i64)
    requires
        0 <= half <= 0x1_0000_0000,
        0 <= bound,
        -0x4000_0000_0000_0000 <= c <= 0x4000_0000_0000_0000,
    ensures
        r == clamp_centre(c as int, half as int, bound as int),
{
    let lo_raw = c - half;
    let hi_raw = c + half;
    let lo: i64 = if lo_raw < -bound {
        -bound
    } else if lo_raw > bound {
        bound
    } else {
        lo_raw
    };
    let hi: i64 = if hi_raw < -bound {
        -bound
    } else if hi_raw > bound {
        bound
    } else {
        hi_raw
    };
    let span: i64 = hi - lo;
    lo + span / 2
}

/// Whatever the candidate centre, both clamped edges and the recomputed centre
/// lie within `[-bound, bound]`, the edges are ordered, and the centre lies
/// between them.
pub proof fn lemma_clamped_footprint_in_arena(c: int, half: int, bound: int)
    requires
        half >= 0,
        bound >= 0,
    ensures
        -bound <= clamped_low_edge(c, half, bound) <= clamped_high_edge(c, half, bound) <= bound,
        clamped_low_edge(c, half, bound) <= clamp_centre(c, half, bound) <= clamped_high_edge(
            c,
            half,
            bound,
        ),
        -bound <= clamp_centre(c, half, bound) <= bound,
{
}

} // verus!
