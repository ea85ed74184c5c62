use vstd::prelude::*;
use vstd::arithmetic::div_mod::{lemma_div_is_ordered, lemma_div_multiples_vanish};
use vstd::arithmetic::mul::lemma_mul_inequality;

verus! {

/// Sign of an integer: -1, 0 or 1.
pub open spec fn isgn(x: int) -> int {
    if x < 0 {
        -1
    } else if x == 0 {
        0
    } else {
        1
    }
}

/// Absolute value of an integer.
pub open spec fn iabs(x: int) -> int {
    if x < 0 {
        -x
    } else {
        x
    }
}

/// Squared Euclidean distance between two points, as unbounded integers.
/// All geometric comparisons in the simulation are made on squared
/// distances, so no square root is ever taken on world coordinates.
pub open spec fn dist2(a: Vec3, b: Vec3) -> int {
    (a.x - b.x) * (a.x - b.x) + (a.y - b.y) * (a.y - b.y) + (a.z - b.z) * (a.z - b.z)
}

/// `len` is the integer square root (rounded down) of `n`.
pub open spec fn sqrt_fits(n: int, len: int) -> bool {
    &&& 0 <= len
    &&& len * len <= n
    &&& n < (len + 1) * (len + 1)
}

/// Largest coordinate magnitude for which squared distances between two
/// points still fit comfortably in an `i128`.
pub const COORD_ABS_LIMIT: i64 = 3_000_000_000_000_000_000;

/// A point or direction in the arena, in nano-units (one spatial unit is
/// `1_000_000_000` nano-units). All simulation arithmetic is exact
/// fixed-point integer arithmetic.
#[derive(Clone, Copy, PartialEq, Eq, Structural, Debug)]
pub struct Vec3 {
    pub x: i64,
    pub y: i64,
    pub z: i64,
}

impl Vec3 {
    /// Every coordinate has magnitude at most `bound`.
    pub open spec fn bounded(self, bound: int) -> bool {
        &&& -bound <= self.x <= bound
        &&& -bound <= self.y <= bound
        &&& -bound <= self.z <= bound
    }
}

/// Squared distance between `a` and `b`, computed exactly in 128-bit
/// arithmetic. The coordinate bound keeps the sum of three squares within
/// `i128` range.
pub fn dist2_exec(a: &Vec3, b: &Vec3) -> (r: i128)
    requires
        a.bounded(COORD_ABS_LIMIT as int),
        b.bounded(COORD_ABS_LIMIT as int),
    ensures
        r == dist2(*a, *b),
{
    let dx: i128 = a.x as i128 - b.x as i128;
    let dy: i128 = a.y as i128 - b.y as i128;
    let dz: i128 = a.z as i128 - b.z as i128;
    proof {
        assert(dx * dx <= 36_000_000_000_000_000_000_000_000_000_000_000_000 && dx * dx >= 0)
            by (nonlinear_arith)
            requires
                -6_000_000_000_000_000_000 <= dx <= 6_000_000_000_000_000_000,
        ;
        assert(dy * dy <= 36_000_000_000_000_000_000_000_000_000_000_000_000 && dy * dy >= 0)
            by (nonlinear_arith)
            requires
                -6_000_000_000_000_000_000 <= dy <= 6_000_000_000_000_000_000,
        ;
        assert(dz * dz <= 36_000_000_000_000_000_000_000_000_000_000_000_000 && dz * dz >= 0)
            by (nonlinear_arith)
            requires
                -6_000_000_000_000_000_000 <= dz <= 6_000_000_000_000_000_000,
        ;
    }
    dx * dx + dy * dy + dz * dz
}

/// Integer square root, rounded down.
pub fn isqrt64(n: u64) -> (r: u64)
    requires
        n <= 0xFFFF_FFFF,
    ensures
        sqrt_fits(n as int, r as int),
{
    let mut r: u64 = 0;
    let mut sq: u64 = 1;
    while sq <= n
        invariant
            n <= 0xFFFF_FFFF,
            r <= 0xFFFF,
            r * r <= n,
            sq == (r + 1) * (r + 1),
            sq <= 0x2_0000_0000,
        decreases 0xFFFFu64 - r,
    {
        proof {
            assert((r + 1) * (r + 1) <= 0xFFFF_FFFF ==> r + 1 <= 0xFFFF) by (nonlinear_arith);
            assert((r + 2) * (r + 2) == (r + 1) * (r + 1) + 2 * (r + 1) + 1) by (nonlinear_arith);
        }
        r = r + 1;
        sq = sq + 2 * r + 1;
    }
    r
}

/// The result of quantising a planar direction `(x, 0, z)` to a vector of
/// magnitude at most `scale`: each coordinate is `|c| * scale / len`
/// (rounded down) with the sign of `c` restored, where `len` is the integer
/// square root of `x^2 + z^2`. A zero input yields the zero vector
/// (the normalise-or-zero policy for degenerate random draws).
pub open spec fn direction_scaled(x: int, z: int, scale: int, r: Vec3) -> bool {
    if x == 0 && z == 0 {
        r == (Vec3 { x: 0, y: 0, z: 0 })
    } else {
        exists|len: int|
            #[trigger] sqrt_fits(x * x + z * z, len) && r.x == isgn(x) * ((iabs(x) * scale) / len)
                && r.y == 0 && r.z == isgn(z) * ((iabs(z) * scale) / len)
    }
}

/// Scale the planar direction `(x, 0, z)` to magnitude at most `scale`,
/// in exact fixed-point arithmetic; a zero direction stays zero.
pub fn scaled_direction(x: i64, z: i64, scale: i64) -> (r: Vec3)
    requires
        -1000 <= x <= 1000,
        -1000 <= z <= 1000,
        0 <= scale <= 100_000_000,
    ensures
        direction_scaled(x as int, z as int, scale as int, r),
        r.y == 0,
        -scale <= r.x <= scale,
        -scale <= r.z <= scale,
{
    if x == 0 && z == 0 {
        return Vec3 { x: 0, y: 0, z: 0 };
    }
    proof {
        assert(x * x >= 0 && x * x <= 1_000_000) by (nonlinear_arith)
            requires
                -1000 <= x <= 1000,
        ;
        assert(z * z >= 0 && z * z <= 1_000_000) by (nonlinear_arith)
            requires
                -1000 <= z <= 1000,
        ;
        assert(x != 0 ==> x * x >= 1) by (nonlinear_arith);
        assert(z != 0 ==> z * z >= 1) by (nonlinear_arith);
    }
    let n: u64 = (x * x + z * z) as u64;
    let len: u64 = isqrt64(n);
    proof {
        assert(sqrt_fits(n as int, len as int));
        if len == 0 {
            assert((len as int + 1) * (len as int + 1) == 1) by (nonlinear_arith)
                requires
                    len == 0u64,
            ;
            assert(false);
        }
    }
    let ux: u64 = if x < 0 {
        (-x) as u64
    } else {
        x as u64
    };
    let uz: u64 = if z < 0 {
        (-z) as u64
    } else {
        z as u64
    };
    proof {
        lemma_component_le_len(x as int, z as int, len as int);
        lemma_scaled_component_bound(ux as int, scale as int, len as int);
        lemma_scaled_component_bound(uz as int, scale as int, len as int);
        assert(ux as int * (scale as int) <= 100_000_000_000) by (nonlinear_arith)
            requires
                0 <= ux <= 1000 && 0 <= scale <= 100_000_000,
        ;
        assert(uz as int * (scale as int) <= 100_000_000_000) by (nonlinear_arith)
            requires
                0 <= uz <= 1000 && 0 <= scale <= 100_000_000,
        ;
    }
    let qx: u64 = ux * (scale as u64) / len;
    let qz: u64 = uz * (scale as u64) / len;
    let rx: i64 = if x < 0 {
        -(qx as i64)
    } else {
        qx as i64
    };
    let rz: i64 = if z < 0 {
        -(qz as i64)
    } else {
        qz as i64
    };
    let r = Vec3 { x: rx, y: 0, z: rz };
    proof {
        vstd::arithmetic::div_mod::lemma_div_basics(len as int);
        assert(qx as int == (iabs(x as int) * scale) / (len as int));
        assert(qz as int == (iabs(z as int) * scale) / (len as int));
        if x == 0 {
            assert(ux == 0);
            assert(ux as int * (scale as int) == 0) by (nonlinear_arith)
                requires
                    ux == 0u64,
            ;
            assert(qx as int == 0int / (len as int));
            assert(qx as int == 0);
        }
        if z == 0 {
            assert(uz == 0);
            assert(uz as int * (scale as int) == 0) by (nonlinear_arith)
                requires
                    uz == 0u64,
            ;
            assert(qz as int == 0int / (len as int));
            assert(qz as int == 0);
        }
        if x < 0 {
            assert(isgn(x as int) == -1);
        } else if x == 0 {
            assert(isgn(x as int) == 0);
        } else {
            assert(isgn(x as int) == 1);
        }
        if z < 0 {
            assert(isgn(z as int) == -1);
        } else if z == 0 {
            assert(isgn(z as int) == 0);
        } else {
            assert(isgn(z as int) == 1);
        }
        assert(rx as int == isgn(x as int) * (qx as int));
        assert(rz as int == isgn(z as int) * (qz as int));
        assert(sqrt_fits((x * x + z * z) as int, len as int));
    }
    r
}

/// A coordinate of a vector never exceeds the vector's length: from
/// `x^2 <= x^2 + z^2 < (len+1)^2` it follows that `|x| <= len`.
proof fn lemma_component_le_len(x: int, z: int, len: int)
    requires
        sqrt_fits(x * x + z * z, len),
    ensures
        iabs(x) <= len,
        iabs(z) <= len,
{
    assert(iabs(x) * iabs(x) == x * x && iabs(z) * iabs(z) == z * z) by (nonlinear_arith);
    assert(x * x >= 0 && z * z >= 0) by (nonlinear_arith);
    lemma_root_le(iabs(x), len, x * x + z * z);
    lemma_root_le(iabs(z), len, x * x + z * z);
}

/// If `c^2 <= n < (len+1)^2` and `c >= 0`, then `c <= len`.
proof fn lemma_root_le(c: int, len: int, n: int)
    requires
        0 <= c,
        0 <= len,
        c * c <= n,
        n < (len + 1) * (len + 1),
    ensures
        c <= len,
{
    assert(c >= len + 1 ==> c * c >= (len + 1) * (len + 1)) by (nonlinear_arith)
        requires
            c >= 0 && len + 1 >= 0,
    ;
}

/// Scaling a coordinate no longer than the length by `scale / len` keeps it
/// within `scale`.
proof fn lemma_scaled_component_bound(c: int, scale: int, len: int)
    requires
        0 <= c <= len,
        0 <= scale,
        1 <= len,
    ensures
        0 <= (c * scale) / len <= scale,
{
    lemma_mul_inequality(c, len, scale);
    lemma_div_is_ordered(c * scale, len * scale, len);
    lemma_div_multiples_vanish(scale, len);
    assert(len * scale == scale * len) by (nonlinear_arith);
    assert(c * scale >= 0) by (nonlinear_arith)
        requires
            c >= 0 && scale >= 0,
    ;
    assert((c * scale) / len >= 0) by {
        lemma_div_is_ordered(0, c * scale, len);
    }
}

} // verus!
