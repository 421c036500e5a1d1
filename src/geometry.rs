use vstd::prelude::*;

verus! {

/// A point in world space, in whole distance units.
#[derive(Clone, Copy, Debug, PartialEq, Eq, Structural)]
pub struct NavVec3 {
    pub x: i32,
    pub y: i32,
    pub z: i32,
}

impl NavVec3 {
    pub fn new(x: i32, y: i32, z: i32) -> (r: NavVec3)
        ensures
            r == (NavVec3 { x, y, z }),
    {
        NavVec3 { x, y, z }
    }
}

/// Square of the Euclidean distance between two points.
pub open spec fn sq_dist(a: NavVec3, b: NavVec3) -> nat {
    let dx = b.x - a.x;
    let dy = b.y - a.y;
    let dz = b.z - a.z;
    (dx * dx + dy * dy + dz * dz) as nat
}

/// `r` is the square root of `s`, rounded down.
pub open spec fn is_floor_sqrt(r: nat, s: nat) -> bool {
    r * r <= s && s < (r + 1) * (r + 1)
}

/// Length of the segment from `a` to `b`, rounded down to whole units.
pub open spec fn seg_len(a: NavVec3, b: NavVec3) -> nat {
    choose|r: nat| is_floor_sqrt(r, sq_dist(a, b))
}

/// One coordinate of the point `p` units along a segment of length `l` from `a` to `b`,
/// rounded toward `a`.
pub open spec fn coord_along(a: int, b: int, p: nat, l: nat) -> int {
    if b >= a {
        a + (b - a) * p / l as int
    } else {
        a - (a - b) * p / l as int
    }
}

/// The point `p` units along the segment from `a` to `b`.
pub open spec fn point_along(a: NavVec3, b: NavVec3, p: nat) -> NavVec3 {
    let l = seg_len(a, b);
    if p == 0 || l == 0 {
        a
    } else if p >= l {
        b
    } else {
        NavVec3 {
            x: coord_along(a.x as int, b.x as int, p, l) as i32,
            y: coord_along(a.y as int, b.y as int, p, l) as i32,
            z: coord_along(a.z as int, b.z as int, p, l) as i32,
        }
    }
}

proof fn lemma_floor_sqrt_unique(r1: nat, r2: nat, s: nat)
    requires
        is_floor_sqrt(r1, s),
        is_floor_sqrt(r2, s),
    ensures
        r1 == r2,
{
    if r1 < r2 {
        assert((r1 + 1) * (r1 + 1) <= r2 * r2) by (nonlinear_arith)
            requires
                r1 + 1 <= r2,
        ;
    } else if r2 < r1 {
        assert((r2 + 1) * (r2 + 1) <= r1 * r1) by (nonlinear_arith)
            requires
                r2 + 1 <= r1,
        ;
    }
}

proof fn lemma_square_abs(u: int, d: int)
    requires
        u == d || u == -d,
    ensures
        u * u == d * d,
{
    assert(u * u == d * d) by (nonlinear_arith)
        requires
            u == d || u == -d,
    ;
}

/// Square root of `s`, rounded down.
fn floor_sqrt(s: u128) -> (r: u64)
    requires
        s < 0x1_0000_0000_0000_0000_0,
    ensures
        is_floor_sqrt(r as nat, s as nat),
{
    let mut lo: u128 = 0;
    let mut hi: u128 = 0x4_0000_0000;
    assert(hi * hi == 0x10_0000_0000_0000_0000);
    while hi - lo > 1
        invariant
            lo < hi <= 0x4_0000_0000,
            lo * lo <= s,
            s < hi * hi,
        decreases hi - lo,
    {
        let mid: u128 = lo + (hi - lo) / 2;
        assert(mid * mid <= 0x10_0000_0000_0000_0000) by (nonlinear_arith)
            requires
                mid <= 0x4_0000_0000,
        ;
        if mid * mid <= s {
            lo = mid;
        } else {
            hi = mid;
        }
    }
    assert(hi == lo + 1);
    lo as u64
}

/// Length of the segment from `a` to `b`, rounded down to whole units.
pub fn segment_length(a: NavVec3, b: NavVec3) -> (r: u64)
    ensures
        r as nat == seg_len(a, b),
        r < 0x4_0000_0000,
{
    let dx: i64 = b.x as i64 - a.x as i64;
    let dy: i64 = b.y as i64 - a.y as i64;
    let dz: i64 = b.z as i64 - a.z as i64;
    let ux: u128 = if dx >= 0 { dx as u128 } else { (-dx) as u128 };
    let uy: u128 = if dy >= 0 { dy as u128 } else { (-dy) as u128 };
    let uz: u128 = if dz >= 0 { dz as u128 } else { (-dz) as u128 };
    assert(ux * ux <= 0x1_0000_0000_0000_0000) by (nonlinear_arith)
        requires
            ux <= 0x1_0000_0000,
    ;
    assert(uy * uy <= 0x1_0000_0000_0000_0000) by (nonlinear_arith)
        requires
            uy <= 0x1_0000_0000,
    ;
    assert(uz * uz <= 0x1_0000_0000_0000_0000) by (nonlinear_arith)
        requires
            uz <= 0x1_0000_0000,
    ;
    proof {
        lemma_square_abs(ux as int, dx as int);
        lemma_square_abs(uy as int, dy as int);
        lemma_square_abs(uz as int, dz as int);
    }
    let s: u128 = ux * ux + uy * uy + uz * uz;
    assert(s as int == dx * dx + dy * dy + dz * dz) by (nonlinear_arith)
        requires
            ux * ux == dx * dx,
            uy * uy == dy * dy,
            uz * uz == dz * dz,
            s == ux * ux + uy * uy + uz * uz,
    ;
    let r = floor_sqrt(s);
    proof {
        let c = seg_len(a, b);
        assert(is_floor_sqrt(r as nat, sq_dist(a, b)));
        lemma_floor_sqrt_unique(c, r as nat, sq_dist(a, b));
        if r >= 0x4_0000_0000 {
            assert(r * r >= 0x10_0000_0000_0000_0000) by (nonlinear_arith)
                requires
                    r >= 0x4_0000_0000,
            ;
        }
    }
    r
}

proof fn lemma_scaled_within(diff: int, p: int, l: int)
    requires
        0 <= diff,
        0 <= p <= l,
        0 < l,
    ensures
        0 <= diff * p / l <= diff,
{
    assert(0 <= diff * p <= diff * l) by (nonlinear_arith)
        requires
            0 <= diff,
            0 <= p <= l,
    ;
    vstd::arithmetic::div_mod::lemma_div_is_ordered(diff * p, diff * l, l);
    vstd::arithmetic::div_mod::lemma_div_is_ordered(0, diff * p, l);
    vstd::arithmetic::div_mod::lemma_div_multiples_vanish(diff, l);
    assert(diff * l == l * diff) by (nonlinear_arith);
}

/// One coordinate of the point `p` units along a segment of length `l` from `a` to `b`.
fn coord_toward(a: i32, b: i32, p: u64, l: u64) -> (r: i32)
    requires
        0 < l,
        p <= l,
    ensures
        r as int == coord_along(a as int, b as int, p as nat, l as nat),
{
    if b >= a {
        let diff: u128 = (b as i64 - a as i64) as u128;
        assert(diff * (p as u128) <= 0x1_0000_0000 * 0x1_0000_0000_0000_0000) by (nonlinear_arith)
            requires
                diff <= 0x1_0000_0000,
                p < 0x1_0000_0000_0000_0000,
        ;
        let q: u128 = diff * (p as u128) / (l as u128);
        proof {
            lemma_scaled_within(diff as int, p as int, l as int);
        }
        (a as i64 + q as i64) as i32
    } else {
        let diff: u128 = (a as i64 - b as i64) as u128;
        assert(diff * (p as u128) <= 0x1_0000_0000 * 0x1_0000_0000_0000_0000) by (nonlinear_arith)
            requires
                diff <= 0x1_0000_0000,
                p < 0x1_0000_0000_0000_0000,
        ;
        let q: u128 = diff * (p as u128) / (l as u128);
        proof {
            lemma_scaled_within(diff as int, p as int, l as int);
        }
        (a as i64 - q as i64) as i32
    }
}

/// The point `p` units along the segment from `a` to `b`: `a` itself at zero, `b` from the
/// segment's length on.
pub fn position_along(a: NavVec3, b: NavVec3, p: u64) -> (r: NavVec3)
    ensures
        r == point_along(a, b, p as nat),
{
    let l = segment_length(a, b);
    if p == 0 || l == 0 {
        a
    } else if p >= l {
        b
    } else {
        NavVec3 {
            x: coord_toward(a.x, b.x, p, l),
            y: coord_toward(a.y, b.y, p, l),
            z: coord_toward(a.z, b.z, p, l),
        }
    }
}

/// A segment from a point to itself has length zero.
pub proof fn lemma_seg_len_self(a: NavVec3)
    ensures
        seg_len(a, a) == 0,
{
    assert(sq_dist(a, a) == 0);
    assert(is_floor_sqrt(0, 0)) by (nonlinear_arith);
    lemma_floor_sqrt_unique(seg_len(a, a), 0, 0);
}

/// The coordinate halfway from `a` to `b`, rounded toward `a`.
pub open spec fn half_coord(a: int, b: int) -> int {
    if b >= a {
        a + (b - a) / 2
    } else {
        a - (a - b) / 2
    }
}

/// Halfway along a segment of even length, each coordinate moves by half its difference,
/// rounded toward the start.
pub proof fn lemma_coord_halfway(a: int, b: int, l: nat)
    requires
        l > 0,
        l % 2 == 0,
    ensures
        coord_along(a, b, l / 2, l) == half_coord(a, b),
{
    let h = l / 2;
    assert(l == h * 2);
    let x = if b >= a {
        b - a
    } else {
        a - b
    };
    vstd::arithmetic::div_mod::lemma_div_denominator(x * h, h as int, 2);
    vstd::arithmetic::div_mod::lemma_div_multiples_vanish(x, h as int);
    assert(x * h == h * x) by (nonlinear_arith);
}

} // verus!
