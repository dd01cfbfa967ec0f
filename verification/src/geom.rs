//! Fixed-point plane geometry.
//!
//! Positions and vectors are integers in milli-units (1/1000 of a world
//! unit).  A rotation is a cosine/sine pair, each scaled by [`MILLI`];
//! rotating a vector is then pure integer arithmetic.  Division by the
//! scale truncates toward zero, exactly as the spec functions state.

use vstd::prelude::*;
use vstd::arithmetic::div_mod::{lemma_div_by_multiple, lemma_div_is_ordered};

verus! {

/// Fixed-point scale: milli-units per world unit, and the scale of the
/// cosine/sine entries of a [`Rot2`].
pub const MILLI: i64 = 1000;

/// Largest magnitude allowed for a vector handed to [`rotate`].
/// Covers every grid offset (at most 127 cells of 32 units) and every
/// thrust base vector (at most 1000 units).
pub const VEC_LIMIT: i64 = 16_000_000;

/// Largest magnitude allowed for a world position coordinate
/// (body translations, hit points, ray origins), in milli-units.
pub const POS_LIMIT: i64 = 500_000_000;

/// Largest magnitude accepted by [`dist2`] for any coordinate: a world
/// position plus a rotated component offset always stays below this.
pub const PT_LIMIT: i64 = 600_000_000;

/// A point or vector of the plane, in milli-units.
#[derive(Clone, Copy, Debug, PartialEq, Eq, Structural)]
pub struct Vec2 {
    pub x: i64,
    pub y: i64,
}

/// A rotation of the plane: cosine and sine, each scaled by [`MILLI`].
#[derive(Clone, Copy, Debug, PartialEq, Eq, Structural)]
pub struct Rot2 {
    pub c: i64,
    pub s: i64,
}

/// Whether both coordinates are small enough to be rotated.
pub open spec fn vec_in_range(v: Vec2) -> bool {
    -VEC_LIMIT <= v.x <= VEC_LIMIT && -VEC_LIMIT <= v.y <= VEC_LIMIT
}

/// Whether both coordinates lie within the world position bound.
pub open spec fn pos_in_range(v: Vec2) -> bool {
    -POS_LIMIT <= v.x <= POS_LIMIT && -POS_LIMIT <= v.y <= POS_LIMIT
}

/// Whether both coordinates may enter a squared-distance computation.
pub open spec fn pt_in_range(v: Vec2) -> bool {
    -PT_LIMIT <= v.x <= PT_LIMIT && -PT_LIMIT <= v.y <= PT_LIMIT
}

/// A well-formed rotation pair: entries no larger than the scale.
pub open spec fn rot_in_range(r: Rot2) -> bool {
    -MILLI <= r.c <= MILLI && -MILLI <= r.s <= MILLI
}

/// Division by the fixed-point scale, truncating toward zero.
pub open spec fn tdiv_milli(a: int) -> int {
    if a >= 0 {
        a / 1000
    } else {
        -((-a) / 1000)
    }
}

/// The x coordinate of `v` rotated by `r`, in milli-units.
pub open spec fn rot_x(v: Vec2, r: Rot2) -> int {
    tdiv_milli(v.x * r.c - v.y * r.s)
}

/// The y coordinate of `v` rotated by `r`, in milli-units.
pub open spec fn rot_y(v: Vec2, r: Rot2) -> int {
    tdiv_milli(v.x * r.s + v.y * r.c)
}

/// `v` rotated by `r`.  Defined whenever the coordinates are in range,
/// which keeps the casts value-preserving.
pub open spec fn spec_rotate(v: Vec2, r: Rot2) -> Vec2 {
    Vec2 { x: rot_x(v, r) as i64, y: rot_y(v, r) as i64 }
}

/// The squared Euclidean distance between `a` and `b`.
pub open spec fn spec_dist2(a: Vec2, b: Vec2) -> int {
    (a.x - b.x) * (a.x - b.x) + (a.y - b.y) * (a.y - b.y)
}

/// A product of values bounded by `bx` and `by` is bounded by `bx * by`.
pub proof fn lemma_mul_bound(x: int, y: int, bx: int, by: int)
    by (nonlinear_arith)
    requires
        -bx <= x <= bx,
        -by <= y <= by,
        0 <= bx,
        0 <= by,
    ensures
        -(bx * by) <= x * y <= bx * by,
{
}

/// Truncating division by the scale maps `[-1000 b, 1000 b]` into `[-b, b]`.
pub proof fn lemma_tdiv_milli_bound(a: int, b: int)
    requires
        0 <= b,
        -(b * 1000) <= a <= b * 1000,
    ensures
        -b <= tdiv_milli(a) <= b,
{
    if a >= 0 {
        lemma_div_is_ordered(a, b * 1000, 1000);
        lemma_div_by_multiple(b, 1000);
        lemma_div_is_ordered(0, a, 1000);
    } else {
        lemma_div_is_ordered(-a, b * 1000, 1000);
        lemma_div_by_multiple(b, 1000);
        lemma_div_is_ordered(0, -a, 1000);
    }
}

/// Division by the fixed-point scale, truncating toward zero.
pub fn div_milli(a: i64) -> (r: i64)
    requires
        i64::MIN < a,
    ensures
        r == tdiv_milli(a as int),
{
    if a >= 0 {
        proof {
            lemma_div_is_ordered(0, a as int, 1000);
            lemma_div_is_ordered(a as int, i64::MAX as int, 1000);
        }
        ((a as u64) / 1000) as i64
    } else {
        let neg: i64 = -a;
        proof {
            lemma_div_is_ordered(0, neg as int, 1000);
            lemma_div_is_ordered(neg as int, i64::MAX as int, 1000);
        }
        -(((neg as u64) / 1000) as i64)
    }
}

/// Rotate `v` by `r` in fixed point.
pub fn rotate(v: &Vec2, r: &Rot2) -> (w: Vec2)
    requires
        vec_in_range(*v),
        rot_in_range(*r),
    ensures
        w == spec_rotate(*v, *r),
        -2 * VEC_LIMIT <= w.x <= 2 * VEC_LIMIT,
        -2 * VEC_LIMIT <= w.y <= 2 * VEC_LIMIT,
{
    proof {
        lemma_mul_bound(v.x as int, r.c as int, VEC_LIMIT as int, MILLI as int);
        lemma_mul_bound(v.y as int, r.s as int, VEC_LIMIT as int, MILLI as int);
        lemma_mul_bound(v.x as int, r.s as int, VEC_LIMIT as int, MILLI as int);
        lemma_mul_bound(v.y as int, r.c as int, VEC_LIMIT as int, MILLI as int);
        lemma_tdiv_milli_bound(v.x * r.c - v.y * r.s, 2 * VEC_LIMIT as int);
        lemma_tdiv_milli_bound(v.x * r.s + v.y * r.c, 2 * VEC_LIMIT as int);
    }
    let xs: i64 = v.x * r.c - v.y * r.s;
    let ys: i64 = v.x * r.s + v.y * r.c;
    Vec2 { x: div_milli(xs), y: div_milli(ys) }
}

/// The squared distance between `a` and `b`, exact.
pub fn dist2(a: &Vec2, b: &Vec2) -> (d: i64)
    requires
        pt_in_range(*a),
        pt_in_range(*b),
    ensures
        d == spec_dist2(*a, *b),
        d >= 0,
{
    let dx: i64 = a.x - b.x;
    let dy: i64 = a.y - b.y;
    proof {
        lemma_mul_bound(dx as int, dx as int, 2 * PT_LIMIT as int, 2 * PT_LIMIT as int);
        lemma_mul_bound(dy as int, dy as int, 2 * PT_LIMIT as int, 2 * PT_LIMIT as int);
    }
    assert(dx * dx >= 0) by (nonlinear_arith);
    assert(dy * dy >= 0) by (nonlinear_arith);
    dx * dx + dy * dy
}

} // verus!
