//! One face of the cube-sphere: a subdivided quad grid with positions,
//! normals and a triangle index buffer.
//!
//! A face is described by its outward normal, one of the six axis-aligned
//! directions.  Two tangent axes span the face plane: `axisA` is the normal
//! with its components rotated, and `axisB` is the cross product of the
//! normal with `axisA`.  For a `resolution x resolution` grid the point of
//! cell `(x, y)` is `normal + (percent.x - 0.5) * 2 * axisA
//! + (percent.y - 0.5) * 2 * axisB` with `percent = (x, y) / (resolution - 1)`,
//! a point on the surface of the cube of half-extent one.  With `spherify`
//! the point is normalized onto the unit sphere and doubles as the vertex
//! normal; without it the position stays on the cube and the vertex normal
//! is the face normal.

use crate::fx::{
    FX_ONE, div_trunc, fx_abs, fx_div, fx_div_spec, fx_mul, fx_mul_spec,
};
use vstd::arithmetic::div_mod::{
    lemma_div_is_ordered, lemma_div_multiples_vanish, lemma_div_nonincreasing,
    lemma_div_pos_is_pos, lemma_fundamental_div_mod_converse_div,
    lemma_fundamental_div_mod_converse_mod, lemma_mod_bound,
};
use vstd::prelude::*;

verus! {

/// A 3-component fixed-point vector.
#[derive(Clone, Copy, PartialEq, Eq, Structural, Debug)]
pub struct FxVec3 {
    pub x: i64,
    pub y: i64,
    pub z: i64,
}

/// The mathematical value of a fixed-point vector: a vector of integers.
pub struct Vec3i {
    pub x: int,
    pub y: int,
    pub z: int,
}

impl FxVec3 {
    /// The mathematical value of this vector.
    pub open spec fn view(&self) -> Vec3i {
        Vec3i { x: self.x as int, y: self.y as int, z: self.z as int }
    }
}

/// One of the six axis-aligned cube faces, named by its outward normal.
#[derive(Clone, Copy, PartialEq, Eq, Structural, Debug)]
pub enum Face {
    YPos,
    YNeg,
    XNeg,
    XPos,
    ZPos,
    ZNeg,
}

/// The outward unit normal of a face.
pub open spec fn face_normal(f: Face) -> FxVec3 {
    match f {
        Face::YPos => FxVec3 { x: 0, y: FX_ONE, z: 0 },
        Face::YNeg => FxVec3 { x: 0, y: (-FX_ONE) as i64, z: 0 },
        Face::XNeg => FxVec3 { x: (-FX_ONE) as i64, y: 0, z: 0 },
        Face::XPos => FxVec3 { x: FX_ONE, y: 0, z: 0 },
        Face::ZPos => FxVec3 { x: 0, y: 0, z: FX_ONE },
        Face::ZNeg => FxVec3 { x: 0, y: 0, z: (-FX_ONE) as i64 },
    }
}

/// The first tangent axis of a face: the normal with its components rotated,
/// `(n.y, n.z, n.x)`.
pub open spec fn face_axis_a(f: Face) -> FxVec3 {
    (FxVec3 {
        x: face_normal(f).y,
        y: face_normal(f).z,
        z: face_normal(f).x,
    })
}

/// The cross product of two fixed-point vectors.
pub open spec fn fx_cross(u: FxVec3, v: FxVec3) -> Vec3i {
    (Vec3i {
        x: fx_mul_spec(u.y as int, v.z as int) - fx_mul_spec(u.z as int, v.y as int),
        y: fx_mul_spec(u.z as int, v.x as int) - fx_mul_spec(u.x as int, v.z as int),
        z: fx_mul_spec(u.x as int, v.y as int) - fx_mul_spec(u.y as int, v.x as int),
    })
}

/// The second tangent axis of a face: the cross product of the normal with
/// the first axis (exact for these axis-aligned vectors, see
/// [`lemma_face_axes`]).
pub open spec fn face_axis_b(f: Face) -> FxVec3 {
    match f {
        Face::YPos => FxVec3 { x: 0, y: 0, z: (-FX_ONE) as i64 },
        Face::YNeg => FxVec3 { x: 0, y: 0, z: (-FX_ONE) as i64 },
        Face::XNeg => FxVec3 { x: 0, y: (-FX_ONE) as i64, z: 0 },
        Face::XPos => FxVec3 { x: 0, y: (-FX_ONE) as i64, z: 0 },
        Face::ZPos => FxVec3 { x: (-FX_ONE) as i64, y: 0, z: 0 },
        Face::ZNeg => FxVec3 { x: (-FX_ONE) as i64, y: 0, z: 0 },
    }
}

/// The tabulated second axis really is the cross product of the normal with
/// the first axis.
pub proof fn lemma_face_axes(f: Face)
    ensures
        face_axis_b(f)@ == fx_cross(face_normal(f), face_axis_a(f)),
{
    let s = FX_ONE as int;
    lemma_fx_mul_by_axis(s, s);
    lemma_fx_mul_by_axis(s, -s);
    lemma_fx_mul_by_axis(s, 0);
    lemma_fx_mul_by_axis(-s, s);
    lemma_fx_mul_by_axis(-s, -s);
    lemma_fx_mul_by_axis(-s, 0);
    lemma_fx_mul_by_axis(0, s);
    lemma_fx_mul_by_axis(0, -s);
    lemma_fx_mul_by_axis(0, 0);
}

/// The grid coordinate `k / (r - 1)` as a fixed-point fraction in `[0, 1]`.
pub open spec fn percent_of(k: int, r: int) -> int
    recommends
        2 <= r,
        0 <= k < r,
{
    (k * FX_ONE) / (r - 1)
}

/// The tangent coordinate `(percent - 0.5) * 2` in `[-1, 1]`.
pub open spec fn tangent_of(k: int, r: int) -> int
    recommends
        2 <= r,
        0 <= k < r,
{
    2 * percent_of(k, r) - FX_ONE
}

/// The tangent coordinate stays within one unit of the face center and is
/// exact at the two edges of the face.
pub proof fn lemma_tangent_range(k: int, r: int)
    requires
        2 <= r,
        0 <= k < r,
    ensures
        -FX_ONE <= tangent_of(k, r) <= FX_ONE,
        k == 0 ==> tangent_of(k, r) == -FX_ONE,
        k == r - 1 ==> tangent_of(k, r) == FX_ONE,
{
    let s = FX_ONE as int;
    assert(0 <= k * s <= (r - 1) * s) by (nonlinear_arith)
        requires
            0 <= k <= r - 1,
            s > 0,
    ;
    lemma_div_pos_is_pos(k * s, r - 1);
    lemma_div_is_ordered(k * s, (r - 1) * s, r - 1);
    lemma_div_multiples_vanish(s, r - 1);
    assert((r - 1) * s == s * (r - 1)) by (nonlinear_arith);
    if k == 0 {
        assert(0int * s == 0) by (nonlinear_arith);
        assert(percent_of(0, r) == 0) by {
            lemma_div_pos_is_pos(0, r - 1);
            lemma_div_nonincreasing(0, r - 1);
        }
    }
}

/// The point of grid cell `(x, y)` on the surface of the cube.
pub open spec fn cube_point(f: Face, r: int, x: int, y: int) -> Vec3i {
    let n = face_normal(f);
    let a = face_axis_a(f);
    let b = face_axis_b(f);
    let ta = tangent_of(x, r);
    let tb = tangent_of(y, r);
    (Vec3i {
        x: n.x + fx_mul_spec(ta, a.x as int) + fx_mul_spec(tb, b.x as int),
        y: n.y + fx_mul_spec(ta, a.y as int) + fx_mul_spec(tb, b.y as int),
        z: n.z + fx_mul_spec(ta, a.z as int) + fx_mul_spec(tb, b.z as int),
    })
}

/// Multiplying by a component of an axis vector (`FX_ONE`, `-FX_ONE` or `0`)
/// is exact.
pub proof fn lemma_fx_mul_by_axis(t: int, u: int)
    requires
        u == FX_ONE as int || u == -FX_ONE as int || u == 0,
    ensures
        u == FX_ONE as int ==> fx_mul_spec(t, u) == t,
        u == -FX_ONE as int ==> fx_mul_spec(t, u) == -t,
        u == 0 ==> fx_mul_spec(t, u) == 0,
{
    let s = FX_ONE as int;
    lemma_div_multiples_vanish(t, s);
    lemma_div_multiples_vanish(-t, s);
    assert(t * s == s * t) by (nonlinear_arith);
    assert(t * (-s) == -(s * t)) by (nonlinear_arith);
    assert(t * 0 == 0) by (nonlinear_arith);
    lemma_div_pos_is_pos(0, s);
    lemma_div_nonincreasing(0, s);
}

/// The square of a bounded integer is nonnegative and bounded.
pub proof fn lemma_square_bound(a: int, m: int)
    requires
        fx_abs(a) <= m,
    ensures
        0 <= a * a <= m * m,
{
    assert(0 <= a * a <= m * m) by (nonlinear_arith)
        requires
            fx_abs(a) <= m,
    ;
}

/// The squared Euclidean length of a vector of integers.
pub open spec fn norm_sq(p: Vec3i) -> int {
    p.x * p.x + p.y * p.y + p.z * p.z
}

/// `r` is the integer square root (rounded down) of `n`.
pub open spec fn is_sqrt_floor(n: int, r: int) -> bool {
    0 <= r && r * r <= n && n < (r + 1) * (r + 1)
}

/// The integer square root of `n`, rounded down.
pub open spec fn sqrt_floor(n: int) -> int
    recommends
        n >= 0,
{
    choose|r: int| is_sqrt_floor(n, r)
}

/// Every nonnegative integer has an integer square root.
pub proof fn lemma_sqrt_floor_exists(n: int)
    requires
        n >= 0,
    ensures
        is_sqrt_floor(n, sqrt_floor(n)),
    decreases n,
{
    if n == 0 {
        assert(is_sqrt_floor(0, 0)) by (nonlinear_arith);
    } else {
        lemma_sqrt_floor_exists(n - 1);
        let r0 = sqrt_floor(n - 1);
        if (r0 + 1) * (r0 + 1) <= n {
            assert(is_sqrt_floor(n, r0 + 1)) by (nonlinear_arith)
                requires
                    0 <= r0,
                    (r0 + 1) * (r0 + 1) <= n,
                    n - 1 < (r0 + 1) * (r0 + 1),
            ;
        } else {
            assert(is_sqrt_floor(n, r0)) by (nonlinear_arith)
                requires
                    0 <= r0,
                    r0 * r0 <= n - 1,
                    n < (r0 + 1) * (r0 + 1),
            ;
        }
    }
    assert(exists|r: int| is_sqrt_floor(n, r));
}

/// The integer square root is unique.
pub proof fn lemma_sqrt_floor_unique(n: int, r1: int, r2: int)
    requires
        is_sqrt_floor(n, r1),
        is_sqrt_floor(n, r2),
    ensures
        r1 == r2,
{
    assert(r1 == r2) by (nonlinear_arith)
        requires
            0 <= r1,
            0 <= r2,
            r1 * r1 <= n,
            n < (r1 + 1) * (r1 + 1),
            r2 * r2 <= n,
            n < (r2 + 1) * (r2 + 1),
    ;
}

/// The integer square root of `n`, rounded down, by binary search.
pub fn isqrt(n: u64) -> (r: u64)
    ensures
        is_sqrt_floor(n as int, r as int),
        r == sqrt_floor(n as int),
        r < 4294967296,
{
    let mut lo: u64 = 0;
    let mut hi: u64 = 4294967296;
    proof {
        assert((4294967296int) * 4294967296 > u64::MAX) by (nonlinear_arith);
    }
    while lo + 1 < hi
        invariant
            0 <= lo < hi <= 4294967296,
            (lo as int) * (lo as int) <= n as int,
            (n as int) < (hi as int) * (hi as int),
        decreases hi - lo,
    {
        let mid: u64 = lo + (hi - lo) / 2;
        assert(lo < mid < hi);
        proof {
            assert(mid as int * mid as int <= 4294967295int * 4294967295int)
                by (nonlinear_arith)
                requires
                    0 <= mid as int && mid as int <= 4294967295int,
            ;
            assert(4294967295int * 4294967295int < u64::MAX as int) by (nonlinear_arith);
        }
        if mid * mid <= n {
            lo = mid;
        } else {
            hi = mid;
        }
    }
    proof {
        assert(is_sqrt_floor(n as int, lo as int));
        lemma_sqrt_floor_unique(n as int, lo as int, sqrt_floor(n as int));
    }
    lo
}

/// The vector rescaled to unit length: each component becomes
/// `component / length`, where the length is the integer square root of the
/// squared norm.
pub open spec fn normalize_spec(p: Vec3i) -> Vec3i
    recommends
        norm_sq(p) > 0,
{
    let len = sqrt_floor(norm_sq(p));
    (Vec3i {
        x: fx_div_spec(p.x, len),
        y: fx_div_spec(p.y, len),
        z: fx_div_spec(p.z, len),
    })
}

/// Normalization lands within a whisker of the unit sphere: for a vector
/// with bounded components and length at least one, the squared norm of the
/// normalized vector differs from one by at most a few fixed-point units
/// (a relative error below a hundred-thousandth).
/// `(a + b + c) * d` distributes.
proof fn lemma_distribute3(a: int, b: int, c: int, d: int)
    ensures
        (a + b + c) * d == a * d + b * d + c * d,
{
    assert((a + b + c) * d == a * d + b * d + c * d) by (nonlinear_arith);
}

/// Squaring `q * l == p * s - e` component-wise.
proof fn lemma_square_diff(p: int, s: int, e: int, q: int, l: int)
    requires
        q * l == p * s - e,
    ensures
        (q * q) * (l * l) == (p * p) * (s * s) - 2 * (s * (p * e)) + e * e,
{
    assert((q * l) * (q * l) == (q * q) * (l * l)) by (nonlinear_arith);
    assert((p * s - e) * (p * s - e) == (p * p) * (s * s) - 2 * (s * (p * e)) + e * e)
        by (nonlinear_arith);
}

/// A product of bounded factors is bounded on both sides.
proof fn lemma_prod_bounds(a: int, b: int, x: int, y: int)
    requires
        -x <= a <= x,
        -y <= b <= y,
        0 <= x,
        0 <= y,
    ensures
        -(x * y) <= a * b <= x * y,
{
    assert(-(x * y) <= a * b <= x * y) by (nonlinear_arith)
        requires
            -x <= a <= x,
            -y <= b <= y,
            0 <= x,
            0 <= y,
    ;
}

/// Multiplying an inequality by a nonnegative factor.
proof fn lemma_scale_ineq(c: int, a: int, b: int)
    requires
        0 <= c,
        a <= b,
    ensures
        c * a <= c * b,
{
    assert(c * a <= c * b) by (nonlinear_arith)
        requires
            0 <= c,
            a <= b,
    ;
}

/// Cancelling a positive common factor from an inequality.
proof fn lemma_cancel_pos(a: int, b: int, c: int)
    requires
        a * c >= b * c,
        c > 0,
    ensures
        a >= b,
{
    assert(a >= b) by (nonlinear_arith)
        requires
            a * c >= b * c,
            c > 0,
    ;
}

/// Normalization lands within a whisker of the unit sphere: for a vector
/// with bounded components and length at least one, the squared norm of the
/// normalized vector differs from one by at most a few fixed-point units
/// (a relative error below a hundred-thousandth).
pub proof fn lemma_normalize_near_unit(p: Vec3i)
    requires
        fx_abs(p.x) <= FX_ONE,
        fx_abs(p.y) <= FX_ONE,
        fx_abs(p.z) <= FX_ONE,
        norm_sq(p) >= FX_ONE as int * FX_ONE,
    ensures
        FX_ONE as int * FX_ONE - 6 * FX_ONE - 3 <= norm_sq(normalize_spec(p)),
        norm_sq(normalize_spec(p)) <= FX_ONE as int * FX_ONE + 8 * FX_ONE + 4,
{
    let s = FX_ONE as int;
    let n = norm_sq(p);
    lemma_square_bound(p.x, s);
    lemma_square_bound(p.y, s);
    lemma_square_bound(p.z, s);
    lemma_sqrt_floor_exists(n);
    let ll = sqrt_floor(n);
    assert(s <= ll) by (nonlinear_arith)
        requires
            0 <= ll,
            s * s <= n,
            n < (ll + 1) * (ll + 1),
            s > 0,
    ;
    let qx = div_trunc(p.x * s, ll);
    let qy = div_trunc(p.y * s, ll);
    let qz = div_trunc(p.z * s, ll);
    let ex = p.x * s - qx * ll;
    let ey = p.y * s - qy * ll;
    let ez = p.z * s - qz * ll;
    crate::fx::lemma_div_trunc_rem(p.x * s, ll);
    crate::fx::lemma_div_trunc_rem(p.y * s, ll);
    crate::fx::lemma_div_trunc_rem(p.z * s, ll);
    let q = normalize_spec(p);
    assert(q.x == qx && q.y == qy && q.z == qz);
    // Square the three division identities.
    lemma_square_diff(p.x, s, ex, qx, ll);
    lemma_square_diff(p.y, s, ey, qy, ll);
    lemma_square_diff(p.z, s, ez, qz, ll);
    // Assemble the sums on both sides.
    lemma_distribute3(qx * qx, qy * qy, qz * qz, ll * ll);
    lemma_distribute3(p.x * p.x, p.y * p.y, p.z * p.z, s * s);
    assert(n * (s * s) == (s * s) * n) by (nonlinear_arith);
    let cross = s * (p.x * ex) + s * (p.y * ey) + s * (p.z * ez);
    let esq = ex * ex + ey * ey + ez * ez;
    assert(norm_sq(q) * (ll * ll) == (s * s) * n - 2 * cross + esq);
    // Bound the cross terms and the error squares.
    lemma_prod_bounds(p.x, ex, s, ll);
    lemma_prod_bounds(p.y, ey, s, ll);
    lemma_prod_bounds(p.z, ez, s, ll);
    lemma_scale_ineq(s, p.x * ex, s * ll);
    lemma_scale_ineq(s, p.y * ey, s * ll);
    lemma_scale_ineq(s, p.z * ez, s * ll);
    lemma_scale_ineq(s, -(s * ll), p.x * ex);
    lemma_scale_ineq(s, -(s * ll), p.y * ey);
    lemma_scale_ineq(s, -(s * ll), p.z * ez);
    assert(s * (-(s * ll)) == -(s * (s * ll))) by (nonlinear_arith);
    assert(-(3 * (s * (s * ll))) <= cross <= 3 * (s * (s * ll)));
    lemma_square_bound(ex, ll);
    lemma_square_bound(ey, ll);
    lemma_square_bound(ez, ll);
    assert(0 <= esq <= 3 * (ll * ll));
    // Bracket (s * s) * n between multiples of ll * ll.
    lemma_scale_ineq(s * s, ll * ll, n);
    assert(n <= ll * ll + 2 * ll) by (nonlinear_arith)
        requires
            n < (ll + 1) * (ll + 1),
    ;
    lemma_scale_ineq(s * s, n, ll * ll + 2 * ll);
    assert((s * s) * (ll * ll + 2 * ll) == (s * s) * (ll * ll) + 2 * ((s * s) * ll))
        by (nonlinear_arith);
    // Ring facts that let everything line up against (ll * ll).
    assert(s * (s * ll) == (s * s) * ll) by (nonlinear_arith);
    assert((s * s) * ll <= s * (ll * ll)) by (nonlinear_arith)
        requires
            0 < s <= ll,
    ;
    assert(s * s <= ll * ll) by (nonlinear_arith)
        requires
            0 < s <= ll,
    ;
    // Lower bound.
    lemma_distribute3(s * s, -(6 * s), -3, ll * ll);
    assert((-(6 * s)) * (ll * ll) == -(6 * (s * (ll * ll)))) by (nonlinear_arith);
    assert((-3) * (ll * ll) == -(3 * (ll * ll))) by (nonlinear_arith);
    assert(norm_sq(q) * (ll * ll) >= (s * s - 6 * s - 3) * (ll * ll));
    // Upper bound.
    lemma_distribute3(s * s, 8 * s, 4, ll * ll);
    assert((8 * s) * (ll * ll) == 8 * (s * (ll * ll))) by (nonlinear_arith);
    assert((4int) * (ll * ll) == 4 * (ll * ll)) by (nonlinear_arith);
    assert(norm_sq(q) * (ll * ll) <= (s * s + 8 * s + 4) * (ll * ll));
    // Cancel the positive factor ll * ll.
    assert(ll * ll > 0) by (nonlinear_arith)
        requires
            ll > 0,
    ;
    lemma_cancel_pos(norm_sq(q), s * s - 6 * s - 3, ll * ll);
    lemma_cancel_pos(s * s + 8 * s + 4, norm_sq(q), ll * ll);
}

/// Rescale a nonzero vector to unit length.
pub fn normalize(p: FxVec3) -> (q: FxVec3)
    requires
        fx_abs(p.x as int) <= 4 * FX_ONE,
        fx_abs(p.y as int) <= 4 * FX_ONE,
        fx_abs(p.z as int) <= 4 * FX_ONE,
        norm_sq(p@) > 0,
    ensures
        q@ == normalize_spec(p@),
{
    proof {
        lemma_square_bound(p.x as int, 4 * FX_ONE as int);
        lemma_square_bound(p.y as int, 4 * FX_ONE as int);
        lemma_square_bound(p.z as int, 4 * FX_ONE as int);
        assert((4 * FX_ONE as int) * (4 * FX_ONE as int) == 17592186044416int)
            by (nonlinear_arith);
    }
    let xx: i64 = p.x * p.x;
    let yy: i64 = p.y * p.y;
    let zz: i64 = p.z * p.z;
    let nsq: u64 = (xx + yy + zz) as u64;
    let len_u: u64 = isqrt(nsq);
    proof {
        assert(len_u >= 1) by {
            if len_u == 0 {
                assert((0int + 1) * (0int + 1) == 1);
            }
        }
    }
    let len: i64 = len_u as i64;
    FxVec3 { x: fx_div(p.x, len), y: fx_div(p.y, len), z: fx_div(p.z, len) }
}

/// A component of an axis-aligned unit vector: one unit, minus one unit, or
/// zero.
pub open spec fn is_unit_comp(c: int) -> bool {
    c == FX_ONE || c == -(FX_ONE as int) || c == 0
}

/// Every component of a face's normal and tangent axes is `1`, `-1` or `0`.
pub proof fn lemma_face_vector_components(f: Face)
    ensures
        is_unit_comp(face_normal(f).x as int),
        is_unit_comp(face_normal(f).y as int),
        is_unit_comp(face_normal(f).z as int),
        is_unit_comp(face_axis_a(f).x as int),
        is_unit_comp(face_axis_a(f).y as int),
        is_unit_comp(face_axis_a(f).z as int),
        is_unit_comp(face_axis_b(f).x as int),
        is_unit_comp(face_axis_b(f).y as int),
        is_unit_comp(face_axis_b(f).z as int),
{
}

/// The shape of a cube point: along the face's own axis it sits exactly at
/// the face normal, along the two tangent axes it carries the (bounded)
/// tangent coordinates; so it lies on the surface of the cube of half-extent
/// one and is never the zero vector.
pub proof fn lemma_cube_point_props(f: Face, r: int, x: int, y: int)
    requires
        2 <= r,
        0 <= x < r,
        0 <= y < r,
    ensures
        ({
            let p = cube_point(f, r, x, y);
            &&& fx_abs(p.x) <= FX_ONE
            &&& fx_abs(p.y) <= FX_ONE
            &&& fx_abs(p.z) <= FX_ONE
            &&& (face_normal(f).x != 0 ==> p.x == face_normal(f).x as int)
            &&& (face_normal(f).y != 0 ==> p.y == face_normal(f).y as int)
            &&& (face_normal(f).z != 0 ==> p.z == face_normal(f).z as int)
            &&& norm_sq(p) >= FX_ONE as int * FX_ONE
        }),
{
    let s = FX_ONE as int;
    let ta = tangent_of(x, r);
    let tb = tangent_of(y, r);
    lemma_tangent_range(x, r);
    lemma_tangent_range(y, r);
    lemma_fx_mul_by_axis(ta, s);
    lemma_fx_mul_by_axis(ta, -s);
    lemma_fx_mul_by_axis(ta, 0);
    lemma_fx_mul_by_axis(tb, s);
    lemma_fx_mul_by_axis(tb, -s);
    lemma_fx_mul_by_axis(tb, 0);
    let p = cube_point(f, r, x, y);
    lemma_square_bound(p.x, s);
    lemma_square_bound(p.y, s);
    lemma_square_bound(p.z, s);
    assert(s * s > 0) by (nonlinear_arith)
        requires
            s > 0,
    ;
    match f {
        Face::YPos => assert(p.y * p.y == s * s),
        Face::YNeg => assert(p.y * p.y == s * s) by (nonlinear_arith)
            requires
                p.y == -s,
        ,
        Face::XNeg => assert(p.x * p.x == s * s) by (nonlinear_arith)
            requires
                p.x == -s,
        ,
        Face::XPos => assert(p.x * p.x == s * s),
        Face::ZPos => assert(p.z * p.z == s * s),
        Face::ZNeg => assert(p.z * p.z == s * s) by (nonlinear_arith)
            requires
                p.z == -s,
        ,
    }
}

/// Tangent coordinate of grid column (or row) `k`, executable form.
fn tangent_coord(k: u32, r: u32) -> (t: i64)
    requires
        2 <= r <= 65535,
        k < r,
    ensures
        t == tangent_of(k as int, r as int),
        -FX_ONE <= t <= FX_ONE,
{
    proof {
        lemma_tangent_range(k as int, r as int);
    }
    let pct: i64 = ((k as i64) * FX_ONE) / ((r - 1) as i64);
    2 * pct - FX_ONE
}

/// The normal and the two tangent axes of a face, executable form.
fn face_vectors(f: Face) -> (v: (FxVec3, FxVec3, FxVec3))
    ensures
        v.0 == face_normal(f),
        v.1 == face_axis_a(f),
        v.2 == face_axis_b(f),
{
    let n = match f {
        Face::YPos => FxVec3 { x: 0, y: FX_ONE, z: 0 },
        Face::YNeg => FxVec3 { x: 0, y: -FX_ONE, z: 0 },
        Face::XNeg => FxVec3 { x: -FX_ONE, y: 0, z: 0 },
        Face::XPos => FxVec3 { x: FX_ONE, y: 0, z: 0 },
        Face::ZPos => FxVec3 { x: 0, y: 0, z: FX_ONE },
        Face::ZNeg => FxVec3 { x: 0, y: 0, z: -FX_ONE },
    };
    let a = FxVec3 { x: n.y, y: n.z, z: n.x };
    let b = match f {
        Face::YPos => FxVec3 { x: 0, y: 0, z: -FX_ONE },
        Face::YNeg => FxVec3 { x: 0, y: 0, z: -FX_ONE },
        Face::XNeg => FxVec3 { x: 0, y: -FX_ONE, z: 0 },
        Face::XPos => FxVec3 { x: 0, y: -FX_ONE, z: 0 },
        Face::ZPos => FxVec3 { x: -FX_ONE, y: 0, z: 0 },
        Face::ZNeg => FxVec3 { x: -FX_ONE, y: 0, z: 0 },
    };
    (n, a, b)
}

/// The point of grid cell `(x, y)` on the cube surface, executable form.
fn face_point(f: Face, r: u32, x: u32, y: u32) -> (p: FxVec3)
    requires
        2 <= r <= 65535,
        x < r,
        y < r,
    ensures
        p@ == cube_point(f, r as int, x as int, y as int),
        fx_abs(p.x as int) <= FX_ONE,
        fx_abs(p.y as int) <= FX_ONE,
        fx_abs(p.z as int) <= FX_ONE,
        norm_sq(p@) > 0,
{
    let (n, a, b) = face_vectors(f);
    let ta = tangent_coord(x, r);
    let tb = tangent_coord(y, r);
    proof {
        lemma_face_vector_components(f);
        lemma_fx_mul_by_axis(ta as int, a.x as int);
        lemma_fx_mul_by_axis(ta as int, a.y as int);
        lemma_fx_mul_by_axis(ta as int, a.z as int);
        lemma_fx_mul_by_axis(tb as int, b.x as int);
        lemma_fx_mul_by_axis(tb as int, b.y as int);
        lemma_fx_mul_by_axis(tb as int, b.z as int);
        lemma_cube_point_props(f, r as int, x as int, y as int);
    }
    let px: i64 = n.x + fx_mul(ta, a.x) + fx_mul(tb, b.x);
    let py: i64 = n.y + fx_mul(ta, a.y) + fx_mul(tb, b.y);
    let pz: i64 = n.z + fx_mul(ta, a.z) + fx_mul(tb, b.z);
    FxVec3 { x: px, y: py, z: pz }
}

/// The geometry of one face: parallel position and normal buffers and a
/// triangle index buffer.
pub struct FaceMesh {
    pub positions: Vec<FxVec3>,
    pub normals: Vec<FxVec3>,
    pub indices: Vec<u32>,
}

/// The position of vertex `i` of a face grid, row-major
/// (`x = i % r`, `y = i / r`): the cube point, projected onto the sphere
/// when `spherify` is set.
pub open spec fn vertex_point(f: Face, r: int, spherify: bool, i: int) -> Vec3i {
    if spherify {
        normalize_spec(cube_point(f, r, i % r, i / r))
    } else {
        cube_point(f, r, i % r, i / r)
    }
}

/// The normal of vertex `i`: on the sphere the position itself, on the cube
/// the face normal.
pub open spec fn vertex_normal(f: Face, r: int, spherify: bool, i: int) -> Vec3i {
    if spherify {
        vertex_point(f, r, spherify, i)
    } else {
        face_normal(f)@
    }
}

/// Element `j` of the face's index buffer.  Each grid cell emits two
/// triangles over the quad with corners `i`, `i + 1`, `i + r`, `i + r + 1`
/// (`i` its top-left vertex), wound `(i, i + r + 1, i + r)` and
/// `(i, i + 1, i + r + 1)`.
pub open spec fn face_index_at(r: int, j: int) -> int {
    let cell = j / 6;
    let q = j % 6;
    let cx = cell % (r - 1);
    let cy = cell / (r - 1);
    let i = cx + cy * r;
    if q == 0 {
        i
    } else if q == 1 {
        i + r + 1
    } else if q == 2 {
        i + r
    } else if q == 3 {
        i
    } else if q == 4 {
        i + 1
    } else {
        i + r + 1
    }
}

/// `m` is exactly the mesh of face `f` at resolution `r`: `r * r` vertices
/// and `6 * (r - 1) * (r - 1)` indices, each pinned to its spec value.
pub open spec fn is_face_mesh(m: FaceMesh, f: Face, r: int, spherify: bool) -> bool {
    &&& m.positions@.len() == r * r
    &&& m.normals@.len() == r * r
    &&& m.indices@.len() == 6 * (r - 1) * (r - 1)
    &&& forall|i: int|
        0 <= i < r * r ==> (#[trigger] m.positions@[i])@ == vertex_point(f, r, spherify, i)
    &&& forall|i: int|
        0 <= i < r * r ==> (#[trigger] m.normals@[i])@ == vertex_normal(f, r, spherify, i)
    &&& forall|j: int|
        0 <= j < 6 * (r - 1) * (r - 1) ==> (#[trigger] m.indices@[j]) as int == face_index_at(
            r,
            j,
        )
    &&& forall|j: int| 0 <= j < 6 * (r - 1) * (r - 1) ==> (#[trigger] m.indices@[j]) < r * r
}

/// Build the mesh of one face: a `resolution x resolution` vertex grid and
/// two triangles per grid cell.
pub fn build_face_mesh(resolution: u32, face: Face, spherify: bool) -> (m: FaceMesh)
    requires
        2 <= resolution <= 65535,
    ensures
        is_face_mesh(m, face, resolution as int, spherify),
{
    let r = resolution;
    let ghost ri: int = r as int;
    let mut positions: Vec<FxVec3> = Vec::new();
    let mut normals: Vec<FxVec3> = Vec::new();
    let mut indices: Vec<u32> = Vec::new();
    let (n, _a, _b) = face_vectors(face);
    proof {
        assert(0int * ri == 0) by (nonlinear_arith);
    }
    for y in 0..r
        invariant
            2 <= r <= 65535,
            ri == r as int,
            n == face_normal(face),
            positions@.len() == y * ri,
            normals@.len() == y * ri,
            forall|i: int|
                0 <= i < y * ri ==> (#[trigger] positions@[i])@ == vertex_point(
                    face,
                    ri,
                    spherify,
                    i,
                ),
            forall|i: int|
                0 <= i < y * ri ==> (#[trigger] normals@[i])@ == vertex_normal(
                    face,
                    ri,
                    spherify,
                    i,
                ),
    {
        proof {
            assert(y * ri + ri <= 65535 * 65535) by (nonlinear_arith)
                requires
                    0 <= y as int && (y as int) < ri && ri <= 65535,
            ;
        }
        for x in 0..r
            invariant
                2 <= r <= 65535,
                ri == r as int,
                y < r,
                n == face_normal(face),
                positions@.len() == y * ri + x,
                normals@.len() == y * ri + x,
                y * ri + ri <= 65535 * 65535,
                forall|i: int|
                    0 <= i < y * ri + x ==> (#[trigger] positions@[i])@ == vertex_point(
                        face,
                        ri,
                        spherify,
                        i,
                    ),
                forall|i: int|
                    0 <= i < y * ri + x ==> (#[trigger] normals@[i])@ == vertex_normal(
                        face,
                        ri,
                        spherify,
                        i,
                    ),
        {
            let p = face_point(face, r, x, y);
            let (vpos, vnorm) = if spherify {
                let q = normalize(p);
                (q, q)
            } else {
                (p, n)
            };
            proof {
                let i = y * ri + x;
                lemma_fundamental_div_mod_converse_div(i, ri, y as int, x as int);
                lemma_fundamental_div_mod_converse_mod(i, ri, y as int, x as int);
            }
            positions.push(vpos);
            normals.push(vnorm);
        }
        proof {
            assert((y + 1) * ri == y * ri + ri) by (nonlinear_arith);
        }
    }
    proof {
        assert(ri * ri <= 65535 * 65535) by (nonlinear_arith)
            requires
                2 <= ri <= 65535,
        ;
    }
    let cells = r - 1;
    let ghost ci: int = cells as int;
    proof {
        assert(0int * ci == 0) by (nonlinear_arith);
    }
    for cy in 0..cells
        invariant
            2 <= r <= 65535,
            cells == r - 1,
            ci == cells as int,
            indices@.len() == 6 * (cy * ci),
            forall|j: int|
                0 <= j < 6 * (cy * ci) ==> (#[trigger] indices@[j]) as int == face_index_at(
                    r as int,
                    j,
                ),
            forall|j: int| 0 <= j < 6 * (cy * ci) ==> (#[trigger] indices@[j]) < r * r,
    {
        proof {
            assert(cy * ci + ci <= ci * ci) by (nonlinear_arith)
                requires
                    0 <= cy as int && (cy as int) < ci,
            ;
        }
        for cx in 0..cells
            invariant
                2 <= r <= 65535,
                cells == r - 1,
                ci == cells as int,
                cy < cells,
                indices@.len() == 6 * (cy * ci + cx),
                cy * ci + ci <= ci * ci,
                forall|j: int|
                    0 <= j < 6 * (cy * ci + cx) ==> (#[trigger] indices@[j]) as int
                        == face_index_at(r as int, j),
                forall|j: int| 0 <= j < 6 * (cy * ci + cx) ==> (#[trigger] indices@[j]) < r * r,
        {
            proof {
                let i = cx + cy * (r as int);
                assert((r as int) * (r as int) <= 65535 * 65535) by (nonlinear_arith)
                    requires
                        0 <= r as int <= 65535,
                ;
                assert(cx + cy * (r as int) + (r as int) + 1 <= (r as int) * (r as int) - 1)
                    by (nonlinear_arith)
                    requires
                        0 <= cx as int && cx as int <= (r as int) - 2,
                        0 <= cy as int && cy as int <= (r as int) - 2,
                        2 <= r as int,
                ;
                let cell = cy * ci + cx;
                lemma_fundamental_div_mod_converse_div(cell, ci, cy as int, cx as int);
                lemma_fundamental_div_mod_converse_mod(cell, ci, cy as int, cx as int);
                let jbase = 6 * cell;
                assert(6 * cell == cell * 6) by (nonlinear_arith);
                lemma_fundamental_div_mod_converse_div(jbase, 6, cell, 0);
                lemma_fundamental_div_mod_converse_mod(jbase, 6, cell, 0);
                lemma_fundamental_div_mod_converse_div(jbase + 1, 6, cell, 1);
                lemma_fundamental_div_mod_converse_mod(jbase + 1, 6, cell, 1);
                lemma_fundamental_div_mod_converse_div(jbase + 2, 6, cell, 2);
                lemma_fundamental_div_mod_converse_mod(jbase + 2, 6, cell, 2);
                lemma_fundamental_div_mod_converse_div(jbase + 3, 6, cell, 3);
                lemma_fundamental_div_mod_converse_mod(jbase + 3, 6, cell, 3);
                lemma_fundamental_div_mod_converse_div(jbase + 4, 6, cell, 4);
                lemma_fundamental_div_mod_converse_mod(jbase + 4, 6, cell, 4);
                lemma_fundamental_div_mod_converse_div(jbase + 5, 6, cell, 5);
                lemma_fundamental_div_mod_converse_mod(jbase + 5, 6, cell, 5);
            }
            let i: u32 = cx + cy * r;
            indices.push(i);
            indices.push(i + r + 1);
            indices.push(i + r);
            indices.push(i);
            indices.push(i + 1);
            indices.push(i + r + 1);
        }
        proof {
            assert((cy + 1) * ci == cy * ci + ci) by (nonlinear_arith);
        }
    }
    proof {
        assert(6 * (ci * ci) == 6 * (ri - 1) * (ri - 1)) by (nonlinear_arith)
            requires
                ci == ri - 1,
        ;
    }
    FaceMesh { positions, normals, indices }
}

/// The row and column of vertex `i` both lie inside the grid.
pub proof fn lemma_grid_coords(i: int, r: int)
    requires
        0 < r,
        0 <= i < r * r,
    ensures
        0 <= i % r < r,
        0 <= i / r < r,
{
    lemma_mod_bound(i, r);
    lemma_div_pos_is_pos(i, r);
    assert(r * r - 1 == (r - 1) * r + (r - 1)) by (nonlinear_arith);
    lemma_fundamental_div_mod_converse_div(r * r - 1, r, r - 1, r - 1);
    lemma_div_is_ordered(i, r * r - 1, r);
}

/// The largest component magnitude of a vector.
pub open spec fn max_abs_comp(p: Vec3i) -> int {
    let ax = fx_abs(p.x);
    let ay = fx_abs(p.y);
    let az = fx_abs(p.z);
    if ax >= ay && ax >= az {
        ax
    } else if ay >= az {
        ay
    } else {
        az
    }
}

/// Cube invariant: without `spherify`, every vertex position of a face mesh
/// lies on the surface of the cube — its largest component magnitude is
/// exactly one unit — and every vertex normal is the face's fixed normal.
pub proof fn lemma_cube_mesh_on_surface(m: FaceMesh, f: Face, r: int)
    requires
        2 <= r <= 65535,
        is_face_mesh(m, f, r, false),
    ensures
        forall|i: int|
            0 <= i < r * r ==> max_abs_comp((#[trigger] m.positions@[i])@) == FX_ONE,
        forall|i: int| 0 <= i < r * r ==> (#[trigger] m.normals@[i]) == face_normal(f),
{
    assert forall|i: int| 0 <= i < r * r implies max_abs_comp((#[trigger] m.positions@[i])@)
        == FX_ONE by {
        lemma_grid_coords(i, r);
        lemma_cube_point_props(f, r, i % r, i / r);
        match f {
            Face::YPos => assert(face_normal(f).y != 0),
            Face::YNeg => assert(face_normal(f).y != 0),
            Face::XNeg => assert(face_normal(f).x != 0),
            Face::XPos => assert(face_normal(f).x != 0),
            Face::ZPos => assert(face_normal(f).z != 0),
            Face::ZNeg => assert(face_normal(f).z != 0),
        }
    }
}

/// A corner of the cube: every component is one unit in magnitude.
pub open spec fn is_cube_corner(p: Vec3i) -> bool {
    &&& (p.x == FX_ONE || p.x == -(FX_ONE as int))
    &&& (p.y == FX_ONE || p.y == -(FX_ONE as int))
    &&& (p.z == FX_ONE || p.z == -(FX_ONE as int))
}

/// A grid coordinate on the edge of the face grid.
pub open spec fn is_corner_coord(k: int, r: int) -> bool {
    k == 0 || k == r - 1
}

/// Face coverage: at any resolution, the corner vertices of the six faces in
/// cube mode are exactly the eight corners of the cube — every face corner
/// is a cube corner, and every cube corner is some face's corner.
pub proof fn lemma_corner_coverage(r: int)
    requires
        2 <= r <= 65535,
    ensures
        forall|f: Face, x: int, y: int|
            is_corner_coord(x, r) && is_corner_coord(y, r) ==> is_cube_corner(
                #[trigger] cube_point(f, r, x, y),
            ),
        forall|p: Vec3i|
            #[trigger] is_cube_corner(p) ==> exists|f: Face, x: int, y: int|
                is_corner_coord(x, r) && is_corner_coord(y, r) && #[trigger] cube_point(
                    f,
                    r,
                    x,
                    y,
                ) == p,
{
    let s = FX_ONE as int;
    lemma_tangent_range(0, r);
    lemma_tangent_range(r - 1, r);
    assert forall|f: Face, x: int, y: int|
        is_corner_coord(x, r) && is_corner_coord(y, r) implies is_cube_corner(
        #[trigger] cube_point(f, r, x, y),
    ) by {
        lemma_tangent_range(x, r);
        lemma_tangent_range(y, r);
        lemma_fx_mul_by_axis(s, s);
        lemma_fx_mul_by_axis(s, -s);
        lemma_fx_mul_by_axis(s, 0);
        lemma_fx_mul_by_axis(-s, s);
        lemma_fx_mul_by_axis(-s, -s);
        lemma_fx_mul_by_axis(-s, 0);
    }
    assert forall|p: Vec3i| #[trigger] is_cube_corner(p) implies exists|f: Face, x: int, y: int|
        is_corner_coord(x, r) && is_corner_coord(y, r) && #[trigger] cube_point(f, r, x, y)
            == p by {
        lemma_fx_mul_by_axis(s, s);
        lemma_fx_mul_by_axis(s, -s);
        lemma_fx_mul_by_axis(s, 0);
        lemma_fx_mul_by_axis(-s, s);
        lemma_fx_mul_by_axis(-s, -s);
        lemma_fx_mul_by_axis(-s, 0);
        if p.y == s {
            // On the top face the point is (ta, 1, -tb).
            let xw: int = if p.x == s {
                r - 1
            } else {
                0
            };
            let yw: int = if p.z == s {
                0
            } else {
                r - 1
            };
            assert(is_corner_coord(xw, r) && is_corner_coord(yw, r) && cube_point(
                Face::YPos,
                r,
                xw,
                yw,
            ) == p);
        } else {
            // On the bottom face the point is (-ta, -1, -tb).
            let xw: int = if p.x == s {
                0
            } else {
                r - 1
            };
            let yw: int = if p.z == s {
                0
            } else {
                r - 1
            };
            assert(is_corner_coord(xw, r) && is_corner_coord(yw, r) && cube_point(
                Face::YNeg,
                r,
                xw,
                yw,
            ) == p);
        }
    }
}

/// Sphere invariant, tolerance half: with `spherify`, every vertex position
/// of a face mesh has squared length within a few fixed-point units of one
/// (so its length is one up to a relative error below a hundred-thousandth).
pub proof fn lemma_sphere_mesh_unit_length(m: FaceMesh, f: Face, r: int)
    requires
        2 <= r <= 65535,
        is_face_mesh(m, f, r, true),
    ensures
        forall|i: int|
            0 <= i < r * r ==> FX_ONE as int * FX_ONE - 6 * FX_ONE - 3 <= norm_sq(
                (#[trigger] m.positions@[i])@,
            ) <= FX_ONE as int * FX_ONE + 8 * FX_ONE + 4,
{
    assert forall|i: int| 0 <= i < r * r implies FX_ONE as int * FX_ONE - 6 * FX_ONE - 3
        <= norm_sq((#[trigger] m.positions@[i])@) <= FX_ONE as int * FX_ONE + 8 * FX_ONE + 4 by {
        lemma_grid_coords(i, r);
        lemma_cube_point_props(f, r, i % r, i / r);
        lemma_normalize_near_unit(cube_point(f, r, i % r, i / r));
    }
}

/// Sphere invariant, shape half: with `spherify`, every vertex position of a
/// face mesh equals its vertex normal.
pub proof fn lemma_sphere_mesh_position_is_normal(m: FaceMesh, f: Face, r: int)
    requires
        2 <= r,
        is_face_mesh(m, f, r, true),
    ensures
        forall|i: int| 0 <= i < r * r ==> (#[trigger] m.positions@[i]) == m.normals@[i],
{
}

} // verus!
