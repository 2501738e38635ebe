//! Fixed-point scalar and 3x3 matrix arithmetic.
//!
//! Every scalar quantity of the renderer (world coordinates, trigonometric
//! values, camera parameters, depth keys) is carried as an `i64` holding the
//! real value times `SCALE`. The rotation engine composes the three
//! elementary rotations in the fixed order Rz * Ry * Rx; that order is part
//! of the contract, since it determines the tumbling axis of the cube.

use vstd::prelude::*;
use vstd::arithmetic::div_mod::{
    lemma_div_is_ordered, lemma_div_multiples_vanish, lemma_div_pos_is_pos,
};

verus! {

/// One unit in the fixed-point representation: an `i64` value `v` stands for
/// the real number `v / SCALE`.
pub const SCALE: i64 = 65536;

/// Largest magnitude accepted by `fmul`; products of two such values stay
/// within `i64`.
pub const FMUL_ARG_MAX: i64 = 0x8000_0000;

/// Bound on the entries of a combined rotation transform. Entries of a
/// single elementary rotation are bounded by `SCALE`; two truncating matrix
/// products keep them under `9 * SCALE`.
pub const MAT_MAX: i64 = 9 * SCALE;

/// Division by `SCALE` that truncates toward zero, as the executable code
/// does on magnitudes.
pub open spec fn scale_down(v: int) -> int {
    if v >= 0 {
        v / (SCALE as int)
    } else {
        -((-v) / (SCALE as int))
    }
}

/// The fixed-point product: the mathematical product, brought back to scale.
pub open spec fn fmul_spec(a: int, b: int) -> int {
    scale_down(a * b)
}

/// A fixed-point dot product of two triples, as `fmul` computes it.
pub open spec fn dot3(a0: int, a1: int, a2: int, b0: int, b1: int, b2: int) -> int {
    fmul_spec(a0, b0) + fmul_spec(a1, b1) + fmul_spec(a2, b2)
}

/// Multiplies two fixed-point scalars.
pub fn fmul(a: i64, b: i64) -> (r: i64)
    requires
        -FMUL_ARG_MAX <= a <= FMUL_ARG_MAX,
        -FMUL_ARG_MAX <= b <= FMUL_ARG_MAX,
    ensures
        r == fmul_spec(a as int, b as int),
{
    proof {
        assert((a as int) * (b as int) <= 0x4000_0000_0000_0000 && (a as int) * (b as int)
            >= -0x4000_0000_0000_0000) by (nonlinear_arith)
            requires
                -FMUL_ARG_MAX <= a <= FMUL_ARG_MAX,
                -FMUL_ARG_MAX <= b <= FMUL_ARG_MAX,
        ;
    }
    let p: i64 = a * b;
    p / SCALE
}

/// Truncation toward zero can only shrink a magnitude bound: if `|v| <= m`
/// then `|v / SCALE| <= m / SCALE`.
pub proof fn lemma_scale_down_bound(v: int, m: int)
    requires
        -m <= v <= m,
        0 <= m,
    ensures
        -(m / (SCALE as int)) <= scale_down(v) <= m / (SCALE as int),
{
    if v >= 0 {
        lemma_div_pos_is_pos(v, SCALE as int);
        lemma_div_is_ordered(v, m, SCALE as int);
        lemma_div_pos_is_pos(m, SCALE as int);
    } else {
        lemma_div_pos_is_pos(-v, SCALE as int);
        lemma_div_is_ordered(-v, m, SCALE as int);
        lemma_div_pos_is_pos(m, SCALE as int);
    }
}

/// A magnitude bound for the fixed-point product from bounds on its factors.
pub proof fn lemma_fmul_bound(a: int, b: int, aa: int, bb: int)
    requires
        -aa <= a <= aa,
        -bb <= b <= bb,
        0 <= aa,
        0 <= bb,
    ensures
        -((aa * bb) / (SCALE as int)) <= fmul_spec(a, b) <= (aa * bb) / (SCALE as int),
{
    assert(-(aa * bb) <= a * b <= aa * bb) by (nonlinear_arith)
        requires
            -aa <= a <= aa,
            -bb <= b <= bb,
            0 <= aa,
            0 <= bb,
    ;
    lemma_scale_down_bound(a * b, aa * bb);
}

/// Scaling a value up by `SCALE` and back down returns it unchanged.
pub proof fn lemma_scale_exact(e: int)
    ensures
        fmul_spec(SCALE as int, e) == e,
        fmul_spec(e, SCALE as int) == e,
{
    assert((SCALE as int) * e == e * (SCALE as int));
    if e >= 0 {
        lemma_div_multiples_vanish(e, SCALE as int);
        assert((SCALE as int) * e >= 0) by (nonlinear_arith)
            requires
                e >= 0,
        ;
    } else {
        lemma_div_multiples_vanish(-e, SCALE as int);
        assert((SCALE as int) * e < 0) by (nonlinear_arith)
            requires
                e < 0,
        ;
        assert(-((SCALE as int) * e) == (SCALE as int) * (-e));
    }
}

/// Multiplying by a fixed-point zero gives zero.
pub proof fn lemma_fmul_zero(e: int)
    ensures
        fmul_spec(0, e) == 0,
        fmul_spec(e, 0) == 0,
{
    assert(0 * e == 0) by (nonlinear_arith);
    assert(e * 0 == 0) by (nonlinear_arith);
}

/// The mathematical model of a 3x3 fixed-point matrix: its nine entries as
/// unbounded integers, row by row.
pub struct Mat3View {
    pub m00: int,
    pub m01: int,
    pub m02: int,
    pub m10: int,
    pub m11: int,
    pub m12: int,
    pub m20: int,
    pub m21: int,
    pub m22: int,
}

/// A 3x3 fixed-point matrix, row-major.
#[derive(Clone, Copy, Debug, PartialEq, Eq, Structural)]
pub struct Mat3 {
    pub m00: i64,
    pub m01: i64,
    pub m02: i64,
    pub m10: i64,
    pub m11: i64,
    pub m12: i64,
    pub m20: i64,
    pub m21: i64,
    pub m22: i64,
}

impl View for Mat3 {
    type V = Mat3View;

    open spec fn view(&self) -> Mat3View {
        Mat3View {
            m00: self.m00 as int,
            m01: self.m01 as int,
            m02: self.m02 as int,
            m10: self.m10 as int,
            m11: self.m11 as int,
            m12: self.m12 as int,
            m20: self.m20 as int,
            m21: self.m21 as int,
            m22: self.m22 as int,
        }
    }
}

/// Every entry of the matrix has magnitude at most `bound`.
pub open spec fn mat_bounded(m: Mat3View, bound: int) -> bool {
    &&& -bound <= m.m00 <= bound
    &&& -bound <= m.m01 <= bound
    &&& -bound <= m.m02 <= bound
    &&& -bound <= m.m10 <= bound
    &&& -bound <= m.m11 <= bound
    &&& -bound <= m.m12 <= bound
    &&& -bound <= m.m20 <= bound
    &&& -bound <= m.m21 <= bound
    &&& -bound <= m.m22 <= bound
}

/// The identity transform, in fixed-point representation.
pub open spec fn ident_spec() -> Mat3View {
    Mat3View {
        m00: SCALE as int,
        m01: 0,
        m02: 0,
        m10: 0,
        m11: SCALE as int,
        m12: 0,
        m20: 0,
        m21: 0,
        m22: SCALE as int,
    }
}

/// Rotation about the x axis by an angle with sine `s` and cosine `c`.
pub open spec fn rx_spec(s: int, c: int) -> Mat3View {
    Mat3View {
        m00: SCALE as int,
        m01: 0,
        m02: 0,
        m10: 0,
        m11: c,
        m12: -s,
        m20: 0,
        m21: s,
        m22: c,
    }
}

/// Rotation about the y axis by an angle with sine `s` and cosine `c`.
pub open spec fn ry_spec(s: int, c: int) -> Mat3View {
    Mat3View {
        m00: c,
        m01: 0,
        m02: s,
        m10: 0,
        m11: SCALE as int,
        m12: 0,
        m20: -s,
        m21: 0,
        m22: c,
    }
}

/// Rotation about the z axis by an angle with sine `s` and cosine `c`.
pub open spec fn rz_spec(s: int, c: int) -> Mat3View {
    Mat3View {
        m00: c,
        m01: -s,
        m02: 0,
        m10: s,
        m11: c,
        m12: 0,
        m20: 0,
        m21: 0,
        m22: SCALE as int,
    }
}

/// The fixed-point matrix product, entry by entry.
pub open spec fn mm_spec(a: Mat3View, b: Mat3View) -> Mat3View {
    Mat3View {
        m00: dot3(a.m00, a.m01, a.m02, b.m00, b.m10, b.m20),
        m01: dot3(a.m00, a.m01, a.m02, b.m01, b.m11, b.m21),
        m02: dot3(a.m00, a.m01, a.m02, b.m02, b.m12, b.m22),
        m10: dot3(a.m10, a.m11, a.m12, b.m00, b.m10, b.m20),
        m11: dot3(a.m10, a.m11, a.m12, b.m01, b.m11, b.m21),
        m12: dot3(a.m10, a.m11, a.m12, b.m02, b.m12, b.m22),
        m20: dot3(a.m20, a.m21, a.m22, b.m00, b.m10, b.m20),
        m21: dot3(a.m20, a.m21, a.m22, b.m01, b.m11, b.m21),
        m22: dot3(a.m20, a.m21, a.m22, b.m02, b.m12, b.m22),
    }
}

/// The combined rotation transform for trigonometric values of three angles,
/// composed in the fixed order Rz * Ry * Rx.
pub open spec fn combined_spec(
    sa: int,
    ca: int,
    sb: int,
    cb: int,
    sc: int,
    cc: int,
) -> Mat3View {
    mm_spec(rz_spec(sc, cc), mm_spec(ry_spec(sb, cb), rx_spec(sa, ca)))
}

/// Multiplying by the identity on the left returns the matrix unchanged;
/// the fixed-point product is exact there.
pub proof fn lemma_mm_left_ident(x: Mat3View)
    ensures
        mm_spec(ident_spec(), x) == x,
{
    assert forall|e: int| #[trigger] fmul_spec(SCALE as int, e) == e by {
        lemma_scale_exact(e);
    }
    assert forall|e: int| #[trigger] fmul_spec(0, e) == 0 by {
        lemma_fmul_zero(e);
    }
}

/// Multiplying by the identity on the right returns the matrix unchanged.
pub proof fn lemma_mm_right_ident(x: Mat3View)
    ensures
        mm_spec(x, ident_spec()) == x,
{
    assert forall|e: int| #[trigger] fmul_spec(e, SCALE as int) == e by {
        lemma_scale_exact(e);
    }
    assert forall|e: int| #[trigger] fmul_spec(e, 0) == 0 by {
        lemma_fmul_zero(e);
    }
}

/// A magnitude bound for the entries of a matrix product from bounds on the
/// entries of its factors.
pub proof fn lemma_mm_bounded(a: Mat3View, b: Mat3View, aa: int, bb: int)
    requires
        mat_bounded(a, aa),
        mat_bounded(b, bb),
        0 <= aa,
        0 <= bb,
    ensures
        mat_bounded(mm_spec(a, b), 3 * ((aa * bb) / (SCALE as int))),
{
    assert forall|p: int, q: int|
        -aa <= p <= aa && -bb <= q <= bb implies -((aa * bb) / (SCALE as int)) <= #[trigger] fmul_spec(p, q)
        <= (aa * bb) / (SCALE as int) by {
        lemma_fmul_bound(p, q, aa, bb);
    }
}

/// Law: for zero angles the rotation engine yields the identity transform.
///
/// Zero angles have sine `0` and cosine `SCALE`; composing the three
/// elementary rotations built from them gives exactly `ident_spec`.
pub proof fn lemma_zero_angles_identity()
    ensures
        combined_spec(0, SCALE as int, 0, SCALE as int, 0, SCALE as int) == ident_spec(),
{
    assert(rx_spec(0, SCALE as int) == ident_spec());
    assert(ry_spec(0, SCALE as int) == ident_spec());
    assert(rz_spec(0, SCALE as int) == ident_spec());
    lemma_mm_left_ident(ident_spec());
    lemma_mm_left_ident(ident_spec());
}

/// Law: the composition order is fixed. Building the transform for angles
/// `(a, 0, 0)`, then independently `(0, b, 0)`, then `(0, 0, c)`, and
/// composing the three in the order Rz * Ry * Rx equals the single combined
/// transform for `(a, b, c)`. The equality is exact, rounding included.
pub proof fn lemma_composition_order(sa: int, ca: int, sb: int, cb: int, sc: int, cc: int)
    ensures
        mm_spec(
            combined_spec(0, SCALE as int, 0, SCALE as int, sc, cc),
            mm_spec(
                combined_spec(0, SCALE as int, sb, cb, 0, SCALE as int),
                combined_spec(sa, ca, 0, SCALE as int, 0, SCALE as int),
            ),
        ) == combined_spec(sa, ca, sb, cb, sc, cc),
{
    assert(rx_spec(0, SCALE as int) == ident_spec());
    assert(ry_spec(0, SCALE as int) == ident_spec());
    assert(rz_spec(0, SCALE as int) == ident_spec());
    // The single-axis transforms collapse to the elementary rotations.
    lemma_mm_left_ident(rx_spec(sa, ca));
    lemma_mm_left_ident(mm_spec(ident_spec(), rx_spec(sa, ca)));
    lemma_mm_right_ident(ry_spec(sb, cb));
    lemma_mm_left_ident(mm_spec(ry_spec(sb, cb), ident_spec()));
    lemma_mm_left_ident(ident_spec());
    lemma_mm_right_ident(rz_spec(sc, cc));
}

/// A fixed-point dot product of two bounded triples.
fn fdot(
    a0: i64,
    a1: i64,
    a2: i64,
    b0: i64,
    b1: i64,
    b2: i64,
    Ghost(aa): Ghost<int>,
    Ghost(bb): Ghost<int>,
) -> (r: i64)
    requires
        0 <= aa <= FMUL_ARG_MAX,
        0 <= bb <= FMUL_ARG_MAX,
        -aa <= a0 <= aa,
        -aa <= a1 <= aa,
        -aa <= a2 <= aa,
        -bb <= b0 <= bb,
        -bb <= b1 <= bb,
        -bb <= b2 <= bb,
        3 * ((aa * bb) / (SCALE as int)) <= i64::MAX,
    ensures
        r == dot3(a0 as int, a1 as int, a2 as int, b0 as int, b1 as int, b2 as int),
        -(3 * ((aa * bb) / (SCALE as int))) <= r <= 3 * ((aa * bb) / (SCALE as int)),
{
    proof {
        lemma_fmul_bound(a0 as int, b0 as int, aa, bb);
        lemma_fmul_bound(a1 as int, b1 as int, aa, bb);
        lemma_fmul_bound(a2 as int, b2 as int, aa, bb);
        assert(aa * bb >= 0) by (nonlinear_arith)
            requires
                0 <= aa,
                0 <= bb,
        ;
        lemma_div_pos_is_pos(aa * bb, SCALE as int);
    }
    let t0: i64 = fmul(a0, b0);
    let t1: i64 = fmul(a1, b1);
    let t2: i64 = fmul(a2, b2);
    t0 + t1 + t2
}

/// Multiplies two fixed-point matrices whose entries are bounded by
/// `MAT_MAX`; the result is exactly `mm_spec` of their models.
pub fn mat_mul(a: &Mat3, b: &Mat3) -> (r: Mat3)
    requires
        mat_bounded(a@, MAT_MAX as int),
        mat_bounded(b@, MAT_MAX as int),
    ensures
        r@ == mm_spec(a@, b@),
{
    let ghost aa: int = MAT_MAX as int;
    let ghost bb: int = MAT_MAX as int;
    Mat3 {
        m00: fdot(a.m00, a.m01, a.m02, b.m00, b.m10, b.m20, Ghost(aa), Ghost(bb)),
        m01: fdot(a.m00, a.m01, a.m02, b.m01, b.m11, b.m21, Ghost(aa), Ghost(bb)),
        m02: fdot(a.m00, a.m01, a.m02, b.m02, b.m12, b.m22, Ghost(aa), Ghost(bb)),
        m10: fdot(a.m10, a.m11, a.m12, b.m00, b.m10, b.m20, Ghost(aa), Ghost(bb)),
        m11: fdot(a.m10, a.m11, a.m12, b.m01, b.m11, b.m21, Ghost(aa), Ghost(bb)),
        m12: fdot(a.m10, a.m11, a.m12, b.m02, b.m12, b.m22, Ghost(aa), Ghost(bb)),
        m20: fdot(a.m20, a.m21, a.m22, b.m00, b.m10, b.m20, Ghost(aa), Ghost(bb)),
        m21: fdot(a.m20, a.m21, a.m22, b.m01, b.m11, b.m21, Ghost(aa), Ghost(bb)),
        m22: fdot(a.m20, a.m21, a.m22, b.m02, b.m12, b.m22, Ghost(aa), Ghost(bb)),
    }
}

/// Largest accepted magnitude of a world coordinate handed to
/// `rotate_point`.
pub const POINT_MAX: i64 = 0x100_0000;

/// Bound on the components of a rotated point: three fixed-point products
/// of a `MAT_MAX`-bounded entry and a `POINT_MAX`-bounded coordinate.
pub const ROTATED_MAX: i64 = 0x1B00_0000;

/// The image of a point under a fixed-point matrix, component by component.
pub open spec fn rotate_spec(m: Mat3View, x: int, y: int, z: int) -> (int, int, int) {
    (
        dot3(m.m00, m.m01, m.m02, x, y, z),
        dot3(m.m10, m.m11, m.m12, x, y, z),
        dot3(m.m20, m.m21, m.m22, x, y, z),
    )
}

/// Applies a rotation transform to a point.
pub fn rotate_point(m: &Mat3, x: i64, y: i64, z: i64) -> (r: (i64, i64, i64))
    requires
        mat_bounded(m@, MAT_MAX as int),
        -POINT_MAX <= x <= POINT_MAX,
        -POINT_MAX <= y <= POINT_MAX,
        -POINT_MAX <= z <= POINT_MAX,
    ensures
        (r.0 as int, r.1 as int, r.2 as int) == rotate_spec(m@, x as int, y as int, z as int),
        -ROTATED_MAX <= r.0 <= ROTATED_MAX,
        -ROTATED_MAX <= r.1 <= ROTATED_MAX,
        -ROTATED_MAX <= r.2 <= ROTATED_MAX,
{
    let ghost aa: int = MAT_MAX as int;
    let ghost bb: int = POINT_MAX as int;
    let r0 = fdot(m.m00, m.m01, m.m02, x, y, z, Ghost(aa), Ghost(bb));
    let r1 = fdot(m.m10, m.m11, m.m12, x, y, z, Ghost(aa), Ghost(bb));
    let r2 = fdot(m.m20, m.m21, m.m22, x, y, z, Ghost(aa), Ghost(bb));
    (r0, r1, r2)
}

/// Builds the elementary rotation about the x axis.
fn rot_x(s: i64, c: i64) -> (r: Mat3)
    requires
        -SCALE <= s <= SCALE,
        -SCALE <= c <= SCALE,
    ensures
        r@ == rx_spec(s as int, c as int),
        mat_bounded(r@, SCALE as int),
{
    Mat3 { m00: SCALE, m01: 0, m02: 0, m10: 0, m11: c, m12: -s, m20: 0, m21: s, m22: c }
}

/// Builds the elementary rotation about the y axis.
fn rot_y(s: i64, c: i64) -> (r: Mat3)
    requires
        -SCALE <= s <= SCALE,
        -SCALE <= c <= SCALE,
    ensures
        r@ == ry_spec(s as int, c as int),
        mat_bounded(r@, SCALE as int),
{
    Mat3 { m00: c, m01: 0, m02: s, m10: 0, m11: SCALE, m12: 0, m20: -s, m21: 0, m22: c }
}

/// Builds the elementary rotation about the z axis.
fn rot_z(s: i64, c: i64) -> (r: Mat3)
    requires
        -SCALE <= s <= SCALE,
        -SCALE <= c <= SCALE,
    ensures
        r@ == rz_spec(s as int, c as int),
        mat_bounded(r@, SCALE as int),
{
    Mat3 { m00: c, m01: -s, m02: 0, m10: s, m11: c, m12: 0, m20: 0, m21: 0, m22: SCALE }
}

/// The rotation engine: combines three rotations, given by the sine and
/// cosine of each angle, into one transform, in the fixed order Rz * Ry * Rx.
pub fn calculate_rotation_matrix(
    sin_a: i64,
    cos_a: i64,
    sin_b: i64,
    cos_b: i64,
    sin_c: i64,
    cos_c: i64,
) -> (r: Mat3)
    requires
        -SCALE <= sin_a <= SCALE,
        -SCALE <= cos_a <= SCALE,
        -SCALE <= sin_b <= SCALE,
        -SCALE <= cos_b <= SCALE,
        -SCALE <= sin_c <= SCALE,
        -SCALE <= cos_c <= SCALE,
    ensures
        r@ == combined_spec(
            sin_a as int,
            cos_a as int,
            sin_b as int,
            cos_b as int,
            sin_c as int,
            cos_c as int,
        ),
        mat_bounded(r@, MAT_MAX as int),
{
    let mx = rot_x(sin_a, cos_a);
    let my = rot_y(sin_b, cos_b);
    let mz = rot_z(sin_c, cos_c);
    let inner = mat_mul(&my, &mx);
    proof {
        lemma_mm_bounded(my@, mx@, SCALE as int, SCALE as int);
    }
    let outer = mat_mul(&mz, &inner);
    proof {
        lemma_mm_bounded(mz@, inner@, SCALE as int, 3 * SCALE as int);
    }
    outer
}

} // verus!
