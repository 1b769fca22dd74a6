//! 3x3 matrices, Euler rotation (quarter turns), and quaternions.
//!
//! Angles throughout the library are counts of quarter turns, the
//! rotations whose sine and cosine are exactly representable integers.

use vstd::prelude::*;

use crate::num::div_i64;
use crate::num::in_i64;
use crate::num::is_isqrt;
use crate::num::isqrt;
use crate::num::isqrt_u64;
use crate::num::lemma_isqrt_of_witness;
use crate::num::lemma_tdiv_bounds;
use crate::num::tdiv;
use crate::vec::add_fits;
use crate::vec::sub_fits;
use crate::vec::within;
use crate::vec::Vec3;
use crate::vec::Vec3V;

verus! {

/// The mathematical value of a `Matrix3x3`: three integer columns.
pub struct Mat3V {
    pub c1: Vec3V,
    pub c2: Vec3V,
    pub c3: Vec3V,
}

impl Mat3V {
    /// The matrix-vector product, with row `i` of the matrix read as
    /// `(c1[i], c2[i], c3[i])`.
    pub open spec fn transform(self, v: Vec3V) -> Vec3V {
        Vec3V {
            x: self.c1.x * v.x + self.c2.x * v.y + self.c3.x * v.z,
            y: self.c1.y * v.x + self.c2.y * v.y + self.c3.y * v.z,
            z: self.c1.z * v.x + self.c2.z * v.y + self.c3.z * v.z,
        }
    }

    /// The determinant, by cofactor expansion along the first row.
    pub open spec fn determinant(self) -> int {
        self.c1.x * (self.c2.y * self.c3.z - self.c2.z * self.c3.y)
            - self.c2.x * (self.c1.y * self.c3.z - self.c1.z * self.c3.y)
            + self.c3.x * (self.c1.y * self.c2.z - self.c1.z * self.c2.y)
    }
}

/// A matrix whose nine entries are given in row-major reading order,
/// stored column-major.
pub open spec fn mat_from_rows(
    a: int,
    b: int,
    c: int,
    d: int,
    e: int,
    f: int,
    g: int,
    h: int,
    i: int,
) -> Mat3V {
    Mat3V {
        c1: Vec3V { x: a, y: d, z: g },
        c2: Vec3V { x: b, y: e, z: h },
        c3: Vec3V { x: c, y: f, z: i },
    }
}

/// Every product and partial sum of one row of a matrix-vector product
/// stays within `i64`.
pub open spec fn row_fits(a: int, b: int, c: int, x: int, y: int, z: int) -> bool {
    &&& in_i64(a * x)
    &&& in_i64(b * y)
    &&& in_i64(c * z)
    &&& in_i64(a * x + b * y)
    &&& in_i64(a * x + b * y + c * z)
}

/// Every product and partial sum of `m.transform(v)` stays within `i64`.
pub open spec fn transform_fits(m: Mat3V, v: Vec3V) -> bool {
    &&& row_fits(m.c1.x, m.c2.x, m.c3.x, v.x, v.y, v.z)
    &&& row_fits(m.c1.y, m.c2.y, m.c3.y, v.x, v.y, v.z)
    &&& row_fits(m.c1.z, m.c2.z, m.c3.z, v.x, v.y, v.z)
}

/// Every product, minor and partial sum of the determinant stays
/// within `i64`.
pub open spec fn determinant_fits(m: Mat3V) -> bool {
    &&& in_i64(m.c2.y * m.c3.z)
    &&& in_i64(m.c2.z * m.c3.y)
    &&& in_i64(m.c2.y * m.c3.z - m.c2.z * m.c3.y)
    &&& in_i64(m.c1.y * m.c3.z)
    &&& in_i64(m.c1.z * m.c3.y)
    &&& in_i64(m.c1.y * m.c3.z - m.c1.z * m.c3.y)
    &&& in_i64(m.c1.y * m.c2.z)
    &&& in_i64(m.c1.z * m.c2.y)
    &&& in_i64(m.c1.y * m.c2.z - m.c1.z * m.c2.y)
    &&& in_i64(m.c1.x * (m.c2.y * m.c3.z - m.c2.z * m.c3.y))
    &&& in_i64(m.c2.x * (m.c1.y * m.c3.z - m.c1.z * m.c3.y))
    &&& in_i64(m.c3.x * (m.c1.y * m.c2.z - m.c1.z * m.c2.y))
    &&& in_i64(
        m.c1.x * (m.c2.y * m.c3.z - m.c2.z * m.c3.y) - m.c2.x * (m.c1.y * m.c3.z - m.c1.z
            * m.c3.y),
    )
    &&& in_i64(m.determinant())
}

/// A 3x3 matrix of `i64` entries, stored as three column vectors.
#[derive(Copy, Clone, PartialEq, Eq, Structural, Debug)]
pub struct Matrix3x3 {
    pub column1: Vec3,
    pub column2: Vec3,
    pub column3: Vec3,
}

impl View for Matrix3x3 {
    type V = Mat3V;

    open spec fn view(&self) -> Mat3V {
        Mat3V { c1: self.column1@, c2: self.column2@, c3: self.column3@ }
    }
}

impl Matrix3x3 {
    /// Creates a matrix from its three column vectors.
    pub fn new(column1: Vec3, column2: Vec3, column3: Vec3) -> (r: Matrix3x3)
        ensures
            r.column1 == column1,
            r.column2 == column2,
            r.column3 == column3,
    {
        Matrix3x3 { column1, column2, column3 }
    }

    /// Creates a matrix from nine entries given in row-major reading
    /// order; they are stored column-major.
    pub fn direct_new(
        a: i64,
        b: i64,
        c: i64,
        d: i64,
        e: i64,
        f: i64,
        g: i64,
        h: i64,
        i: i64,
    ) -> (r: Matrix3x3)
        ensures
            r@ == mat_from_rows(
                a as int,
                b as int,
                c as int,
                d as int,
                e as int,
                f as int,
                g as int,
                h as int,
                i as int,
            ),
    {
        Matrix3x3 {
            column1: Vec3::new(a, d, g),
            column2: Vec3::new(b, e, h),
            column3: Vec3::new(c, f, i),
        }
    }

    /// Computes the determinant of the matrix.
    pub fn determinant(&self) -> (r: i64)
        requires
            determinant_fits(self@),
        ensures
            r == self@.determinant(),
    {
        self.column1.x * (self.column2.y * self.column3.z - self.column2.z * self.column3.y)
            - self.column2.x * (self.column1.y * self.column3.z - self.column1.z * self.column3.y)
            + self.column3.x * (self.column1.y * self.column2.z - self.column1.z * self.column2.y)
    }

    /// Transforms the given `Vec3` by this matrix.
    pub fn transform(&self, vector: &Vec3) -> (r: Vec3)
        requires
            transform_fits(self@, vector@),
        ensures
            r@ == self@.transform(vector@),
    {
        Vec3::new(
            self.column1.x * vector.x + self.column2.x * vector.y + self.column3.x * vector.z,
            self.column1.y * vector.x + self.column2.y * vector.y + self.column3.y * vector.z,
            self.column1.z * vector.x + self.column2.z * vector.y + self.column3.z * vector.z,
        )
    }
}

/// The cosine of `a` quarter turns.
pub open spec fn cos_qt(a: int) -> int {
    let m = a % 4;
    if m == 0 {
        1
    } else if m == 2 {
        -1
    } else {
        0
    }
}

/// The sine of `a` quarter turns.
pub open spec fn sin_qt(a: int) -> int {
    let m = a % 4;
    if m == 1 {
        1
    } else if m == 3 {
        -1
    } else {
        0
    }
}

/// Computes the cosine of `a` quarter turns.
pub fn cos_qt_i64(a: i64) -> (r: i64)
    ensures
        r == cos_qt(a as int),
        -1 <= r <= 1,
{
    let m: i64 = a.checked_rem_euclid(4).unwrap();
    if m == 0 {
        1
    } else if m == 2 {
        -1
    } else {
        0
    }
}

/// Computes the sine of `a` quarter turns.
pub fn sin_qt_i64(a: i64) -> (r: i64)
    ensures
        r == sin_qt(a as int),
        -1 <= r <= 1,
{
    let m: i64 = a.checked_rem_euclid(4).unwrap();
    if m == 1 {
        1
    } else if m == 3 {
        -1
    } else {
        0
    }
}

/// The rotation matrix of `a` quarter turns about the X axis.
pub open spec fn x_rotation(a: int) -> Mat3V {
    mat_from_rows(1, 0, 0, 0, cos_qt(a), sin_qt(a), 0, -sin_qt(a), cos_qt(a))
}

/// The rotation matrix of `a` quarter turns about the Y axis.
pub open spec fn y_rotation(a: int) -> Mat3V {
    mat_from_rows(cos_qt(a), 0, -sin_qt(a), 0, 1, 0, sin_qt(a), 0, cos_qt(a))
}

/// The rotation matrix of `a` quarter turns about the Z axis.
pub open spec fn z_rotation(a: int) -> Mat3V {
    mat_from_rows(cos_qt(a), sin_qt(a), 0, -sin_qt(a), cos_qt(a), 0, 0, 0, 1)
}

/// The composed Euler rotation of `v` by quarter-turn angles: the Z
/// rotation applies first, then Y, then X.
pub open spec fn euler_rotation_spec(rotation: Vec3V, v: Vec3V) -> Vec3V {
    x_rotation(rotation.x).transform(
        y_rotation(rotation.y).transform(z_rotation(rotation.z).transform(v)),
    )
}

/// `rotate(point, origin, rotation)` translated into origin-relative
/// space, rotated about Z, then Y, then X, and translated back.
pub open spec fn rotate_spec(point: Vec3V, origin: Vec3V, rotation: Vec3V) -> Vec3V {
    euler_rotation_spec(rotation, point.sub(origin)).add(origin)
}

/// Every intermediate value of `rotate` stays within `i64`.
pub open spec fn rotate_fits(point: Vec3V, origin: Vec3V, rotation: Vec3V) -> bool {
    let d = point.sub(origin);
    let rz = z_rotation(rotation.z).transform(d);
    let ry = y_rotation(rotation.y).transform(rz);
    let rx = x_rotation(rotation.x).transform(ry);
    &&& sub_fits(point, origin)
    &&& transform_fits(z_rotation(rotation.z), d)
    &&& transform_fits(y_rotation(rotation.y), rz)
    &&& transform_fits(x_rotation(rotation.x), ry)
    &&& add_fits(rx, origin)
}

/// Rotates `point` about `origin` by the given quarter-turn Euler
/// angles, applying the Z rotation first, then Y, then X.
pub fn rotate(point: Vec3, origin: Vec3, rotation: Vec3) -> (r: Vec3)
    requires
        rotate_fits(point@, origin@, rotation@),
    ensures
        r@ == rotate_spec(point@, origin@, rotation@),
{
    let xc: i64 = cos_qt_i64(rotation.x);
    let xs: i64 = sin_qt_i64(rotation.x);
    let yc: i64 = cos_qt_i64(rotation.y);
    let ys: i64 = sin_qt_i64(rotation.y);
    let zc: i64 = cos_qt_i64(rotation.z);
    let zs: i64 = sin_qt_i64(rotation.z);
    let xr: Matrix3x3 = Matrix3x3::direct_new(1, 0, 0, 0, xc, xs, 0, -xs, xc);
    let yr: Matrix3x3 = Matrix3x3::direct_new(yc, 0, -ys, 0, 1, 0, ys, 0, yc);
    let zr: Matrix3x3 = Matrix3x3::direct_new(zc, zs, 0, -zs, zc, 0, 0, 0, 1);
    let offset: Vec3 = point.sub(&origin);
    let rz: Vec3 = zr.transform(&offset);
    let ry: Vec3 = yr.transform(&rz);
    let rx: Vec3 = xr.transform(&ry);
    rx.add(&origin)
}

/// Every entry of the matrix lies in `[-1, 1]`.
pub open spec fn entries_are_signed_units(m: Mat3V) -> bool {
    &&& within(m.c1, 1)
    &&& within(m.c2, 1)
    &&& within(m.c3, 1)
}

/// Quarter-turn sines and cosines are signed units, so the three
/// axis rotation matrices have entries in `[-1, 1]`.
pub proof fn lemma_rotation_entries_are_signed_units(a: int)
    ensures
        entries_are_signed_units(x_rotation(a)),
        entries_are_signed_units(y_rotation(a)),
        entries_are_signed_units(z_rotation(a)),
{
}

/// Transforming a vector with coordinates within `b` by a matrix of
/// signed-unit entries stays within `3 * b`, and every intermediate
/// value fits.
pub proof fn lemma_signed_unit_transform_bounded(m: Mat3V, v: Vec3V, b: int)
    requires
        0 <= b,
        3 * b <= i64::MAX,
        entries_are_signed_units(m),
        within(v, b),
    ensures
        transform_fits(m, v),
        within(m.transform(v), 3 * b),
{
    assert(-b <= m.c1.x * v.x <= b) by (nonlinear_arith)
        requires
            -1 <= m.c1.x <= 1,
            -b <= v.x <= b,
    ;
    assert(-b <= m.c2.x * v.y <= b) by (nonlinear_arith)
        requires
            -1 <= m.c2.x <= 1,
            -b <= v.y <= b,
    ;
    assert(-b <= m.c3.x * v.z <= b) by (nonlinear_arith)
        requires
            -1 <= m.c3.x <= 1,
            -b <= v.z <= b,
    ;
    assert(-b <= m.c1.y * v.x <= b) by (nonlinear_arith)
        requires
            -1 <= m.c1.y <= 1,
            -b <= v.x <= b,
    ;
    assert(-b <= m.c2.y * v.y <= b) by (nonlinear_arith)
        requires
            -1 <= m.c2.y <= 1,
            -b <= v.y <= b,
    ;
    assert(-b <= m.c3.y * v.z <= b) by (nonlinear_arith)
        requires
            -1 <= m.c3.y <= 1,
            -b <= v.z <= b,
    ;
    assert(-b <= m.c1.z * v.x <= b) by (nonlinear_arith)
        requires
            -1 <= m.c1.z <= 1,
            -b <= v.x <= b,
    ;
    assert(-b <= m.c2.z * v.y <= b) by (nonlinear_arith)
        requires
            -1 <= m.c2.z <= 1,
            -b <= v.y <= b,
    ;
    assert(-b <= m.c3.z * v.z <= b) by (nonlinear_arith)
        requires
            -1 <= m.c3.z <= 1,
            -b <= v.z <= b,
    ;
}

/// A matrix and vector whose entries all lie within `k` have a
/// matrix-vector product whose every intermediate value is within
/// `3 * (k * k)`.
pub proof fn lemma_transform_fits_bounded(m: Mat3V, v: Vec3V, k: int)
    requires
        0 <= k,
        3 * (k * k) <= i64::MAX,
        within(m.c1, k),
        within(m.c2, k),
        within(m.c3, k),
        within(v, k),
    ensures
        transform_fits(m, v),
        within(m.transform(v), 3 * (k * k)),
{
    assert forall|a: int, x: int|
        -k <= a <= k && -k <= x <= k implies -(k * k) <= #[trigger] (a * x) <= k * k by {
        assert(-(k * k) <= a * x <= k * k) by (nonlinear_arith)
            requires
                -k <= a <= k,
                -k <= x <= k,
        ;
    }
}

/// A matrix whose entries all lie within `k` has a determinant whose
/// every intermediate value is within `6 * (k * (k * k))`.
pub proof fn lemma_determinant_fits_bounded(m: Mat3V, k: int)
    requires
        0 <= k,
        6 * (k * (k * k)) <= i64::MAX,
        within(m.c1, k),
        within(m.c2, k),
        within(m.c3, k),
    ensures
        determinant_fits(m),
{
    assert forall|a: int, x: int|
        -k <= a <= k && -k <= x <= k implies -(k * k) <= #[trigger] (a * x) <= k * k by {
        assert(-(k * k) <= a * x <= k * k) by (nonlinear_arith)
            requires
                -k <= a <= k,
                -k <= x <= k,
        ;
    }
    assert forall|a: int, x: int|
        -k <= a <= k && -(2 * (k * k)) <= x <= 2 * (k * k) implies -(2 * (k * (k * k))) <= #[trigger] (a * x)
            <= 2 * (k * (k * k)) by {
        assert(-(2 * (k * (k * k))) <= a * x <= 2 * (k * (k * k))) by (nonlinear_arith)
            requires
                0 <= k,
                -k <= a <= k,
                -(2 * (k * k)) <= x <= 2 * (k * k),
        ;
    }
}

/// The coordinate bound under which `rotate` is free of overflow: one
/// translation doubles the bound, each of the three rotations can
/// triple it, and the final translation adds one bound more, a factor
/// of 55 in all, which still fits in an `i64`.
pub proof fn lemma_rotate_fits_bounded(point: Vec3V, origin: Vec3V, rotation: Vec3V, b: int)
    requires
        0 <= b,
        55 * b <= i64::MAX,
        within(point, b),
        within(origin, b),
    ensures
        rotate_fits(point, origin, rotation),
        within(rotate_spec(point, origin, rotation), 55 * b),
{
    lemma_rotation_entries_are_signed_units(rotation.x);
    lemma_rotation_entries_are_signed_units(rotation.y);
    lemma_rotation_entries_are_signed_units(rotation.z);
    let d = point.sub(origin);
    assert(within(d, 2 * b));
    lemma_signed_unit_transform_bounded(z_rotation(rotation.z), d, 2 * b);
    let r1 = z_rotation(rotation.z).transform(d);
    lemma_signed_unit_transform_bounded(y_rotation(rotation.y), r1, 6 * b);
    let r2 = y_rotation(rotation.y).transform(r1);
    lemma_signed_unit_transform_bounded(x_rotation(rotation.x), r2, 18 * b);
}

/// The identity matrix maps every vector to itself.
pub proof fn lemma_id_transform(m: Mat3V, v: Vec3V)
    requires
        m == mat_from_rows(1, 0, 0, 0, 1, 0, 0, 0, 1),
    ensures
        m.transform(v) == v,
{
    assert(m.transform(v).x == v.x) by (nonlinear_arith)
        requires
            m.c1.x == 1 && m.c2.x == 0 && m.c3.x == 0,
            m.transform(v).x == m.c1.x * v.x + m.c2.x * v.y + m.c3.x * v.z,
    ;
    assert(m.transform(v).y == v.y) by (nonlinear_arith)
        requires
            m.c1.y == 0 && m.c2.y == 1 && m.c3.y == 0,
            m.transform(v).y == m.c1.y * v.x + m.c2.y * v.y + m.c3.y * v.z,
    ;
    assert(m.transform(v).z == v.z) by (nonlinear_arith)
        requires
            m.c1.z == 0 && m.c2.z == 0 && m.c3.z == 1,
            m.transform(v).z == m.c1.z * v.x + m.c2.z * v.y + m.c3.z * v.z,
    ;
}

/// Rotating by zero quarter turns about every axis returns the point
/// unchanged, whatever the origin.
pub proof fn lemma_rotate_identity(point: Vec3V, origin: Vec3V)
    ensures
        rotate_spec(point, origin, Vec3V { x: 0, y: 0, z: 0 }) == point,
{
    let d = point.sub(origin);
    assert(cos_qt(0) == 1 && sin_qt(0) == 0);
    lemma_id_transform(z_rotation(0), d);
    lemma_id_transform(y_rotation(0), d);
    lemma_id_transform(x_rotation(0), d);
    assert(d.add(origin) == point);
}

/// The mathematical value of a `Quaternion`.
pub struct QuatV {
    pub x: int,
    pub y: int,
    pub z: int,
    pub w: int,
}

impl QuatV {
    /// The squared Euclidean norm over all four components.
    pub open spec fn norm_sq(self) -> int {
        self.x * self.x + self.y * self.y + self.z * self.z + self.w * self.w
    }

    /// The magnitude, rounded down to an integer.
    pub open spec fn magnitude(self) -> int {
        isqrt(self.norm_sq())
    }

    /// Each component divided (truncating) by the magnitude.
    pub open spec fn normalize(self) -> QuatV {
        QuatV {
            x: tdiv(self.x, self.magnitude()),
            y: tdiv(self.y, self.magnitude()),
            z: tdiv(self.z, self.magnitude()),
            w: tdiv(self.w, self.magnitude()),
        }
    }

    /// The Hamilton product, with `w` as the scalar part.
    pub open spec fn mul(self, other: QuatV) -> QuatV {
        QuatV {
            w: self.w * other.w - self.x * other.x - self.y * other.y - self.z * other.z,
            x: self.w * other.x + self.x * other.w + self.y * other.z - self.z * other.y,
            y: self.w * other.y - self.x * other.z + self.y * other.w + self.z * other.x,
            z: self.w * other.z + self.x * other.y - self.y * other.x + self.z * other.w,
        }
    }
}

/// Every square and partial sum of the quaternion norm stays within `i64`.
pub open spec fn quat_norm_sq_fits(a: QuatV) -> bool {
    &&& in_i64(a.x * a.x)
    &&& in_i64(a.y * a.y)
    &&& in_i64(a.z * a.z)
    &&& in_i64(a.w * a.w)
    &&& in_i64(a.x * a.x + a.y * a.y)
    &&& in_i64(a.x * a.x + a.y * a.y + a.z * a.z)
    &&& in_i64(a.norm_sq())
}

/// Every product and partial sum of the Hamilton product stays within `i64`.
pub open spec fn quat_mul_fits(a: QuatV, b: QuatV) -> bool {
    &&& in_i64(a.w * b.w)
    &&& in_i64(a.x * b.x)
    &&& in_i64(a.y * b.y)
    &&& in_i64(a.z * b.z)
    &&& in_i64(a.w * b.x)
    &&& in_i64(a.x * b.w)
    &&& in_i64(a.y * b.z)
    &&& in_i64(a.z * b.y)
    &&& in_i64(a.w * b.y)
    &&& in_i64(a.x * b.z)
    &&& in_i64(a.y * b.w)
    &&& in_i64(a.z * b.x)
    &&& in_i64(a.w * b.z)
    &&& in_i64(a.x * b.y)
    &&& in_i64(a.y * b.x)
    &&& in_i64(a.z * b.w)
    &&& in_i64(a.w * b.w - a.x * b.x)
    &&& in_i64(a.w * b.w - a.x * b.x - a.y * b.y)
    &&& in_i64(a.mul(b).w)
    &&& in_i64(a.w * b.x + a.x * b.w)
    &&& in_i64(a.w * b.x + a.x * b.w + a.y * b.z)
    &&& in_i64(a.mul(b).x)
    &&& in_i64(a.w * b.y - a.x * b.z)
    &&& in_i64(a.w * b.y - a.x * b.z + a.y * b.w)
    &&& in_i64(a.mul(b).y)
    &&& in_i64(a.w * b.z + a.x * b.y)
    &&& in_i64(a.w * b.z + a.x * b.y - a.y * b.x)
    &&& in_i64(a.mul(b).z)
}

/// A quaternion of four `i64` components, `w` the scalar part.
#[derive(Copy, Clone, PartialEq, Eq, Structural, Debug)]
pub struct Quaternion {
    pub x: i64,
    pub y: i64,
    pub z: i64,
    pub w: i64,
}

impl View for Quaternion {
    type V = QuatV;

    open spec fn view(&self) -> QuatV {
        QuatV { x: self.x as int, y: self.y as int, z: self.z as int, w: self.w as int }
    }
}

impl Quaternion {
    /// Creates a new quaternion from its four components.
    pub fn new(x: i64, y: i64, z: i64, w: i64) -> (r: Quaternion)
        ensures
            r.x == x,
            r.y == y,
            r.z == z,
            r.w == w,
    {
        Quaternion { x, y, z, w }
    }

    /// Returns the magnitude of this quaternion, rounded down to an
    /// integer.
    pub fn magnitude(&self) -> (r: i64)
        requires
            quat_norm_sq_fits(self@),
        ensures
            r == self@.magnitude(),
            is_isqrt(self@.norm_sq(), r as int),
    {
        let sq: i64 = self.x * self.x + self.y * self.y + self.z * self.z + self.w * self.w;
        proof {
            assert(sq >= 0) by (nonlinear_arith)
                requires
                    sq == self.x * self.x + self.y * self.y + self.z * self.z + self.w * self.w,
            ;
        }
        let root: u64 = isqrt_u64(sq as u64);
        proof {
            assert(root * root <= sq);
            assert(root <= i64::MAX) by (nonlinear_arith)
                requires
                    root * root <= sq,
                    sq <= i64::MAX,
                    root >= 0,
            ;
        }
        root as i64
    }

    /// Returns a normalized version of this quaternion: each component
    /// divided (truncating) by the magnitude, which must be nonzero.
    pub fn normalize(&self) -> (r: Quaternion)
        requires
            quat_norm_sq_fits(self@),
            self@.magnitude() != 0,
        ensures
            r@ == self@.normalize(),
    {
        let mag: i64 = self.magnitude();
        proof {
            lemma_tdiv_bounds(self.x as int, mag as int);
            lemma_tdiv_bounds(self.y as int, mag as int);
            lemma_tdiv_bounds(self.z as int, mag as int);
            lemma_tdiv_bounds(self.w as int, mag as int);
        }
        Quaternion::new(
            div_i64(self.x, mag),
            div_i64(self.y, mag),
            div_i64(self.z, mag),
            div_i64(self.w, mag),
        )
    }

    /// Multiplies this quaternion by another: the Hamilton product.
    pub fn mul(&self, other: Quaternion) -> (r: Quaternion)
        requires
            quat_mul_fits(self@, other@),
        ensures
            r@ == self@.mul(other@),
    {
        Quaternion::new(
            self.w * other.x + self.x * other.w + self.y * other.z - self.z * other.y,
            self.w * other.y - self.x * other.z + self.y * other.w + self.z * other.x,
            self.w * other.z + self.x * other.y - self.y * other.x + self.z * other.w,
            self.w * other.w - self.x * other.x - self.y * other.y - self.z * other.z,
        )
    }
}

} // verus!
