//! Three-component vectors with exact integer algebra.

use vstd::prelude::*;

use crate::num::div_i64;
use crate::num::in_i64;
use crate::num::is_isqrt;
use crate::num::isqrt;
use crate::num::isqrt_u64;
use crate::num::lemma_isqrt_of_witness;
use crate::num::lemma_tdiv_bounds;
use crate::num::tdiv;

verus! {

/// The mathematical value of a `Vec3`: a vector of three integers.
pub struct Vec3V {
    pub x: int,
    pub y: int,
    pub z: int,
}

impl Vec3V {
    pub open spec fn add(self, other: Vec3V) -> Vec3V {
        Vec3V { x: self.x + other.x, y: self.y + other.y, z: self.z + other.z }
    }

    pub open spec fn sub(self, other: Vec3V) -> Vec3V {
        Vec3V { x: self.x - other.x, y: self.y - other.y, z: self.z - other.z }
    }

    pub open spec fn neg(self) -> Vec3V {
        Vec3V { x: -self.x, y: -self.y, z: -self.z }
    }

    pub open spec fn scale(self, s: int) -> Vec3V {
        Vec3V { x: self.x * s, y: self.y * s, z: self.z * s }
    }

    /// Component-wise truncating division by a scalar.
    pub open spec fn scale_div(self, s: int) -> Vec3V {
        Vec3V { x: tdiv(self.x, s), y: tdiv(self.y, s), z: tdiv(self.z, s) }
    }

    pub open spec fn dot(self, other: Vec3V) -> int {
        self.x * other.x + self.y * other.y + self.z * other.z
    }

    /// The standard right-handed cross product.
    pub open spec fn cross(self, other: Vec3V) -> Vec3V {
        Vec3V {
            x: self.y * other.z - self.z * other.y,
            y: self.z * other.x - self.x * other.z,
            z: self.x * other.y - self.y * other.x,
        }
    }

    /// The squared Euclidean norm.
    pub open spec fn norm_sq(self) -> int {
        self.x * self.x + self.y * self.y + self.z * self.z
    }

    /// The magnitude, rounded down to an integer.
    pub open spec fn magnitude(self) -> int {
        isqrt(self.norm_sq())
    }

    /// The unit-direction vector, each component divided (truncating)
    /// by the magnitude.
    pub open spec fn to_unit(self) -> Vec3V {
        self.scale_div(self.magnitude())
    }
}

/// The sums `a + b` computes stay within `i64`.
pub open spec fn add_fits(a: Vec3V, b: Vec3V) -> bool {
    &&& in_i64(a.x + b.x)
    &&& in_i64(a.y + b.y)
    &&& in_i64(a.z + b.z)
}

/// The differences `a - b` computes stay within `i64`.
pub open spec fn sub_fits(a: Vec3V, b: Vec3V) -> bool {
    &&& in_i64(a.x - b.x)
    &&& in_i64(a.y - b.y)
    &&& in_i64(a.z - b.z)
}

/// Every product and partial sum of the dot product stays within `i64`.
pub open spec fn dot_fits(a: Vec3V, b: Vec3V) -> bool {
    &&& in_i64(a.x * b.x)
    &&& in_i64(a.y * b.y)
    &&& in_i64(a.z * b.z)
    &&& in_i64(a.x * b.x + a.y * b.y)
    &&& in_i64(a.dot(b))
}

/// Every product and difference of the cross product stays within `i64`.
pub open spec fn cross_fits(a: Vec3V, b: Vec3V) -> bool {
    &&& in_i64(a.y * b.z)
    &&& in_i64(a.z * b.y)
    &&& in_i64(a.z * b.x)
    &&& in_i64(a.x * b.z)
    &&& in_i64(a.x * b.y)
    &&& in_i64(a.y * b.x)
    &&& in_i64(a.cross(b).x)
    &&& in_i64(a.cross(b).y)
    &&& in_i64(a.cross(b).z)
}

/// Every square and partial sum of the squared norm stays within `i64`.
pub open spec fn norm_sq_fits(a: Vec3V) -> bool {
    &&& in_i64(a.x * a.x)
    &&& in_i64(a.y * a.y)
    &&& in_i64(a.z * a.z)
    &&& in_i64(a.x * a.x + a.y * a.y)
    &&& in_i64(a.norm_sq())
}

/// The products of a scalar multiplication stay within `i64`.
pub open spec fn scale_fits(a: Vec3V, s: int) -> bool {
    &&& in_i64(a.x * s)
    &&& in_i64(a.y * s)
    &&& in_i64(a.z * s)
}

/// A vector of three `i64` components.
#[derive(Copy, Clone, PartialEq, Eq, Structural, Debug)]
pub struct Vec3 {
    pub x: i64,
    pub y: i64,
    pub z: i64,
}

impl View for Vec3 {
    type V = Vec3V;

    open spec fn view(&self) -> Vec3V {
        Vec3V { x: self.x as int, y: self.y as int, z: self.z as int }
    }
}

impl Vec3 {
    /// Creates a new `Vec3` from its three components.
    pub fn new(x: i64, y: i64, z: i64) -> (r: Vec3)
        ensures
            r.x == x,
            r.y == y,
            r.z == z,
    {
        Vec3 { x, y, z }
    }

    /// Computes the dot product of two `Vec3`s.
    pub fn dot(&self, other: &Vec3) -> (r: i64)
        requires
            dot_fits(self@, other@),
        ensures
            r == self@.dot(other@),
    {
        self.x * other.x + self.y * other.y + self.z * other.z
    }

    /// Computes the cross product of two `Vec3`s.
    pub fn cross(&self, other: &Vec3) -> (r: Vec3)
        requires
            cross_fits(self@, other@),
        ensures
            r@ == self@.cross(other@),
    {
        Vec3::new(
            self.y * other.z - self.z * other.y,
            self.z * other.x - self.x * other.z,
            self.x * other.y - self.y * other.x,
        )
    }

    /// Computes the magnitude of a `Vec3`, rounded down to an integer.
    pub fn magnitude(&self) -> (r: i64)
        requires
            norm_sq_fits(self@),
        ensures
            r == self@.magnitude(),
            is_isqrt(self@.norm_sq(), r as int),
    {
        let sq: i64 = self.x * self.x + self.y * self.y + self.z * self.z;
        proof {
            assert(sq >= 0) by (nonlinear_arith)
                requires
                    sq == self.x * self.x + self.y * self.y + self.z * self.z,
            ;
        }
        let root: u64 = isqrt_u64(sq as u64);
        proof {
            assert(root * root <= sq);
            assert(root <= i64::MAX) by (nonlinear_arith)
                requires
                    root * root <= sq,
                    sq <= i64::MAX,
                    root >= 0,
            ;
        }
        root as i64
    }

    /// Returns the unit-direction vector: each component divided
    /// (truncating) by the magnitude. The magnitude must be nonzero,
    /// which holds exactly when some component is nonzero.
    pub fn to_unit(&self) -> (r: Vec3)
        requires
            norm_sq_fits(self@),
            self@.magnitude() != 0,
        ensures
            r@ == self@.to_unit(),
    {
        let magnitude: i64 = self.magnitude();
        proof {
            lemma_tdiv_bounds(self.x as int, magnitude as int);
            lemma_tdiv_bounds(self.y as int, magnitude as int);
            lemma_tdiv_bounds(self.z as int, magnitude as int);
        }
        Vec3::new(
            div_i64(self.x, magnitude),
            div_i64(self.y, magnitude),
            div_i64(self.z, magnitude),
        )
    }

    /// Returns this vector multiplied by a scalar.
    pub fn mul(&self, scalar: i64) -> (r: Vec3)
        requires
            scale_fits(self@, scalar as int),
        ensures
            r@ == self@.scale(scalar as int),
    {
        Vec3::new(self.x * scalar, self.y * scalar, self.z * scalar)
    }

    /// Multiplies this vector by a scalar in place.
    pub fn mul_eq(&mut self, scalar: i64)
        requires
            scale_fits(old(self)@, scalar as int),
        ensures
            final(self)@ == old(self)@.scale(scalar as int),
    {
        self.x = self.x * scalar;
        self.y = self.y * scalar;
        self.z = self.z * scalar;
    }

    /// Returns this vector divided (truncating) by a scalar.
    pub fn div(&self, scalar: i64) -> (r: Vec3)
        requires
            scalar != 0,
            in_i64(tdiv(self@.x, scalar as int)),
            in_i64(tdiv(self@.y, scalar as int)),
            in_i64(tdiv(self@.z, scalar as int)),
        ensures
            r@ == self@.scale_div(scalar as int),
    {
        Vec3::new(
            div_i64(self.x, scalar),
            div_i64(self.y, scalar),
            div_i64(self.z, scalar),
        )
    }

    /// Divides this vector (truncating) by a scalar in place.
    pub fn div_eq(&mut self, scalar: i64)
        requires
            scalar != 0,
            in_i64(tdiv(old(self)@.x, scalar as int)),
            in_i64(tdiv(old(self)@.y, scalar as int)),
            in_i64(tdiv(old(self)@.z, scalar as int)),
        ensures
            final(self)@ == old(self)@.scale_div(scalar as int),
    {
        self.x = div_i64(self.x, scalar);
        self.y = div_i64(self.y, scalar);
        self.z = div_i64(self.z, scalar);
    }

    /// Returns the component-wise sum of two vectors.
    pub fn add(&self, other: &Vec3) -> (r: Vec3)
        requires
            add_fits(self@, other@),
        ensures
            r@ == self@.add(other@),
    {
        Vec3::new(self.x + other.x, self.y + other.y, self.z + other.z)
    }

    /// Adds another vector to this one in place.
    pub fn add_assign(&mut self, other: &Vec3)
        requires
            add_fits(old(self)@, other@),
        ensures
            final(self)@ == old(self)@.add(other@),
    {
        self.x = self.x + other.x;
        self.y = self.y + other.y;
        self.z = self.z + other.z;
    }

    /// Returns the component-wise difference of two vectors.
    pub fn sub(&self, other: &Vec3) -> (r: Vec3)
        requires
            sub_fits(self@, other@),
        ensures
            r@ == self@.sub(other@),
    {
        Vec3::new(self.x - other.x, self.y - other.y, self.z - other.z)
    }

    /// Subtracts another vector from this one in place.
    pub fn sub_assign(&mut self, other: &Vec3)
        requires
            sub_fits(old(self)@, other@),
        ensures
            final(self)@ == old(self)@.sub(other@),
    {
        self.x = self.x - other.x;
        self.y = self.y - other.y;
        self.z = self.z - other.z;
    }
}

/// Componentwise bound: every coordinate of `v` lies in `[-k, k]`.
pub open spec fn within(v: Vec3V, k: int) -> bool {
    &&& -k <= v.x <= k
    &&& -k <= v.y <= k
    &&& -k <= v.z <= k
}

/// Vectors with coordinates within `k` have a dot product whose every
/// intermediate value is within `3 * (k * k)`.
pub proof fn lemma_dot_fits_bounded(a: Vec3V, b: Vec3V, k: int)
    requires
        0 <= k,
        3 * (k * k) <= i64::MAX,
        within(a, k),
        within(b, k),
    ensures
        dot_fits(a, b),
{
    assert(-(k * k) <= a.x * b.x <= k * k) by (nonlinear_arith)
        requires
            -k <= a.x <= k,
            -k <= b.x <= k,
    ;
    assert(-(k * k) <= a.y * b.y <= k * k) by (nonlinear_arith)
        requires
            -k <= a.y <= k,
            -k <= b.y <= k,
    ;
    assert(-(k * k) <= a.z * b.z <= k * k) by (nonlinear_arith)
        requires
            -k <= a.z <= k,
            -k <= b.z <= k,
    ;
}

/// Vectors with coordinates within `k` have a cross product whose
/// every intermediate value is within `2 * (k * k)`.
pub proof fn lemma_cross_fits_bounded(a: Vec3V, b: Vec3V, k: int)
    requires
        0 <= k,
        2 * (k * k) <= i64::MAX,
        within(a, k),
        within(b, k),
    ensures
        cross_fits(a, b),
        within(a.cross(b), 2 * (k * k)),
{
    assert(-(k * k) <= a.y * b.z <= k * k) by (nonlinear_arith)
        requires
            -k <= a.y <= k,
            -k <= b.z <= k,
    ;
    assert(-(k * k) <= a.z * b.y <= k * k) by (nonlinear_arith)
        requires
            -k <= a.z <= k,
            -k <= b.y <= k,
    ;
    assert(-(k * k) <= a.z * b.x <= k * k) by (nonlinear_arith)
        requires
            -k <= a.z <= k,
            -k <= b.x <= k,
    ;
    assert(-(k * k) <= a.x * b.z <= k * k) by (nonlinear_arith)
        requires
            -k <= a.x <= k,
            -k <= b.z <= k,
    ;
    assert(-(k * k) <= a.x * b.y <= k * k) by (nonlinear_arith)
        requires
            -k <= a.x <= k,
            -k <= b.y <= k,
    ;
    assert(-(k * k) <= a.y * b.x <= k * k) by (nonlinear_arith)
        requires
            -k <= a.y <= k,
            -k <= b.x <= k,
    ;
}

/// A vector with coordinates within `k` has a squared norm whose every
/// intermediate value is within `3 * (k * k)`.
pub proof fn lemma_norm_sq_fits_bounded(a: Vec3V, k: int)
    requires
        0 <= k,
        3 * (k * k) <= i64::MAX,
        within(a, k),
    ensures
        norm_sq_fits(a),
{
    assert(0 <= a.x * a.x <= k * k) by (nonlinear_arith)
        requires
            -k <= a.x <= k,
    ;
    assert(0 <= a.y * a.y <= k * k) by (nonlinear_arith)
        requires
            -k <= a.y <= k,
    ;
    assert(0 <= a.z * a.z <= k * k) by (nonlinear_arith)
        requires
            -k <= a.z <= k,
    ;
}

/// The dot product is commutative.
pub proof fn lemma_dot_comm(a: Vec3V, b: Vec3V)
    ensures
        a.dot(b) == b.dot(a),
{
    assert(a.x * b.x == b.x * a.x) by (nonlinear_arith);
    assert(a.y * b.y == b.y * a.y) by (nonlinear_arith);
    assert(a.z * b.z == b.z * a.z) by (nonlinear_arith);
}

/// The cross product is antisymmetric: swapping the arguments negates
/// every component.
pub proof fn lemma_cross_antisym(a: Vec3V, b: Vec3V)
    ensures
        a.cross(b) == b.cross(a).neg(),
{
    assert(a.y * b.z == b.z * a.y) by (nonlinear_arith);
    assert(a.z * b.y == b.y * a.z) by (nonlinear_arith);
    assert(a.z * b.x == b.x * a.z) by (nonlinear_arith);
    assert(a.x * b.z == b.z * a.x) by (nonlinear_arith);
    assert(a.x * b.y == b.y * a.x) by (nonlinear_arith);
    assert(a.y * b.x == b.x * a.y) by (nonlinear_arith);
}

/// For a nonzero scalar `c`, the integer square root of `c * c` is the
/// absolute value of `c`, and dividing `c` by it yields its sign.
proof fn lemma_axis_sqrt(c: int)
    requires
        c != 0,
    ensures
        isqrt(c * c) >= 1,
        tdiv(c, isqrt(c * c)) == 1 || tdiv(c, isqrt(c * c)) == -1,
        tdiv(c, isqrt(c * c)) * tdiv(c, isqrt(c * c)) == 1,
{
    let m: int = if c >= 0 { c } else { -c };
    assert(m * m == c * c && m >= 1) by (nonlinear_arith)
        requires
            c != 0,
            (c >= 0 && m == c) || (c < 0 && m == -c),
    ;
    assert(is_isqrt(c * c, m)) by (nonlinear_arith)
        requires
            m * m == c * c,
            m >= 1,
    ;
    lemma_isqrt_of_witness(c * c, m);
    assert(m / m == 1) by (nonlinear_arith)
        requires
            m >= 1,
    ;
    if c > 0 {
        assert(tdiv(c, m) == 1);
    } else {
        assert(tdiv(c, m) == ((c * -1) / m) * -1);
        assert(tdiv(c, m) == -1);
    }
}

/// For a vector along a coordinate axis, the unit-direction vector has
/// magnitude exactly one. (For general vectors the truncating integer
/// division makes the unit vector a rounded direction only.)
pub proof fn lemma_to_unit_axis(v: Vec3V)
    requires
        (v.x != 0 && v.y == 0 && v.z == 0)
        || (v.x == 0 && v.y != 0 && v.z == 0)
        || (v.x == 0 && v.y == 0 && v.z != 0),
    ensures
        v.to_unit().norm_sq() == 1,
        v.to_unit().magnitude() == 1,
{
    let c: int = if v.x != 0 { v.x } else if v.y != 0 { v.y } else { v.z };
    assert(v.norm_sq() == c * c) by (nonlinear_arith)
        requires
            v.norm_sq() == v.x * v.x + v.y * v.y + v.z * v.z,
            (v.x == c && v.y == 0 && v.z == 0)
            || (v.x == 0 && v.y == c && v.z == 0)
            || (v.x == 0 && v.y == 0 && v.z == c),
    ;
    lemma_axis_sqrt(c);
    let m: int = v.magnitude();
    assert(m >= 1);
    assert(tdiv(0, m) == 0);
    let u: Vec3V = v.to_unit();
    assert(u.norm_sq() == 1) by (nonlinear_arith)
        requires
            u.norm_sq() == u.x * u.x + u.y * u.y + u.z * u.z,
            (u.x * u.x == 1 && u.y == 0 && u.z == 0)
            || (u.x == 0 && u.y * u.y == 1 && u.z == 0)
            || (u.x == 0 && u.y == 0 && u.z * u.z == 1),
    ;
    assert(is_isqrt(1, 1));
    lemma_isqrt_of_witness(u.norm_sq(), 1);
}

} // verus!
