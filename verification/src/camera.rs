//! The pinhole camera and its world-to-screen transform.

use vstd::prelude::*;

use crate::matrix::euler_rotation_spec;
use crate::matrix::cos_qt_i64;
use crate::matrix::lemma_id_transform;
use crate::matrix::sin_qt_i64;
use crate::matrix::transform_fits;
use crate::matrix::x_rotation;
use crate::matrix::y_rotation;
use crate::matrix::z_rotation;
use crate::matrix::Matrix3x3;
use crate::num::div_i64;
use crate::num::in_i64;
use crate::num::tdiv;
use crate::vec::sub_fits;
use crate::vec::Vec3;
use crate::vec::Vec3V;

verus! {

/// Where `transform` takes a world point: offset against the camera
/// position, rotated about Z, then Y, then X, projected onto the image
/// plane at distance `sz` from the camera, and divided by depth. The
/// result's x and y are screen coordinates; its z is the camera-space
/// depth of the point, in units of the image-plane distance.
pub open spec fn camera_transform_spec(position: Vec3V, sz: int, rotation: Vec3V, p: Vec3V) -> Vec3V {
    let r = euler_rotation_spec(rotation, p.sub(position));
    let pz = tdiv(r.z, sz);
    Vec3V { x: tdiv(r.x, pz), y: tdiv(r.y, pz), z: pz }
}

/// Every intermediate value of `transform` stays within `i64`, and the
/// two depth divisions are defined: the image-plane distance is nonzero
/// and the point is not on the camera's focal plane.
pub open spec fn camera_transform_fits(position: Vec3V, sz: int, rotation: Vec3V, p: Vec3V) -> bool {
    let d = p.sub(position);
    let rz = z_rotation(rotation.z).transform(d);
    let ry = y_rotation(rotation.y).transform(rz);
    let rx = x_rotation(rotation.x).transform(ry);
    let pz = tdiv(rx.z, sz);
    &&& sub_fits(p, position)
    &&& transform_fits(z_rotation(rotation.z), d)
    &&& transform_fits(y_rotation(rotation.y), rz)
    &&& transform_fits(x_rotation(rotation.x), ry)
    &&& sz != 0
    &&& in_i64(pz)
    &&& pz != 0
    &&& in_i64(tdiv(rx.x, pz))
    &&& in_i64(tdiv(rx.y, pz))
}

/// A camera: a position, an image plane offset along the view axis,
/// quarter-turn Euler rotation angles, and rotation matrices cached
/// from those angles. The pinhole projection itself is applied in
/// closed form — a division by the image-plane distance — rather than
/// through a cached matrix, whose entries would not be integers.
pub struct Camera {
    pub position: Vec3,
    pub surface_offset: Vec3,
    pub rotation: Vec3,
    pub x_rotation_matrix: Matrix3x3,
    pub y_rotation_matrix: Matrix3x3,
    pub z_rotation_matrix: Matrix3x3,
}

impl Camera {
    /// The image plane sits straight ahead of the camera: its offset
    /// has no x or y component.
    pub open spec fn surface_centered(self) -> bool {
        self.surface_offset@.x == 0 && self.surface_offset@.y == 0
    }

    /// The cached matrices are those derived from `rotation`. Mutating
    /// `rotation` leaves them stale until `recalculate_matrices` runs;
    /// `transform` demands that they are current.
    pub open spec fn matrices_current(self) -> bool {
        &&& self.x_rotation_matrix@ == x_rotation(self.rotation@.x)
        &&& self.y_rotation_matrix@ == y_rotation(self.rotation@.y)
        &&& self.z_rotation_matrix@ == z_rotation(self.rotation@.z)
    }

    /// The camera is well formed: centered image plane and current
    /// cached matrices.
    pub open spec fn wf(self) -> bool {
        self.matrices_current() && self.surface_centered()
    }

    /// Creates a new `Camera` from its position, the distance from the
    /// camera to its image plane, and its quarter-turn Euler rotation.
    /// Under the pinhole model the distance derives from the vertical
    /// field of view as `1 / tan(fov / 2)`; the caller supplies it
    /// directly, since it is rarely an integer.
    pub fn new(position: Vec3, surface_distance: i64, rotation: Vec3) -> (r: Camera)
        ensures
            r.wf(),
            r.position == position,
            r.rotation == rotation,
            r.surface_offset@ == (Vec3V { x: 0, y: 0, z: surface_distance as int }),
    {
        let xc: i64 = cos_qt_i64(rotation.x);
        let xs: i64 = sin_qt_i64(rotation.x);
        let yc: i64 = cos_qt_i64(rotation.y);
        let ys: i64 = sin_qt_i64(rotation.y);
        let zc: i64 = cos_qt_i64(rotation.z);
        let zs: i64 = sin_qt_i64(rotation.z);
        let x_rotation_matrix: Matrix3x3 = Matrix3x3::direct_new(1, 0, 0, 0, xc, xs, 0, -xs, xc);
        let y_rotation_matrix: Matrix3x3 = Matrix3x3::direct_new(yc, 0, -ys, 0, 1, 0, ys, 0, yc);
        let z_rotation_matrix: Matrix3x3 = Matrix3x3::direct_new(zc, zs, 0, -zs, zc, 0, 0, 0, 1);
        let surface_offset: Vec3 = Vec3::new(0, 0, surface_distance);
        Camera {
            position,
            surface_offset,
            rotation,
            x_rotation_matrix,
            y_rotation_matrix,
            z_rotation_matrix,
        }
    }

    /// Rebuilds the cached rotation matrices from the current
    /// `rotation` angles. Callers that mutate `rotation` must invoke
    /// this before the next `transform`.
    pub fn recalculate_matrices(&mut self)
        ensures
            final(self).matrices_current(),
            final(self).position == old(self).position,
            final(self).surface_offset == old(self).surface_offset,
            final(self).rotation == old(self).rotation,
    {
        let xc: i64 = cos_qt_i64(self.rotation.x);
        let xs: i64 = sin_qt_i64(self.rotation.x);
        let yc: i64 = cos_qt_i64(self.rotation.y);
        let ys: i64 = sin_qt_i64(self.rotation.y);
        let zc: i64 = cos_qt_i64(self.rotation.z);
        let zs: i64 = sin_qt_i64(self.rotation.z);
        self.x_rotation_matrix = Matrix3x3::direct_new(1, 0, 0, 0, xc, xs, 0, -xs, xc);
        self.y_rotation_matrix = Matrix3x3::direct_new(yc, 0, -ys, 0, 1, 0, ys, 0, yc);
        self.z_rotation_matrix = Matrix3x3::direct_new(zc, zs, 0, -zs, zc, 0, 0, 0, 1);
    }

    /// Transforms a point from world space to screen space: the
    /// result's x and y are screen coordinates, its z the camera-space
    /// depth.
    pub fn transform(&self, point: Vec3) -> (r: Vec3)
        requires
            self.wf(),
            camera_transform_fits(
                self.position@,
                self.surface_offset@.z,
                self.rotation@,
                point@,
            ),
        ensures
            r@ == camera_transform_spec(
                self.position@,
                self.surface_offset@.z,
                self.rotation@,
                point@,
            ),
    {
        let offset_vector: Vec3 = point.sub(&self.position);
        let rotated_vector: Vec3 = self.x_rotation_matrix.transform(
            &self.y_rotation_matrix.transform(&self.z_rotation_matrix.transform(&offset_vector)),
        );
        let pz: i64 = div_i64(rotated_vector.z, self.surface_offset.z);
        Vec3::new(div_i64(rotated_vector.x, pz), div_i64(rotated_vector.y, pz), pz)
    }
}

/// A camera at the origin with zero rotation maps every point straight
/// ahead of it on the view axis to the center of the screen, at a
/// positive depth.
pub proof fn lemma_on_axis_point_maps_to_center(sz: int, depth: int)
    requires
        1 <= sz <= depth,
    ensures
        ({
            let origin = Vec3V { x: 0, y: 0, z: 0 };
            let r = camera_transform_spec(origin, sz, origin, Vec3V { x: 0, y: 0, z: depth });
            r.x == 0 && r.y == 0 && r.z >= 1
        }),
{
    let origin = Vec3V { x: 0, y: 0, z: 0 };
    let p = Vec3V { x: 0, y: 0, z: depth };
    let d = p.sub(origin);
    lemma_id_transform(z_rotation(0), d);
    lemma_id_transform(y_rotation(0), d);
    lemma_id_transform(x_rotation(0), d);
    assert(euler_rotation_spec(origin, d) == d);
    vstd::arithmetic::div_mod::lemma_div_non_zero(depth, sz);
    assert(tdiv(depth, sz) == depth / sz);
    assert(tdiv(0, tdiv(depth, sz)) == 0);
}

} // verus!
