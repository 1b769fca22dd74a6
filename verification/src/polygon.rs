//! Triangles, meshes, and the projection from world space to pixels.

use vstd::prelude::*;

use crate::camera::camera_transform_fits;
use crate::camera::camera_transform_spec;
use crate::camera::Camera;
use crate::matrix::rotate;
use crate::matrix::rotate_fits;
use crate::matrix::rotate_spec;
use crate::num::in_i64;
use crate::vec::add_fits;
use crate::vec::Vec3;
use crate::vec::Vec3V;

verus! {

/// The mathematical value of a `Triangle`.
pub struct TriV {
    pub v1: Vec3V,
    pub v2: Vec3V,
    pub v3: Vec3V,
}

/// A single triangle, its vertices in mesh-local space.
#[derive(Copy, Clone, PartialEq, Eq, Structural, Debug)]
pub struct Triangle {
    pub v1: Vec3,
    pub v2: Vec3,
    pub v3: Vec3,
}

impl View for Triangle {
    type V = TriV;

    open spec fn view(&self) -> TriV {
        TriV { v1: self.v1@, v2: self.v2@, v3: self.v3@ }
    }
}

/// The mathematical value of a `ScreenPoint`.
pub struct ScreenPointV {
    pub x: int,
    pub y: int,
}

/// An integer pixel position on the drawing surface.
#[derive(Copy, Clone, PartialEq, Eq, Structural, Debug)]
pub struct ScreenPoint {
    pub x: i64,
    pub y: i64,
}

impl View for ScreenPoint {
    type V = ScreenPointV;

    open spec fn view(&self) -> ScreenPointV {
        ScreenPointV { x: self.x as int, y: self.y as int }
    }
}

/// The mathematical value of a `ScreenTriangle`.
pub struct ScreenTriV {
    pub p1: ScreenPointV,
    pub p2: ScreenPointV,
    pub p3: ScreenPointV,
}

/// A projected triangle: the three pixel positions of its vertices.
/// The wireframe consists of the segments p1-p2, p2-p3 and p3-p1.
#[derive(Copy, Clone, PartialEq, Eq, Structural, Debug)]
pub struct ScreenTriangle {
    pub p1: ScreenPoint,
    pub p2: ScreenPoint,
    pub p3: ScreenPoint,
}

impl View for ScreenTriangle {
    type V = ScreenTriV;

    open spec fn view(&self) -> ScreenTriV {
        ScreenTriV { p1: self.p1@, p2: self.p2@, p3: self.p3@ }
    }
}

/// The map from a normalized screen coordinate to a pixel: `-1` maps
/// to `0`, `0` to `half_extent`, and `1` to `2 * half_extent`.
pub open spec fn calc_pt_spec(v: Vec3V, half_extent: int) -> ScreenPointV {
    ScreenPointV { x: (v.x + 1) * half_extent, y: (v.y + 1) * half_extent }
}

/// Every intermediate value of `calc_pt` stays within `i64`.
pub open spec fn calc_pt_fits(v: Vec3V, half_extent: int) -> bool {
    &&& in_i64(v.x + 1)
    &&& in_i64(v.y + 1)
    &&& in_i64((v.x + 1) * half_extent)
    &&& in_i64((v.y + 1) * half_extent)
}

/// Maps a transformed point's normalized x and y to pixel coordinates
/// on a viewport of `2 * half_extent` pixels per side.
pub fn calc_pt(v: Vec3, half_extent: i64) -> (r: ScreenPoint)
    requires
        calc_pt_fits(v@, half_extent as int),
    ensures
        r@ == calc_pt_spec(v@, half_extent as int),
{
    ScreenPoint { x: (v.x + 1) * half_extent, y: (v.y + 1) * half_extent }
}

/// The pixel position of one mesh-local vertex: translated by the mesh
/// position, rotated about it, transformed by the camera, and mapped
/// to pixels.
pub open spec fn vertex_pixel_spec(
    v: Vec3V,
    origin: Vec3V,
    rotation: Vec3V,
    cam: Camera,
    half_extent: int,
) -> ScreenPointV {
    calc_pt_spec(
        camera_transform_spec(
            cam.position@,
            cam.surface_offset@.z,
            cam.rotation@,
            rotate_spec(v.add(origin), origin, rotation),
        ),
        half_extent,
    )
}

/// Every intermediate value of one vertex's projection stays within
/// `i64` and both depth divisions are defined.
pub open spec fn vertex_pixel_fits(
    v: Vec3V,
    origin: Vec3V,
    rotation: Vec3V,
    cam: Camera,
    half_extent: int,
) -> bool {
    &&& add_fits(v, origin)
    &&& rotate_fits(v.add(origin), origin, rotation)
    &&& camera_transform_fits(
        cam.position@,
        cam.surface_offset@.z,
        cam.rotation@,
        rotate_spec(v.add(origin), origin, rotation),
    )
    &&& calc_pt_fits(
        camera_transform_spec(
            cam.position@,
            cam.surface_offset@.z,
            cam.rotation@,
            rotate_spec(v.add(origin), origin, rotation),
        ),
        half_extent,
    )
}

/// The three projected vertices of a triangle.
pub open spec fn triangle_pixels_spec(
    t: TriV,
    origin: Vec3V,
    rotation: Vec3V,
    cam: Camera,
    half_extent: int,
) -> ScreenTriV {
    ScreenTriV {
        p1: vertex_pixel_spec(t.v1, origin, rotation, cam, half_extent),
        p2: vertex_pixel_spec(t.v2, origin, rotation, cam, half_extent),
        p3: vertex_pixel_spec(t.v3, origin, rotation, cam, half_extent),
    }
}

/// Every intermediate value of a triangle's projection stays within
/// `i64` and every depth division is defined.
pub open spec fn triangle_pixels_fits(
    t: TriV,
    origin: Vec3V,
    rotation: Vec3V,
    cam: Camera,
    half_extent: int,
) -> bool {
    &&& vertex_pixel_fits(t.v1, origin, rotation, cam, half_extent)
    &&& vertex_pixel_fits(t.v2, origin, rotation, cam, half_extent)
    &&& vertex_pixel_fits(t.v3, origin, rotation, cam, half_extent)
}

impl Triangle {
    /// Creates a new `Triangle` from its three vertices.
    pub fn new(v1: Vec3, v2: Vec3, v3: Vec3) -> (r: Triangle)
        ensures
            r.v1 == v1,
            r.v2 == v2,
            r.v3 == v3,
    {
        Triangle { v1, v2, v3 }
    }

    /// Projects the triangle to the screen: each vertex is translated
    /// by the owning mesh's position, rotated about it by the mesh's
    /// quarter-turn Euler angles, transformed by the camera, and
    /// mapped to pixels. The caller draws the wireframe segments
    /// between the returned pixel positions.
    pub fn draw(&self, origin: Vec3, rotation: Vec3, cam: &Camera, half_extent: i64) -> (r:
        ScreenTriangle)
        requires
            cam.wf(),
            triangle_pixels_fits(self@, origin@, rotation@, *cam, half_extent as int),
        ensures
            r@ == triangle_pixels_spec(self@, origin@, rotation@, *cam, half_extent as int),
    {
        let tv1: ScreenPoint = calc_pt(
            cam.transform(rotate(self.v1.add(&origin), origin, rotation)),
            half_extent,
        );
        let tv2: ScreenPoint = calc_pt(
            cam.transform(rotate(self.v2.add(&origin), origin, rotation)),
            half_extent,
        );
        let tv3: ScreenPoint = calc_pt(
            cam.transform(rotate(self.v3.add(&origin), origin, rotation)),
            half_extent,
        );
        ScreenTriangle { p1: tv1, p2: tv2, p3: tv3 }
    }
}

/// A grouped set of triangles sharing a position and rotation.
pub struct Mesh {
    pub position: Vec3,
    pub rotation: Vec3,
    pub triangles: Vec<Triangle>,
}

impl Mesh {
    /// Creates a new `Mesh` at a position, with zero rotation.
    pub fn new(position: Vec3, triangles: Vec<Triangle>) -> (r: Mesh)
        ensures
            r.position == position,
            r.rotation == (Vec3 { x: 0, y: 0, z: 0 }),
            r.triangles@ == triangles@,
    {
        Mesh { position, rotation: Vec3::new(0, 0, 0), triangles }
    }

    /// Advances the animation by one tick: adds the given quarter-turn
    /// deltas to the mesh's rotation angles.
    pub fn advance(&mut self, delta: &Vec3)
        requires
            add_fits(old(self).rotation@, delta@),
        ensures
            final(self).rotation@ == old(self).rotation@.add(delta@),
            final(self).position == old(self).position,
            final(self).triangles@ == old(self).triangles@,
    {
        self.rotation.add_assign(delta);
    }

    /// Projects every triangle of the mesh to the screen, in order,
    /// passing each the mesh's own position and rotation.
    pub fn draw(&self, cam: &Camera, half_extent: i64) -> (r: Vec<ScreenTriangle>)
        requires
            cam.wf(),
            forall|j: int|
                0 <= j < self.triangles@.len() ==> triangle_pixels_fits(
                    self.triangles@[j]@,
                    self.position@,
                    self.rotation@,
                    *cam,
                    half_extent as int,
                ),
        ensures
            r@.len() == self.triangles@.len(),
            forall|j: int|
                0 <= j < r@.len() ==> r@[j]@ == triangle_pixels_spec(
                    self.triangles@[j]@,
                    self.position@,
                    self.rotation@,
                    *cam,
                    half_extent as int,
                ),
    {
        let mut r: Vec<ScreenTriangle> = Vec::new();
        let mut i: usize = 0;
        while i < self.triangles.len()
            invariant
                cam.wf(),
                forall|j: int|
                    0 <= j < self.triangles@.len() ==> triangle_pixels_fits(
                        self.triangles@[j]@,
                        self.position@,
                        self.rotation@,
                        *cam,
                        half_extent as int,
                    ),
                0 <= i <= self.triangles@.len(),
                r@.len() == i,
                forall|j: int|
                    0 <= j < i ==> r@[j]@ == triangle_pixels_spec(
                        self.triangles@[j]@,
                        self.position@,
                        self.rotation@,
                        *cam,
                        half_extent as int,
                    ),
            decreases self.triangles@.len() - i,
        {
            let t: Triangle = self.triangles[i];
            let px: ScreenTriangle = t.draw(self.position, self.rotation, cam, half_extent);
            r.push(px);
            i = i + 1;
        }
        r
    }
}

/// The twelve triangles of a cube with corners at `-s` and `s` along
/// each axis, two per face, every face split along the same diagonal
/// pattern and wound in a fixed order.
pub open spec fn cube_spec(s: int) -> Seq<TriV> {
    let back_top_left = Vec3V { x: -s, y: s, z: -s };
    let back_bottom_left = Vec3V { x: -s, y: -s, z: -s };
    let back_top_right = Vec3V { x: s, y: s, z: -s };
    let back_bottom_right = Vec3V { x: s, y: -s, z: -s };
    let front_top_left = Vec3V { x: -s, y: s, z: s };
    let front_bottom_left = Vec3V { x: -s, y: -s, z: s };
    let front_top_right = Vec3V { x: s, y: s, z: s };
    let front_bottom_right = Vec3V { x: s, y: -s, z: s };
    seq![
        TriV { v1: back_top_left, v2: back_bottom_right, v3: back_top_right },
        TriV { v1: back_top_left, v2: back_bottom_right, v3: back_bottom_left },
        TriV { v1: front_top_left, v2: front_bottom_right, v3: front_top_right },
        TriV { v1: front_top_left, v2: front_bottom_right, v3: front_bottom_left },
        TriV { v1: front_top_left, v2: back_top_right, v3: front_top_right },
        TriV { v1: front_top_left, v2: back_top_right, v3: back_top_left },
        TriV { v1: front_bottom_left, v2: back_bottom_right, v3: front_bottom_right },
        TriV { v1: front_bottom_left, v2: back_bottom_right, v3: back_bottom_left },
        TriV { v1: front_bottom_left, v2: back_top_left, v3: front_top_left },
        TriV { v1: front_bottom_left, v2: back_top_left, v3: back_bottom_left },
        TriV { v1: front_bottom_right, v2: back_top_right, v3: front_top_right },
        TriV { v1: front_bottom_right, v2: back_top_right, v3: back_bottom_right },
    ]
}

/// Builds the twelve triangles of a cube with corners at
/// `-side_length` and `side_length` along each axis.
pub fn gen_cube(side_length: i64) -> (r: Vec<Triangle>)
    requires
        in_i64(-(side_length as int)),
    ensures
        r@.len() == 12,
        forall|j: int| 0 <= j < 12 ==> r@[j]@ == cube_spec(side_length as int)[j],
{
    let mut tris: Vec<Triangle> = Vec::new();
    let back_top_left: Vec3 = Vec3::new(-side_length, side_length, -side_length);
    let back_bottom_left: Vec3 = Vec3::new(-side_length, -side_length, -side_length);
    let back_top_right: Vec3 = Vec3::new(side_length, side_length, -side_length);
    let back_bottom_right: Vec3 = Vec3::new(side_length, -side_length, -side_length);
    let front_top_left: Vec3 = Vec3::new(-side_length, side_length, side_length);
    let front_bottom_left: Vec3 = Vec3::new(-side_length, -side_length, side_length);
    let front_top_right: Vec3 = Vec3::new(side_length, side_length, side_length);
    let front_bottom_right: Vec3 = Vec3::new(side_length, -side_length, side_length);
    tris.push(Triangle::new(back_top_left, back_bottom_right, back_top_right));
    tris.push(Triangle::new(back_top_left, back_bottom_right, back_bottom_left));
    tris.push(Triangle::new(front_top_left, front_bottom_right, front_top_right));
    tris.push(Triangle::new(front_top_left, front_bottom_right, front_bottom_left));
    tris.push(Triangle::new(front_top_left, back_top_right, front_top_right));
    tris.push(Triangle::new(front_top_left, back_top_right, back_top_left));
    tris.push(Triangle::new(front_bottom_left, back_bottom_right, front_bottom_right));
    tris.push(Triangle::new(front_bottom_left, back_bottom_right, back_bottom_left));
    tris.push(Triangle::new(front_bottom_left, back_top_left, front_top_left));
    tris.push(Triangle::new(front_bottom_left, back_top_left, back_bottom_left));
    tris.push(Triangle::new(front_bottom_right, back_top_right, front_top_right));
    tris.push(Triangle::new(front_bottom_right, back_top_right, back_bottom_right));
    tris
}

/// The set of distinct vertex values across a sequence of triangles.
pub open spec fn vertex_values(tris: Seq<TriV>) -> Set<Vec3V> {
    Set::new(
        |v: Vec3V|
            exists|i: int|
                0 <= i < tris.len() && ((#[trigger] tris[i]).v1 == v || tris[i].v2 == v
                    || tris[i].v3 == v),
    )
}

/// A cube of nonzero side length has exactly eight distinct vertex
/// values across its twelve triangles.
pub proof fn lemma_cube_has_eight_vertex_values(s: int)
    requires
        s != 0,
    ensures
        vertex_values(cube_spec(s)).len() == 8,
{
    broadcast use vstd::set::group_set_axioms;

    let tris = cube_spec(s);
    let back_top_left = Vec3V { x: -s, y: s, z: -s };
    let back_bottom_left = Vec3V { x: -s, y: -s, z: -s };
    let back_top_right = Vec3V { x: s, y: s, z: -s };
    let back_bottom_right = Vec3V { x: s, y: -s, z: -s };
    let front_top_left = Vec3V { x: -s, y: s, z: s };
    let front_bottom_left = Vec3V { x: -s, y: -s, z: s };
    let front_top_right = Vec3V { x: s, y: s, z: s };
    let front_bottom_right = Vec3V { x: s, y: -s, z: s };
    let corners = Set::empty().insert(back_top_left).insert(back_bottom_left).insert(
        back_top_right,
    ).insert(back_bottom_right).insert(front_top_left).insert(front_bottom_left).insert(
        front_top_right,
    ).insert(front_bottom_right);
    assert(tris[0].v1 == back_top_left);
    assert(tris[0].v3 == back_top_right);
    assert(tris[1].v3 == back_bottom_left);
    assert(tris[0].v2 == back_bottom_right);
    assert(tris[2].v1 == front_top_left);
    assert(tris[3].v3 == front_bottom_left);
    assert(tris[2].v3 == front_top_right);
    assert(tris[2].v2 == front_bottom_right);
    assert forall|v: Vec3V| corners.contains(v) implies vertex_values(tris).contains(v) by {
        assert(0 <= 0 < tris.len() && 0 <= 1 < tris.len() && 0 <= 2 < tris.len() && 0 <= 3
            < tris.len());
    }
    assert forall|v: Vec3V| vertex_values(tris).contains(v) implies corners.contains(v) by {
        let i = choose|i: int|
            0 <= i < tris.len() && ((#[trigger] tris[i]).v1 == v || tris[i].v2 == v || tris[i].v3
                == v);
        assert(corners.contains(tris[i].v1) && corners.contains(tris[i].v2) && corners.contains(
            tris[i].v3,
        ));
    }
    assert(vertex_values(tris) =~= corners);
    assert(s != -s);
    assert(corners.len() == 8);
}

} // verus!
