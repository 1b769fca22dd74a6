use wireframe::camera::Camera;
use wireframe::polygon::calc_pt;
use wireframe::polygon::gen_cube;
use wireframe::polygon::Mesh;
use wireframe::polygon::ScreenPoint;
use wireframe::polygon::Triangle;
use wireframe::vec::Vec3;

#[test]
fn creation() {
    let v1 = Vec3::new(1, 0, 0);
    let v2 = Vec3::new(0, 1, 0);
    let v3 = Vec3::new(0, 0, 1);
    let t = Triangle::new(v1, v2, v3);
    assert_eq!(t.v2.y, 1);
}

#[test]
fn pixel_mapping_reference_viewport() {
    // the reference viewport is 1000x1000 pixels: half extent 500
    assert_eq!(calc_pt(Vec3::new(0, 0, 3), 500), ScreenPoint { x: 500, y: 500 });
    assert_eq!(calc_pt(Vec3::new(-1, -1, 3), 500), ScreenPoint { x: 0, y: 0 });
    assert_eq!(calc_pt(Vec3::new(1, 1, 3), 500), ScreenPoint { x: 1000, y: 1000 });
}

#[test]
fn on_axis_point_projects_to_center() {
    let cam = Camera::new(Vec3::new(0, 0, 0), 1, Vec3::new(0, 0, 0));
    let screen = cam.transform(Vec3::new(0, 0, 5));
    assert_eq!(screen.x, 0);
    assert_eq!(screen.y, 0);
    assert!(screen.z > 0);
    assert_eq!(screen.z, 5);
}

#[test]
fn camera_offsets_against_its_position() {
    let cam = Camera::new(Vec3::new(0, 0, -3), 2, Vec3::new(0, 0, 0));
    // offset is (0, 0, 8); depth in image-plane units is 8 / 2 == 4
    let screen = cam.transform(Vec3::new(0, 0, 5));
    assert_eq!(screen, Vec3::new(0, 0, 4));
}

#[test]
fn camera_recalculates_matrices_after_rotation() {
    let mut cam = Camera::new(Vec3::new(0, 0, 0), 1, Vec3::new(0, 0, 0));
    cam.rotation = Vec3::new(1, 0, 0);
    cam.recalculate_matrices();
    // one quarter turn about X carries the +Y axis onto the -Z axis
    let screen = cam.transform(Vec3::new(0, 5, 0));
    assert_eq!(screen, Vec3::new(0, 0, -5));
}

#[test]
fn gen_cube_has_twelve_triangles_and_eight_vertices() {
    let tris = gen_cube(1);
    assert_eq!(tris.len(), 12);
    let mut distinct: Vec<Vec3> = Vec::new();
    for t in &tris {
        for v in [t.v1, t.v2, t.v3] {
            if !distinct.contains(&v) {
                distinct.push(v);
            }
        }
    }
    assert_eq!(distinct.len(), 8);
    for v in &distinct {
        assert_eq!(v.x * v.x, 1);
        assert_eq!(v.y * v.y, 1);
        assert_eq!(v.z * v.z, 1);
    }
}

#[test]
fn gen_cube_winding_of_back_face() {
    let tris = gen_cube(2);
    let back_top_left = Vec3::new(-2, 2, -2);
    let back_bottom_right = Vec3::new(2, -2, -2);
    let back_top_right = Vec3::new(2, 2, -2);
    let back_bottom_left = Vec3::new(-2, -2, -2);
    assert_eq!(tris[0], Triangle::new(back_top_left, back_bottom_right, back_top_right));
    assert_eq!(tris[1], Triangle::new(back_top_left, back_bottom_right, back_bottom_left));
}

#[test]
fn mesh_starts_unrotated_and_advances() {
    let mut mesh = Mesh::new(Vec3::new(0, 0, 5), gen_cube(1));
    assert_eq!(mesh.rotation, Vec3::new(0, 0, 0));
    mesh.advance(&Vec3::new(1, 0, 3));
    mesh.advance(&Vec3::new(0, 2, -1));
    assert_eq!(mesh.rotation, Vec3::new(1, 2, 2));
    assert_eq!(mesh.position, Vec3::new(0, 0, 5));
    assert_eq!(mesh.triangles.len(), 12);
}

#[test]
fn mesh_draw_projects_every_triangle() {
    let mesh = Mesh::new(Vec3::new(0, 0, 5), gen_cube(1));
    let cam = Camera::new(Vec3::new(0, 0, 0), 1, Vec3::new(0, 0, 0));
    let screen = mesh.draw(&cam, 500);
    assert_eq!(screen.len(), 12);
    // the first triangle's first vertex is the back top left corner,
    // at world (-1, 1, 4): depth 4, normalized x and y truncate to 0,
    // so it lands at the viewport center
    assert_eq!(screen[0].p1, ScreenPoint { x: 500, y: 500 });
}

#[test]
fn triangle_draw_matches_mesh_draw() {
    let mesh = Mesh::new(Vec3::new(0, 0, 5), gen_cube(1));
    let cam = Camera::new(Vec3::new(0, 0, 0), 1, Vec3::new(0, 0, 0));
    let screen = mesh.draw(&cam, 500);
    let single = mesh.triangles[3].draw(mesh.position, mesh.rotation, &cam, 500);
    assert_eq!(screen[3], single);
}
