use wireframe::matrix::rotate;
use wireframe::matrix::Matrix3x3;
use wireframe::matrix::Quaternion;
use wireframe::vec::Vec3;

#[test]
fn determinant() {
    let c1 = Vec3::new(0, 5, 8);
    let c2 = Vec3::new(3, 2, 10);
    let c3 = Vec3::new(5, 1, 6);
    let m = Matrix3x3::new(c1, c2, c3);
    assert_eq!(m.determinant(), 104);
}

#[test]
fn transform() {
    let c1 = Vec3::new(0, 5, 8);
    let c2 = Vec3::new(3, 2, 10);
    let c3 = Vec3::new(5, 1, 6);
    let m = Matrix3x3::new(c1, c2, c3);
    let v = Vec3::new(4, 3, 12);
    let transformed = m.transform(&v);
    assert_eq!(transformed, Vec3::new(69, 38, 134));
}

#[test]
fn direct_new_stores_rows_as_columns() {
    let m = Matrix3x3::direct_new(1, 2, 3, 4, 5, 6, 7, 8, 9);
    assert_eq!(m.column1, Vec3::new(1, 4, 7));
    assert_eq!(m.column2, Vec3::new(2, 5, 8));
    assert_eq!(m.column3, Vec3::new(3, 6, 9));
}

#[test]
fn rotate_by_zero_is_identity() {
    let p = Vec3::new(3, -4, 7);
    let o = Vec3::new(1, 2, 3);
    assert_eq!(rotate(p, o, Vec3::new(0, 0, 0)), p);
    let far = Vec3::new(-100, 55, 0);
    assert_eq!(rotate(p, far, Vec3::new(0, 0, 0)), p);
}

#[test]
fn rotate_quarter_turn_about_z() {
    let p = Vec3::new(1, 0, 0);
    let o = Vec3::new(0, 0, 0);
    assert_eq!(rotate(p, o, Vec3::new(0, 0, 1)), Vec3::new(0, -1, 0));
}

#[test]
fn rotate_full_turn_restores_point() {
    let p = Vec3::new(5, -2, 9);
    let o = Vec3::new(1, 1, 1);
    assert_eq!(rotate(p, o, Vec3::new(4, 4, 4)), p);
}

#[test]
fn quaternion_magnitude_rounds_down() {
    assert_eq!(Quaternion::new(1, 2, 2, 0).magnitude(), 3);
    assert_eq!(Quaternion::new(1, 1, 1, 1).magnitude(), 2);
}

#[test]
fn quaternion_normalize_on_axis() {
    assert_eq!(Quaternion::new(0, 0, 0, 9).normalize(), Quaternion::new(0, 0, 0, 1));
    assert_eq!(Quaternion::new(0, -4, 0, 0).normalize(), Quaternion::new(0, -1, 0, 0));
}

#[test]
fn quaternion_hamilton_product() {
    // i * j == k
    let i = Quaternion::new(1, 0, 0, 0);
    let j = Quaternion::new(0, 1, 0, 0);
    assert_eq!(i.mul(j), Quaternion::new(0, 0, 1, 0));
    // the identity quaternion leaves any quaternion unchanged
    let one = Quaternion::new(0, 0, 0, 1);
    let q = Quaternion::new(2, -3, 5, 7);
    assert_eq!(one.mul(q), q);
    assert_eq!(q.mul(one), q);
}
