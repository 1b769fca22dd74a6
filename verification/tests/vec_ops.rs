use wireframe::vec::Vec3;

#[test]
fn equality() {
    assert_eq!(Vec3::new(2, 4, 20), Vec3::new(2, 4, 20));
}

#[test]
fn dot() {
    let v1 = Vec3::new(2, 4, 20);
    let v2 = Vec3::new(5, 8, 2);
    assert_eq!(v1.dot(&v2), 82);
}

#[test]
fn cross() {
    let v1 = Vec3::new(2, 4, 20);
    let v2 = Vec3::new(5, 8, 2);
    assert_eq!(v1.cross(&v2), Vec3::new(-152, 96, -4));
}

#[test]
fn dot_is_commutative_on_samples() {
    let samples = [
        (Vec3::new(2, 4, 20), Vec3::new(5, 8, 2)),
        (Vec3::new(-3, 0, 7), Vec3::new(1, -1, 4)),
        (Vec3::new(0, 0, 0), Vec3::new(9, -9, 9)),
    ];
    for (a, b) in samples {
        assert_eq!(a.dot(&b), b.dot(&a));
    }
}

#[test]
fn cross_is_antisymmetric_on_samples() {
    let samples = [
        (Vec3::new(2, 4, 20), Vec3::new(5, 8, 2)),
        (Vec3::new(-3, 0, 7), Vec3::new(1, -1, 4)),
    ];
    for (a, b) in samples {
        let c = a.cross(&b);
        let d = b.cross(&a);
        assert_eq!(c, Vec3::new(-d.x, -d.y, -d.z));
    }
}

#[test]
fn magnitude_rounds_down() {
    assert_eq!(Vec3::new(3, 4, 0).magnitude(), 5);
    assert_eq!(Vec3::new(0, 0, 7).magnitude(), 7);
    assert_eq!(Vec3::new(1, 1, 1).magnitude(), 1);
    assert_eq!(Vec3::new(0, 0, 0).magnitude(), 0);
    assert_eq!(Vec3::new(-2, -3, -6).magnitude(), 7);
}

#[test]
fn to_unit_on_axis_vectors() {
    assert_eq!(Vec3::new(0, 0, 7).to_unit(), Vec3::new(0, 0, 1));
    assert_eq!(Vec3::new(0, -5, 0).to_unit(), Vec3::new(0, -1, 0));
    assert_eq!(Vec3::new(12, 0, 0).to_unit(), Vec3::new(1, 0, 0));
}

#[test]
fn to_unit_on_axis_has_unit_magnitude() {
    let v = Vec3::new(0, -9, 0).to_unit();
    assert_eq!(v.magnitude(), 1);
}

#[test]
fn to_unit_truncates_oblique_directions() {
    // magnitude 5; every component is smaller, so each quotient
    // truncates to zero
    assert_eq!(Vec3::new(3, 4, 0).to_unit(), Vec3::new(0, 0, 0));
}

#[test]
fn scalar_multiply() {
    assert_eq!(Vec3::new(1, -2, 3).mul(4), Vec3::new(4, -8, 12));
    let mut v = Vec3::new(1, -2, 3);
    v.mul_eq(-2);
    assert_eq!(v, Vec3::new(-2, 4, -6));
}

#[test]
fn scalar_divide_truncates_toward_zero() {
    assert_eq!(Vec3::new(9, -9, 10).div(3), Vec3::new(3, -3, 3));
    assert_eq!(Vec3::new(7, -7, 1).div(2), Vec3::new(3, -3, 0));
    let mut v = Vec3::new(7, -7, 1);
    v.div_eq(2);
    assert_eq!(v, Vec3::new(3, -3, 0));
}

#[test]
fn addition_and_subtraction() {
    let a = Vec3::new(1, 2, 3);
    let b = Vec3::new(10, -20, 30);
    assert_eq!(a.add(&b), Vec3::new(11, -18, 33));
    assert_eq!(a.sub(&b), Vec3::new(-9, 22, -27));
    let mut c = a;
    c.add_assign(&b);
    assert_eq!(c, Vec3::new(11, -18, 33));
    c.sub_assign(&b);
    assert_eq!(c, a);
}
