use renderer::{cross, dot, IVec3};

#[test]
fn test_dot() {
    assert_eq!(dot(&IVec3 { x: 1, y: 0, z: 0 }, &IVec3 { x: 1, y: 0, z: 0 }), 1);
    assert_eq!(dot(&IVec3 { x: 1, y: 0, z: 0 }, &IVec3 { x: 0, y: 1, z: 0 }), 0);
    assert_eq!(dot(&IVec3 { x: 1, y: 0, z: 0 }, &IVec3 { x: 0, y: 0, z: 1 }), 0);
    assert_eq!(dot(&IVec3 { x: 0, y: 1, z: 0 }, &IVec3 { x: 0, y: 0, z: 1 }), 0);
}

#[test]
fn test_cross() {
    assert_eq!(
        cross(&IVec3 { x: 0, y: 1, z: 0 }, &IVec3 { x: 1, y: 0, z: 0 }),
        IVec3 { x: 0, y: 0, z: -1 }
    );
}

#[test]
fn dot_of_general_vectors() {
    let a = IVec3::new(1, 2, 3);
    let b = IVec3::new(4, -5, 6);
    assert_eq!(a.dot(&b), 4 - 10 + 18);
    assert_eq!(a.dot(&b), b.dot(&a));
}

#[test]
fn dot_of_extreme_components_does_not_overflow() {
    let m = IVec3::new(i32::MIN, i32::MIN, i32::MIN);
    let expected: i128 = 3 * (1i128 << 62);
    assert_eq!(m.length_squared(), expected);
    assert_eq!(dot(&m, &m), expected);
}

#[test]
fn cross_is_anticommutative_and_orthogonal() {
    let a = IVec3::new(2, -3, 7);
    let b = IVec3::new(-1, 4, 5);
    let ab = a.cross(&b);
    let ba = b.cross(&a);
    assert_eq!(ab, IVec3::new(-3 * 5 - 7 * 4, 7 * -1 - 2 * 5, 2 * 4 - (-3) * (-1)));
    assert_eq!(ab, ba.neg());
    assert_eq!(a.dot(&ab), 0);
    assert_eq!(b.dot(&ab), 0);
}

#[test]
fn cross_length_identity() {
    let a = IVec3::new(2, -3, 7);
    let b = IVec3::new(-1, 4, 5);
    let c = a.cross(&b);
    let d = a.dot(&b);
    assert_eq!(c.length_squared(), a.length_squared() * b.length_squared() - d * d);
}

#[test]
fn cross_of_parallel_vectors_is_zero() {
    let a = IVec3::new(1, 2, 3);
    assert_eq!(a.cross(&a.mul(-4)), IVec3::origin());
}

#[test]
fn length_squared_of_vector() {
    assert_eq!(IVec3::new(3, 4, 12).length_squared(), 169);
    assert_eq!(IVec3::origin().length_squared(), 0);
}

#[test]
fn add_sub_neg() {
    let a = IVec3::new(1, -2, 3);
    let b = IVec3::new(10, 20, -30);
    assert_eq!(a.add(b), IVec3::new(11, 18, -27));
    assert_eq!(a.sub(b), IVec3::new(-9, -22, 33));
    assert_eq!(a.neg(), IVec3::new(-1, 2, -3));
    assert_eq!(a.add(b).sub(b), a);
}

#[test]
fn scaling() {
    let a = IVec3::new(1, -2, 3);
    assert_eq!(a.mul(3), IVec3::new(3, -6, 9));
    let mut m = a;
    m.mul_assign(-2);
    assert_eq!(m, IVec3::new(-2, 4, -6));
    m.mul_assign(0);
    assert_eq!(m, IVec3::origin());
}

#[test]
fn origin_is_zero() {
    assert_eq!(IVec3::origin(), IVec3 { x: 0, y: 0, z: 0 });
}
