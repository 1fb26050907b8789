use renderer::{IVec3, ViewBasis};

#[test]
fn basis_looking_down_negative_z() {
    let b = ViewBasis::new(IVec3::new(0, 0, 0), IVec3::new(0, 0, -1), IVec3::new(0, 1, 0));
    assert_eq!(b.w, IVec3::new(0, 0, 1));
    assert_eq!(b.u, IVec3::new(1, 0, 0));
    assert_eq!(b.v, IVec3::new(0, 1, 0));
}

#[test]
fn basis_is_orthogonal_for_oblique_view() {
    let b = ViewBasis::new(IVec3::new(3, 2, 5), IVec3::new(0, 0, 0), IVec3::new(0, 1, 0));
    assert_eq!(b.w, IVec3::new(3, 2, 5));
    assert_eq!(b.u, IVec3::new(5, 0, -3));
    assert_eq!(b.v, IVec3::new(-6, 34, -10));
    assert_eq!(b.u.dot(&b.v), 0);
    assert_eq!(b.u.dot(&b.w), 0);
    assert_eq!(b.v.dot(&b.w), 0);
    assert_eq!(b.v.length_squared(), b.w.length_squared() * b.u.length_squared());
}

#[test]
fn basis_with_up_along_line_of_sight_is_degenerate() {
    let b = ViewBasis::new(IVec3::new(0, 5, 0), IVec3::new(0, 0, 0), IVec3::new(0, 1, 0));
    assert_eq!(b.u, IVec3::origin());
    assert_eq!(b.v, IVec3::origin());
}
