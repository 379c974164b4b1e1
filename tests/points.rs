use geometry::{shared, Point2, Point2i, Point3, Point3i, Vector2, Vector3};

fn p3(a: [i32; 3]) -> Point3i {
    Point3::new(a)
}

#[test]
fn point_new_take_inner_index_update() {
    let mut p: Point2i = Point2::new([1, 2]);
    assert_eq!(*p.index(1), 2);
    p.update(0, 5);
    assert_eq!(p.take_inner(), [5, 2]);
}

#[test]
fn point_zero_and_set() {
    let mut p = Point3i::zero();
    assert_eq!(p.take_inner(), [0, 0, 0]);
    p.set(&p3([1, 2, 3]));
    assert_eq!(p.take_inner(), [1, 2, 3]);
    assert_eq!(Point2i::zero().take_inner(), [0, 0]);
}

#[test]
fn point_plus_and_minus_vector() {
    let p = p3([1, 2, 3]);
    let v = Vector3::new([10, -20, 30]);
    assert_eq!(p.add_vector(v).take_inner(), [11, -18, 33]);
    assert_eq!(p.sub_vector(v).take_inner(), [-9, 22, -27]);
    let mut q = p;
    q.add_assign_vector(v);
    q.sub_assign_vector(v);
    assert!(q == p);
}

#[test]
fn point_plus_point() {
    let mut p: Point2i = Point2::new([1, 2]);
    assert_eq!(p.add_point(Point2::new([3, 4])).take_inner(), [4, 6]);
    p.add_assign_point(Point2::new([-1, -2]));
    assert_eq!(p.take_inner(), [0, 0]);
}

#[test]
fn point_difference_leads_back() {
    let p = p3([5, -3, 2]);
    let q = p3([-1, 4, 9]);
    let v = p.sub_point(q);
    assert_eq!(v.take_inner(), [6, -7, -7]);
    assert!(q.add_vector(v) == p);
    let a: Point2i = Point2::new([3, 3]);
    let b: Point2i = Point2::new([-4, 8]);
    assert!(b.add_vector(a.sub_point(b)) == a);
}

#[test]
fn point_negate_scale_divide() {
    let p = p3([1, -2, 3]);
    assert_eq!(p.neg().take_inner(), [-1, 2, -3]);
    assert_eq!(p.mul(4).take_inner(), [4, -8, 12]);
    assert_eq!(p3([9, -9, 4]).div(4).take_inner(), [2, -2, 1]);
    let mut q = p;
    q.mul_assign(-2);
    assert_eq!(q.take_inner(), [-2, 4, -6]);
    q.div_assign(3);
    assert_eq!(q.take_inner(), [0, 1, -2]);
    let r: Point2i = Point2::new([5, -5]);
    assert_eq!(r.neg().mul(2).div(3).take_inner(), [-3, 3]);
}

#[test]
fn point_min_max() {
    let a = p3([1, 5, -3]);
    let b = p3([2, -5, -3]);
    assert_eq!(a.min(&b).take_inner(), [1, -5, -3]);
    assert_eq!(a.max(&b).take_inner(), [2, 5, -3]);
}

#[test]
fn point_abs() {
    assert!(p3([5, -3, 2]).abs() == p3([5, 3, 2]));
}

#[test]
fn point_permute() {
    assert_eq!(p3([1, 2, 3]).permute(2, 1, 0).take_inner(), [3, 2, 1]);
}

#[test]
fn point_conversions() {
    let p: Point2i = Point2::from_point3(p3([1, 2, 3]));
    assert_eq!(p.take_inner(), [1, 2]);
    let q: Point2i = Point2::from_vector(Vector2::new([4, 5]));
    assert_eq!(q.take_inner(), [4, 5]);
    let r: Point3i = Point3::from_vector(Vector3::new([6, 7, 8]));
    assert_eq!(r.take_inner(), [6, 7, 8]);
}

#[test]
fn point_equality() {
    assert!(p3([1, 2, 3]) == p3([1, 2, 3]));
    assert!(p3([1, 2, 3]) != p3([1, 0, 3]));
}

#[test]
fn shared_value_is_reachable_through_every_holder() {
    let s = shared(41);
    let t = s.clone();
    *t.lock().unwrap() += 1;
    assert_eq!(*s.lock().unwrap(), 42);
}
