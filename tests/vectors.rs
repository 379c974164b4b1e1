use geometry::{Vector, Vector2, Vector3, Vector3i};

fn v3(a: [i32; 3]) -> Vector3i {
    Vector3::new(a)
}

#[test]
fn new_and_take_inner_round_trip() {
    assert_eq!(v3([1, -2, 3]).take_inner(), [1, -2, 3]);
}

#[test]
fn set_replaces_all_components() {
    let mut v = v3([1, 2, 3]);
    v.set([4, 5, 6]);
    assert_eq!(v.take_inner(), [4, 5, 6]);
}

#[test]
fn index_and_update() {
    let mut v = v3([1, 2, 3]);
    assert_eq!(*v.index(2), 3);
    v.update(1, 9);
    assert_eq!(v.take_inner(), [1, 9, 3]);
}

#[test]
fn named_accessors() {
    let v2: Vector2<i32> = Vector2::new([7, 8]);
    assert_eq!((*v2.x(), *v2.y()), (7, 8));
    let v = v3([1, 2, 3]);
    assert_eq!((*v.x(), *v.y(), *v.z()), (1, 2, 3));
}

#[test]
fn zero_and_default_are_all_zero() {
    assert_eq!(Vector::<4, i32>::zero().take_inner(), [0, 0, 0, 0]);
    let d: Vector<2, i32> = Default::default();
    assert_eq!(d.take_inner(), [0, 0]);
}

#[test]
fn add_then_sub_gives_back_the_vector() {
    let a = v3([1, -2, 300]);
    let b = v3([-40, 5, 6]);
    let mut c = a;
    c.add_assign(b);
    assert_eq!(c.take_inner(), [-39, 3, 306]);
    c.sub_assign(b);
    assert!(c == a);
}

#[test]
fn add_then_sub_at_the_edge_of_the_range() {
    let a = v3([i32::MAX - 1, i32::MIN, 0]);
    let b = v3([1, i32::MAX, i32::MIN]);
    let mut c = a;
    c.add_assign(b);
    assert_eq!(c.take_inner(), [i32::MAX, -1, i32::MIN]);
    c.sub_assign(b);
    assert!(c == a);
}

#[test]
fn scale_in_place() {
    let mut v = v3([1, -2, 3]);
    v.mul_assign(-3);
    assert_eq!(v.take_inner(), [-3, 6, -9]);
}

#[test]
fn divide_in_place_truncates_toward_zero() {
    let mut v = v3([7, -7, 1]);
    v.div_assign(2);
    assert_eq!(v.take_inner(), [3, -3, 0]);
    let mut w = v3([7, -7, 6]);
    w.div_assign(-2);
    assert_eq!(w.take_inner(), [-3, 3, -3]);
}

#[test]
fn negate() {
    assert_eq!(v3([1, -2, 0]).neg().take_inner(), [-1, 2, 0]);
}

#[test]
fn equality_is_exact() {
    assert!(v3([1, 2, 3]) == v3([1, 2, 3]));
    assert!(v3([1, 2, 3]) != v3([1, 2, 4]));
}

#[test]
fn dot_products() {
    assert_eq!(v3([1, 2, 3]).dot(&v3([4, -5, 6])), 12);
    assert_eq!(v3([1, 2, 3]).abs_dot(&v3([-4, 5, -6])), 12);
    assert_eq!(v3([1, 0, 0]).dot(&v3([0, 1, 0])), 0);
}

#[test]
fn dot_with_large_intermediate_sum() {
    let a = v3([i32::MAX, i32::MAX, 1]);
    let b = v3([1, -1, 5]);
    assert_eq!(a.dot(&b), 5);
    let c = Vector::new([65536, 65536]);
    let d = Vector::new([32768, -32768]);
    assert_eq!(c.dot(&d), 0);
}

#[test]
fn component_extrema() {
    let v = v3([3, -7, 3]);
    assert_eq!(v.min_component(), -7);
    assert_eq!(v.max_component(), 3);
}

#[test]
fn max_dimension_takes_first_of_ties() {
    assert_eq!(v3([3, -7, 3]).max_dimension(), 0);
    assert_eq!(v3([1, 5, 5]).max_dimension(), 1);
    assert_eq!(v3([1, 2, 9]).max_dimension(), 2);
}

#[test]
fn cross_of_axes() {
    let x = v3([1, 0, 0]);
    let y = v3([0, 1, 0]);
    assert_eq!(x.cross(&y).take_inner(), [0, 0, 1]);
    assert_eq!(y.cross(&x).take_inner(), [0, 0, -1]);
}

#[test]
fn cross_is_anticommutative() {
    let a = v3([2, -3, 5]);
    let b = v3([7, 11, -13]);
    let ab = a.cross(&b);
    assert_eq!(ab.take_inner(), [-16, 61, 43]);
    assert!(ab == b.cross(&a).neg());
}

#[test]
fn cross_with_large_intermediate_products() {
    let a = v3([i32::MAX, i32::MAX, 0]);
    let b = v3([1, 1, 0]);
    assert_eq!(a.cross(&b).take_inner(), [0, 0, 0]);
}

#[test]
fn permute_components() {
    let v = v3([10, 20, 30]);
    assert_eq!(v.permute(2, 0, 1).take_inner(), [30, 10, 20]);
    assert_eq!(v.permute(1, 1, 1).take_inner(), [20, 20, 20]);
}
