use vstd::prelude::*;
use crate::arith::{
    absolute, difference, divided, divisible_by, fits_i32, greater, ints, lesser, negated,
    permuted, scaled, sum_of,
};
use crate::vector::{Vector, Vector2, Vector3};

verus! {

/// A position in the plane.
#[derive(Clone, Copy)]
pub struct Point2<T>([T; 2]);

/// A position in space.
#[derive(Clone, Copy)]
pub struct Point3<T>([T; 3]);

pub type Point2i = Point2<i32>;

pub type Point3i = Point3<i32>;

impl<T> View for Point2<T> {
    type V = Seq<T>;

    closed spec fn view(&self) -> Seq<T> {
        self.0@
    }
}

impl<T> Point2<T> {
    pub fn new(values: [T; 2]) -> (r: Self)
        ensures
            r@ == values@,
    {
        Point2(values)
    }

    pub fn take_inner(self) -> (r: [T; 2])
        ensures
            r@ == self@,
    {
        self.0
    }

    /// The component at `index`, which must be below 2.
    pub fn index(&self, index: usize) -> (r: &T)
        requires
            index < 2,
        ensures
            *r == self@[index as int],
    {
        &self.0[index]
    }

    /// Overwrites the component at `index`, which must be below 2.
    pub fn update(&mut self, index: usize, value: T)
        requires
            index < 2,
        ensures
            final(self)@ == old(self)@.update(index as int, value),
    {
        self.0[index] = value;
    }

    /// The point at the position that the displacement `vec` reaches from the origin.
    pub fn from_vector(vec: Vector2<T>) -> (r: Self)
        ensures
            r@ == vec@,
    {
        Point2(vec.take_inner())
    }
}

impl<T: Copy> Point2<T> {
    /// Copies every component of `value` into this point.
    pub fn set(&mut self, value: &Self)
        ensures
            final(self)@ == value@,
    {
        self.0 = value.0;
    }
}

impl Point2<i32> {
    /// The components as mathematical integers.
    pub open spec fn ints(&self) -> Seq<int> {
        ints(self@)
    }

    /// The origin.
    pub fn zero() -> (r: Self)
        ensures
            r.ints() == Seq::new(2, |i: int| 0int),
    {
        let r = Point2([0, 0]);
        assert(r.ints() =~= Seq::new(2, |i: int| 0int));
        r
    }

    /// The point moved by the displacement `rhs`.
    pub fn add_vector(self, rhs: Vector2<i32>) -> (r: Self)
        requires
            fits_i32(sum_of(self.ints(), rhs.ints())),
        ensures
            r.ints() == sum_of(self.ints(), rhs.ints()),
    {
        let mut v = Vector::new(self.0);
        v.add_assign(rhs);
        Point2(v.take_inner())
    }

    /// Moves the point by the displacement `rhs`, in place.
    pub fn add_assign_vector(&mut self, rhs: Vector2<i32>)
        requires
            fits_i32(sum_of(old(self).ints(), rhs.ints())),
        ensures
            final(self).ints() == sum_of(old(self).ints(), rhs.ints()),
    {
        *self = self.add_vector(rhs);
    }

    /// Component-wise sum of two points, as used to accumulate positions.
    pub fn add_point(self, rhs: Self) -> (r: Self)
        requires
            fits_i32(sum_of(self.ints(), rhs.ints())),
        ensures
            r.ints() == sum_of(self.ints(), rhs.ints()),
    {
        self.add_vector(Vector::new(rhs.0))
    }

    /// Adds the point `rhs` component-wise, in place.
    pub fn add_assign_point(&mut self, rhs: Self)
        requires
            fits_i32(sum_of(old(self).ints(), rhs.ints())),
        ensures
            final(self).ints() == sum_of(old(self).ints(), rhs.ints()),
    {
        *self = self.add_point(rhs);
    }

    /// The point moved back by the displacement `rhs`.
    pub fn sub_vector(self, rhs: Vector2<i32>) -> (r: Self)
        requires
            fits_i32(difference(self.ints(), rhs.ints())),
        ensures
            r.ints() == difference(self.ints(), rhs.ints()),
    {
        let mut v = Vector::new(self.0);
        v.sub_assign(rhs);
        Point2(v.take_inner())
    }

    /// Moves the point back by the displacement `rhs`, in place.
    pub fn sub_assign_vector(&mut self, rhs: Vector2<i32>)
        requires
            fits_i32(difference(old(self).ints(), rhs.ints())),
        ensures
            final(self).ints() == difference(old(self).ints(), rhs.ints()),
    {
        *self = self.sub_vector(rhs);
    }

    /// The displacement that leads from `rhs` to this point.
    pub fn sub_point(self, rhs: Self) -> (r: Vector2<i32>)
        requires
            fits_i32(difference(self.ints(), rhs.ints())),
        ensures
            r.ints() == difference(self.ints(), rhs.ints()),
    {
        let mut v = Vector::new(self.0);
        v.sub_assign(Vector::new(rhs.0));
        v
    }

    /// The point with every component negated.
    pub fn neg(self) -> (r: Self)
        requires
            fits_i32(negated(self.ints())),
        ensures
            r.ints() == negated(self.ints()),
    {
        Point2(Vector::new(self.0).neg().take_inner())
    }

    /// The point with every component multiplied by `rhs`.
    pub fn mul(self, rhs: i32) -> (r: Self)
        requires
            fits_i32(scaled(self.ints(), rhs as int)),
        ensures
            r.ints() == scaled(self.ints(), rhs as int),
    {
        let mut v = Vector::new(self.0);
        v.mul_assign(rhs);
        Point2(v.take_inner())
    }

    /// Multiplies every component by `rhs`, in place.
    pub fn mul_assign(&mut self, rhs: i32)
        requires
            fits_i32(scaled(old(self).ints(), rhs as int)),
        ensures
            final(self).ints() == scaled(old(self).ints(), rhs as int),
    {
        *self = self.mul(rhs);
    }

    /// The point with every component divided by `rhs`, rounding toward zero.
    pub fn div(self, rhs: i32) -> (r: Self)
        requires
            divisible_by(self.ints(), rhs as int),
        ensures
            r.ints() == divided(self.ints(), rhs as int),
    {
        let mut v = Vector::new(self.0);
        v.div_assign(rhs);
        Point2(v.take_inner())
    }

    /// Divides every component by `rhs`, rounding toward zero, in place.
    pub fn div_assign(&mut self, rhs: i32)
        requires
            divisible_by(old(self).ints(), rhs as int),
        ensures
            final(self).ints() == divided(old(self).ints(), rhs as int),
    {
        *self = self.div(rhs);
    }
}

impl PartialEq for Point2<i32> {
    /// Exact component-wise equality.
    fn eq(&self, other: &Self) -> (r: bool) {
        let r = self.0[0] == other.0[0] && self.0[1] == other.0[1];
        assert(r ==> self@ =~= other@);
        r
    }
}

impl vstd::std_specs::cmp::PartialEqSpecImpl for Point2<i32> {
    open spec fn obeys_eq_spec() -> bool {
        true
    }

    open spec fn eq_spec(&self, other: &Self) -> bool {
        self@ == other@
    }
}

/// Subtracting `q` from `p` gives a displacement that leads from `q` back to `p`; and
/// whenever that displacement is representable, so is `q` moved by it.
pub proof fn point2_sub_then_add(p: Point2<i32>, q: Point2<i32>)
    ensures
        sum_of(q.ints(), difference(p.ints(), q.ints())) == p.ints(),
        fits_i32(sum_of(q.ints(), difference(p.ints(), q.ints()))),
{
    assert(sum_of(q.ints(), difference(p.ints(), q.ints())) =~= p.ints());
}

impl<T> View for Point3<T> {
    type V = Seq<T>;

    closed spec fn view(&self) -> Seq<T> {
        self.0@
    }
}

impl<T> Point3<T> {
    pub fn new(values: [T; 3]) -> (r: Self)
        ensures
            r@ == values@,
    {
        Point3(values)
    }

    pub fn take_inner(self) -> (r: [T; 3])
        ensures
            r@ == self@,
    {
        self.0
    }

    /// The component at `index`, which must be below 3.
    pub fn index(&self, index: usize) -> (r: &T)
        requires
            index < 3,
        ensures
            *r == self@[index as int],
    {
        &self.0[index]
    }

    /// Overwrites the component at `index`, which must be below 3.
    pub fn update(&mut self, index: usize, value: T)
        requires
            index < 3,
        ensures
            final(self)@ == old(self)@.update(index as int, value),
    {
        self.0[index] = value;
    }

    /// The point at the position that the displacement `vec` reaches from the origin.
    pub fn from_vector(vec: Vector3<T>) -> (r: Self)
        ensures
            r@ == vec@,
    {
        Point3(vec.take_inner())
    }
}

impl<T: Copy> Point3<T> {
    /// Copies every component of `value` into this point.
    pub fn set(&mut self, value: &Self)
        ensures
            final(self)@ == value@,
    {
        self.0 = value.0;
    }
}

impl Point3<i32> {
    /// The components as mathematical integers.
    pub open spec fn ints(&self) -> Seq<int> {
        ints(self@)
    }

    /// The origin.
    pub fn zero() -> (r: Self)
        ensures
            r.ints() == Seq::new(3, |i: int| 0int),
    {
        let r = Point3([0, 0, 0]);
        assert(r.ints() =~= Seq::new(3, |i: int| 0int));
        r
    }

    /// The point moved by the displacement `rhs`.
    pub fn add_vector(self, rhs: Vector3<i32>) -> (r: Self)
        requires
            fits_i32(sum_of(self.ints(), rhs.ints())),
        ensures
            r.ints() == sum_of(self.ints(), rhs.ints()),
    {
        let mut v = Vector::new(self.0);
        v.add_assign(rhs);
        Point3(v.take_inner())
    }

    /// Moves the point by the displacement `rhs`, in place.
    pub fn add_assign_vector(&mut self, rhs: Vector3<i32>)
        requires
            fits_i32(sum_of(old(self).ints(), rhs.ints())),
        ensures
            final(self).ints() == sum_of(old(self).ints(), rhs.ints()),
    {
        *self = self.add_vector(rhs);
    }

    /// Component-wise sum of two points, as used to accumulate positions.
    pub fn add_point(self, rhs: Self) -> (r: Self)
        requires
            fits_i32(sum_of(self.ints(), rhs.ints())),
        ensures
            r.ints() == sum_of(self.ints(), rhs.ints()),
    {
        self.add_vector(Vector::new(rhs.0))
    }

    /// Adds the point `rhs` component-wise, in place.
    pub fn add_assign_point(&mut self, rhs: Self)
        requires
            fits_i32(sum_of(old(self).ints(), rhs.ints())),
        ensures
            final(self).ints() == sum_of(old(self).ints(), rhs.ints()),
    {
        *self = self.add_point(rhs);
    }

    /// The point moved back by the displacement `rhs`.
    pub fn sub_vector(self, rhs: Vector3<i32>) -> (r: Self)
        requires
            fits_i32(difference(self.ints(), rhs.ints())),
        ensures
            r.ints() == difference(self.ints(), rhs.ints()),
    {
        let mut v = Vector::new(self.0);
        v.sub_assign(rhs);
        Point3(v.take_inner())
    }

    /// Moves the point back by the displacement `rhs`, in place.
    pub fn sub_assign_vector(&mut self, rhs: Vector3<i32>)
        requires
            fits_i32(difference(old(self).ints(), rhs.ints())),
        ensures
            final(self).ints() == difference(old(self).ints(), rhs.ints()),
    {
        *self = self.sub_vector(rhs);
    }

    /// The displacement that leads from `rhs` to this point.
    pub fn sub_point(self, rhs: Self) -> (r: Vector3<i32>)
        requires
            fits_i32(difference(self.ints(), rhs.ints())),
        ensures
            r.ints() == difference(self.ints(), rhs.ints()),
    {
        let mut v = Vector::new(self.0);
        v.sub_assign(Vector::new(rhs.0));
        v
    }

    /// The point with every component negated.
    pub fn neg(self) -> (r: Self)
        requires
            fits_i32(negated(self.ints())),
        ensures
            r.ints() == negated(self.ints()),
    {
        Point3(Vector::new(self.0).neg().take_inner())
    }

    /// The point with every component multiplied by `rhs`.
    pub fn mul(self, rhs: i32) -> (r: Self)
        requires
            fits_i32(scaled(self.ints(), rhs as int)),
        ensures
            r.ints() == scaled(self.ints(), rhs as int),
    {
        let mut v = Vector::new(self.0);
        v.mul_assign(rhs);
        Point3(v.take_inner())
    }

    /// Multiplies every component by `rhs`, in place.
    pub fn mul_assign(&mut self, rhs: i32)
        requires
            fits_i32(scaled(old(self).ints(), rhs as int)),
        ensures
            final(self).ints() == scaled(old(self).ints(), rhs as int),
    {
        *self = self.mul(rhs);
    }

    /// The point with every component divided by `rhs`, rounding toward zero.
    pub fn div(self, rhs: i32) -> (r: Self)
        requires
            divisible_by(self.ints(), rhs as int),
        ensures
            r.ints() == divided(self.ints(), rhs as int),
    {
        let mut v = Vector::new(self.0);
        v.div_assign(rhs);
        Point3(v.take_inner())
    }

    /// Divides every component by `rhs`, rounding toward zero, in place.
    pub fn div_assign(&mut self, rhs: i32)
        requires
            divisible_by(old(self).ints(), rhs as int),
        ensures
            final(self).ints() == divided(old(self).ints(), rhs as int),
    {
        *self = self.div(rhs);
    }
}

impl PartialEq for Point3<i32> {
    /// Exact component-wise equality.
    fn eq(&self, other: &Self) -> (r: bool) {
        let r = self.0[0] == other.0[0] && self.0[1] == other.0[1] && self.0[2] == other.0[2];
        assert(r ==> self@ =~= other@);
        r
    }
}

impl vstd::std_specs::cmp::PartialEqSpecImpl for Point3<i32> {
    open spec fn obeys_eq_spec() -> bool {
        true
    }

    open spec fn eq_spec(&self, other: &Self) -> bool {
        self@ == other@
    }
}

/// Subtracting `q` from `p` gives a displacement that leads from `q` back to `p`; and
/// whenever that displacement is representable, so is `q` moved by it.
pub proof fn point3_sub_then_add(p: Point3<i32>, q: Point3<i32>)
    ensures
        sum_of(q.ints(), difference(p.ints(), q.ints())) == p.ints(),
        fits_i32(sum_of(q.ints(), difference(p.ints(), q.ints()))),
{
    assert(sum_of(q.ints(), difference(p.ints(), q.ints())) =~= p.ints());
}

impl<T: Copy> Point2<T> {
    /// The point in the plane that drops the third component of `value`.
    pub fn from_point3(value: Point3<T>) -> (r: Self)
        ensures
            r@ == value@.take(2),
    {
        let r = Point2([value.0[0], value.0[1]]);
        assert(r@ =~= value@.take(2));
        r
    }
}

impl<T: Copy> Point3<T> {
    /// The point whose components are this one's at positions `x`, `y` and `z`;
    /// positions may repeat.
    pub fn permute(&self, x: usize, y: usize, z: usize) -> (r: Self)
        requires
            x < 3,
            y < 3,
            z < 3,
        ensures
            r@ == permuted(self@, x as int, y as int, z as int),
    {
        let r = Point3([self.0[x], self.0[y], self.0[z]]);
        assert(r@ =~= permuted(self@, x as int, y as int, z as int));
        r
    }
}

impl Point3<i32> {
    /// Component-wise minimum of two points.
    pub fn min(&self, other: &Self) -> (r: Self)
        ensures
            r.ints() == lesser(self.ints(), other.ints()),
    {
        let r = Point3([
            if self.0[0] <= other.0[0] { self.0[0] } else { other.0[0] },
            if self.0[1] <= other.0[1] { self.0[1] } else { other.0[1] },
            if self.0[2] <= other.0[2] { self.0[2] } else { other.0[2] },
        ]);
        assert(r.ints() =~= lesser(self.ints(), other.ints()));
        r
    }

    /// Component-wise maximum of two points.
    pub fn max(&self, other: &Self) -> (r: Self)
        ensures
            r.ints() == greater(self.ints(), other.ints()),
    {
        let r = Point3([
            if self.0[0] >= other.0[0] { self.0[0] } else { other.0[0] },
            if self.0[1] >= other.0[1] { self.0[1] } else { other.0[1] },
            if self.0[2] >= other.0[2] { self.0[2] } else { other.0[2] },
        ]);
        assert(r.ints() =~= greater(self.ints(), other.ints()));
        r
    }

    /// Component-wise absolute value.
    pub fn abs(&self) -> (r: Self)
        requires
            fits_i32(absolute(self.ints())),
        ensures
            r.ints() == absolute(self.ints()),
    {
        let ghost a = self.ints();
        assert(absolute(a)[0] == (if a[0] < 0 { -a[0] } else { a[0] }));
        assert(absolute(a)[1] == (if a[1] < 0 { -a[1] } else { a[1] }));
        assert(absolute(a)[2] == (if a[2] < 0 { -a[2] } else { a[2] }));
        let r = Point3([
            if self.0[0] < 0 { -self.0[0] } else { self.0[0] },
            if self.0[1] < 0 { -self.0[1] } else { self.0[1] },
            if self.0[2] < 0 { -self.0[2] } else { self.0[2] },
        ]);
        assert(r.ints() =~= absolute(self.ints()));
        r
    }
}

} // verus!
