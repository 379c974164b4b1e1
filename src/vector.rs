use vstd::prelude::*;
use crate::arith::{
    cross_of, difference, divided, divisible_by, dot_of, dot_prefix, fits_i32, ints,
    lemma_i32_product_bound, lemma_trunc_div_i32, negated, permuted, scaled, sum_of, trunc_div,
};

verus! {

/// A fixed-dimension vector of `N` components of type `T`: a displacement or a direction.
#[derive(Clone, Copy)]
pub struct Vector<const N: usize, T>([T; N]);

pub type Vector2<T> = Vector<2, T>;

pub type Vector3<T> = Vector<3, T>;

pub type Vector2i = Vector2<i32>;

pub type Vector3i = Vector3<i32>;

impl<const N: usize, T> View for Vector<N, T> {
    type V = Seq<T>;

    closed spec fn view(&self) -> Seq<T> {
        self.0@
    }
}

impl<const N: usize, T> Vector<N, T> {
    pub fn new(values: [T; N]) -> (r: Self)
        ensures
            r@ == values@,
    {
        Vector(values)
    }

    /// Replaces all components at once.
    pub fn set(&mut self, values: [T; N])
        ensures
            final(self)@ == values@,
    {
        self.0 = values;
    }

    pub fn take_inner(self) -> (r: [T; N])
        ensures
            r@ == self@,
    {
        self.0
    }

    /// The component at `index`, which must be below `N`.
    pub fn index(&self, index: usize) -> (r: &T)
        requires
            index < N,
        ensures
            *r == self@[index as int],
    {
        &self.0[index]
    }

    /// Overwrites the component at `index`, which must be below `N`.
    pub fn update(&mut self, index: usize, value: T)
        requires
            index < N,
        ensures
            final(self)@ == old(self)@.update(index as int, value),
    {
        self.0[index] = value;
    }
}

impl<T> Vector<2, T> {
    pub fn x(&self) -> (r: &T)
        ensures
            *r == self@[0],
    {
        &self.0[0]
    }

    pub fn y(&self) -> (r: &T)
        ensures
            *r == self@[1],
    {
        &self.0[1]
    }
}

impl<T> Vector<3, T> {
    pub fn x(&self) -> (r: &T)
        ensures
            *r == self@[0],
    {
        &self.0[0]
    }

    pub fn y(&self) -> (r: &T)
        ensures
            *r == self@[1],
    {
        &self.0[1]
    }

    pub fn z(&self) -> (r: &T)
        ensures
            *r == self@[2],
    {
        &self.0[2]
    }
}

impl<T: Copy> Vector<3, T> {
    /// The vector whose components are this one's at positions `x`, `y` and `z`;
    /// positions may repeat.
    pub fn permute(&self, x: usize, y: usize, z: usize) -> (r: Self)
        requires
            x < 3,
            y < 3,
            z < 3,
        ensures
            r@ == permuted(self@, x as int, y as int, z as int),
    {
        let r = Vector([self.0[x], self.0[y], self.0[z]]);
        assert(r@ =~= permuted(self@, x as int, y as int, z as int));
        r
    }
}

impl<const N: usize> Vector<N, i32> {
    /// The components as mathematical integers.
    pub open spec fn ints(&self) -> Seq<int> {
        ints(self@)
    }

    /// The vector with every component zero.
    pub fn zero() -> (r: Self)
        ensures
            r.ints() == Seq::new(N as nat, |i: int| 0int),
    {
        let r = Vector([0i32; N]);
        assert(r.ints() =~= Seq::new(N as nat, |i: int| 0int));
        r
    }

    /// Adds `rhs` component-wise, in place.
    pub fn add_assign(&mut self, rhs: Self)
        requires
            fits_i32(sum_of(old(self).ints(), rhs.ints())),
        ensures
            final(self).ints() == sum_of(old(self).ints(), rhs.ints()),
    {
        let ghost a = self.ints();
        let ghost b = rhs.ints();
        let mut i: usize = 0;
        while i < N
            invariant
                i <= N,
                a.len() == N,
                b.len() == N,
                b == rhs.ints(),
                fits_i32(sum_of(a, b)),
                forall|j: int| 0 <= j < i ==> self.0[j] as int == a[j] + b[j],
                forall|j: int| i <= j < N ==> self.0[j] as int == a[j],
            decreases N - i,
        {
            assert(sum_of(a, b)[i as int] == a[i as int] + b[i as int]);
            self.0[i] = self.0[i] + rhs.0[i];
            i = i + 1;
        }
        assert(self.ints() =~= sum_of(a, b));
    }

    /// Subtracts `rhs` component-wise, in place.
    pub fn sub_assign(&mut self, rhs: Self)
        requires
            fits_i32(difference(old(self).ints(), rhs.ints())),
        ensures
            final(self).ints() == difference(old(self).ints(), rhs.ints()),
    {
        let ghost a = self.ints();
        let ghost b = rhs.ints();
        let mut i: usize = 0;
        while i < N
            invariant
                i <= N,
                a.len() == N,
                b.len() == N,
                b == rhs.ints(),
                fits_i32(difference(a, b)),
                forall|j: int| 0 <= j < i ==> self.0[j] as int == a[j] - b[j],
                forall|j: int| i <= j < N ==> self.0[j] as int == a[j],
            decreases N - i,
        {
            assert(difference(a, b)[i as int] == a[i as int] - b[i as int]);
            self.0[i] = self.0[i] - rhs.0[i];
            i = i + 1;
        }
        assert(self.ints() =~= difference(a, b));
    }

    /// Multiplies every component by `rhs`, in place.
    pub fn mul_assign(&mut self, rhs: i32)
        requires
            fits_i32(scaled(old(self).ints(), rhs as int)),
        ensures
            final(self).ints() == scaled(old(self).ints(), rhs as int),
    {
        let ghost a = self.ints();
        let mut i: usize = 0;
        while i < N
            invariant
                i <= N,
                a.len() == N,
                fits_i32(scaled(a, rhs as int)),
                forall|j: int| 0 <= j < i ==> self.0[j] as int == a[j] * rhs,
                forall|j: int| i <= j < N ==> self.0[j] as int == a[j],
            decreases N - i,
        {
            assert(scaled(a, rhs as int)[i as int] == a[i as int] * rhs);
            self.0[i] = self.0[i] * rhs;
            i = i + 1;
        }
        assert(self.ints() =~= scaled(a, rhs as int));
    }

    /// Divides every component by `rhs`, rounding toward zero, in place.
    pub fn div_assign(&mut self, rhs: i32)
        requires
            divisible_by(old(self).ints(), rhs as int),
        ensures
            final(self).ints() == divided(old(self).ints(), rhs as int),
    {
        let ghost a = self.ints();
        let mut i: usize = 0;
        while i < N
            invariant
                i <= N,
                a.len() == N,
                divisible_by(a, rhs as int),
                forall|j: int| 0 <= j < i ==> self.0[j] as int == trunc_div(a[j], rhs as int),
                forall|j: int| i <= j < N ==> self.0[j] as int == a[j],
            decreases N - i,
        {
            assert(a[i as int] != i32::MIN || rhs != -1);
            proof {
                lemma_trunc_div_i32(self.0[i as int], rhs);
            }
            let q = self.0[i].checked_div(rhs).unwrap();
            self.0[i] = q;
            i = i + 1;
        }
        assert(self.ints() =~= divided(a, rhs as int));
    }

    /// The vector with every component negated.
    pub fn neg(self) -> (r: Self)
        requires
            fits_i32(negated(self.ints())),
        ensures
            r.ints() == negated(self.ints()),
    {
        let ghost a = self.ints();
        let mut r = self;
        let mut i: usize = 0;
        while i < N
            invariant
                i <= N,
                a.len() == N,
                fits_i32(negated(a)),
                forall|j: int| 0 <= j < i ==> r.0[j] as int == -a[j],
                forall|j: int| i <= j < N ==> r.0[j] as int == a[j],
            decreases N - i,
        {
            assert(negated(a)[i as int] == -a[i as int]);
            r.0[i] = -r.0[i];
            i = i + 1;
        }
        assert(r.ints() =~= negated(a));
        r
    }

    /// Sum of the pairwise component products. Intermediate sums may leave the range of
    /// `i32`; only the result must lie in it.
    pub fn dot(&self, other: &Self) -> (r: i32)
        requires
            i32::MIN <= dot_of(self.ints(), other.ints()) <= i32::MAX,
        ensures
            r as int == dot_of(self.ints(), other.ints()),
    {
        let ghost a = self.ints();
        let ghost b = other.ints();
        let mut acc: i128 = 0;
        let mut i: usize = 0;
        while i < N
            invariant
                i <= N,
                a == self.ints(),
                b == other.ints(),
                a.len() == N,
                b.len() == N,
                acc as int == dot_prefix(a, b, i as int),
                -(i as int) * 0x4000_0000_0000_0000 <= acc <= (i as int) * 0x4000_0000_0000_0000,
            decreases N - i,
        {
            proof {
                lemma_i32_product_bound(a[i as int], b[i as int]);
            }
            acc = acc + (self.0[i] as i128) * (other.0[i] as i128);
            i = i + 1;
        }
        acc as i32
    }

    /// Absolute value of the dot product.
    pub fn abs_dot(&self, other: &Self) -> (r: i32)
        requires
            i32::MIN < dot_of(self.ints(), other.ints()) <= i32::MAX,
        ensures
            r as int == (if dot_of(self.ints(), other.ints()) < 0 {
                -dot_of(self.ints(), other.ints())
            } else {
                dot_of(self.ints(), other.ints())
            }),
    {
        let d = self.dot(other);
        if d < 0 {
            -d
        } else {
            d
        }
    }

    /// The smallest component.
    pub fn min_component(&self) -> (r: i32)
        requires
            N > 0,
        ensures
            self@.contains(r),
            forall|j: int| 0 <= j < N ==> r <= #[trigger] self@[j],
    {
        let mut m = self.0[0];
        let mut i: usize = 1;
        while i < N
            invariant
                1 <= i <= N,
                self@.contains(m),
                forall|j: int| 0 <= j < i ==> m <= #[trigger] self@[j],
            decreases N - i,
        {
            if self.0[i] < m {
                m = self.0[i];
            }
            i = i + 1;
        }
        m
    }

    /// The largest component.
    pub fn max_component(&self) -> (r: i32)
        requires
            N > 0,
        ensures
            self@.contains(r),
            forall|j: int| 0 <= j < N ==> #[trigger] self@[j] <= r,
    {
        let mut m = self.0[0];
        let mut i: usize = 1;
        while i < N
            invariant
                1 <= i <= N,
                self@.contains(m),
                forall|j: int| 0 <= j < i ==> #[trigger] self@[j] <= m,
            decreases N - i,
        {
            if self.0[i] > m {
                m = self.0[i];
            }
            i = i + 1;
        }
        m
    }

    /// The position of the largest component; of several equal largest ones, the first.
    pub fn max_dimension(&self) -> (r: usize)
        requires
            N > 0,
        ensures
            r < N,
            forall|j: int| 0 <= j < N ==> #[trigger] self@[j] <= self@[r as int],
            forall|j: int| 0 <= j < r ==> #[trigger] self@[j] < self@[r as int],
    {
        let mut best: usize = 0;
        let mut i: usize = 1;
        while i < N
            invariant
                1 <= i <= N,
                best < i,
                forall|j: int| 0 <= j < i ==> #[trigger] self@[j] <= self@[best as int],
                forall|j: int| 0 <= j < best ==> #[trigger] self@[j] < self@[best as int],
            decreases N - i,
        {
            if self.0[i] > self.0[best] {
                best = i;
            }
            i = i + 1;
        }
        best
    }
}

impl Vector<3, i32> {
    /// Right-handed cross product. Intermediate products may leave the range of `i32`;
    /// only the resulting components must lie in it.
    pub fn cross(&self, other: &Self) -> (r: Self)
        requires
            fits_i32(cross_of(self.ints(), other.ints())),
        ensures
            r.ints() == cross_of(self.ints(), other.ints()),
    {
        let ghost c = cross_of(self.ints(), other.ints());
        let (x1, y1, z1) = (self.0[0] as i64, self.0[1] as i64, self.0[2] as i64);
        let (x2, y2, z2) = (other.0[0] as i64, other.0[1] as i64, other.0[2] as i64);
        proof {
            lemma_i32_product_bound(y1 as int, z2 as int);
            lemma_i32_product_bound(z1 as int, y2 as int);
            lemma_i32_product_bound(z1 as int, x2 as int);
            lemma_i32_product_bound(x1 as int, z2 as int);
            lemma_i32_product_bound(x1 as int, y2 as int);
            lemma_i32_product_bound(y1 as int, x2 as int);
            assert(c[0] == y1 * z2 - z1 * y2);
            assert(c[1] == z1 * x2 - x1 * z2);
            assert(c[2] == x1 * y2 - y1 * x2);
        }
        let x = (y1 * z2 - z1 * y2) as i32;
        let y = (z1 * x2 - x1 * z2) as i32;
        let z = (x1 * y2 - y1 * x2) as i32;
        let r = Vector([x, y, z]);
        assert(r.ints() =~= c);
        r
    }
}

/// Adding `b` to `a` and then subtracting `b` again gives back `a`, component by
/// component; so whenever `add_assign` of `b` is allowed, the `sub_assign` of `b` that
/// follows is allowed too.
pub proof fn add_then_sub_restores<const N: usize>(a: Vector<N, i32>, b: Vector<N, i32>)
    ensures
        difference(sum_of(a.ints(), b.ints()), b.ints()) == a.ints(),
        fits_i32(difference(sum_of(a.ints(), b.ints()), b.ints())),
{
    assert(difference(sum_of(a.ints(), b.ints()), b.ints()) =~= a.ints());
}

/// The cross product is anti-commutative: `a × b` is the negation of `b × a`.
pub proof fn cross_anticommutative(a: Vector3<i32>, b: Vector3<i32>)
    ensures
        cross_of(a.ints(), b.ints()) == negated(cross_of(b.ints(), a.ints())),
{
    let (p, q) = (a.ints(), b.ints());
    assert(p[1] * q[2] == q[2] * p[1]) by (nonlinear_arith);
    assert(p[2] * q[1] == q[1] * p[2]) by (nonlinear_arith);
    assert(p[2] * q[0] == q[0] * p[2]) by (nonlinear_arith);
    assert(p[0] * q[2] == q[2] * p[0]) by (nonlinear_arith);
    assert(p[0] * q[1] == q[1] * p[0]) by (nonlinear_arith);
    assert(p[1] * q[0] == q[0] * p[1]) by (nonlinear_arith);
    assert(cross_of(p, q) =~= negated(cross_of(q, p)));
}

impl<const N: usize> Default for Vector<N, i32> {
    fn default() -> (r: Self)
        ensures
            r.ints() == Seq::new(N as nat, |i: int| 0int),
    {
        Self::zero()
    }
}

impl<const N: usize> PartialEq for Vector<N, i32> {
    /// Exact component-wise equality.
    fn eq(&self, other: &Self) -> (r: bool) {
        let mut i: usize = 0;
        while i < N
            invariant
                i <= N,
                forall|j: int| 0 <= j < i ==> self@[j] == other@[j],
            decreases N - i,
        {
            if self.0[i] != other.0[i] {
                return false;
            }
            i = i + 1;
        }
        assert(self@ =~= other@);
        true
    }
}

impl<const N: usize> vstd::std_specs::cmp::PartialEqSpecImpl for Vector<N, i32> {
    open spec fn obeys_eq_spec() -> bool {
        true
    }

    open spec fn eq_spec(&self, other: &Self) -> bool {
        self@ == other@
    }
}

} // verus!
