//! The integer model that the contracts of vectors and points are stated in:
//! component sequences of mathematical integers and the operations on them.
use vstd::prelude::*;
use vstd::arithmetic::div_mod::{lemma_div_basics, lemma_div_is_ordered_by_denominator, lemma_div_pos_is_pos};

verus! {

/// The components of a machine-integer sequence, read as mathematical integers.
pub open spec fn ints(s: Seq<i32>) -> Seq<int> {
    s.map_values(|x: i32| x as int)
}

/// Every component lies in the range of `i32`.
pub open spec fn fits_i32(s: Seq<int>) -> bool {
    forall|i: int| 0 <= i < s.len() ==> i32::MIN <= #[trigger] s[i] <= i32::MAX
}

/// Component-wise sum.
pub open spec fn sum_of(a: Seq<int>, b: Seq<int>) -> Seq<int> {
    Seq::new(a.len(), |i: int| a[i] + b[i])
}

/// Component-wise difference.
pub open spec fn difference(a: Seq<int>, b: Seq<int>) -> Seq<int> {
    Seq::new(a.len(), |i: int| a[i] - b[i])
}

/// Every component multiplied by `k`.
pub open spec fn scaled(a: Seq<int>, k: int) -> Seq<int> {
    Seq::new(a.len(), |i: int| a[i] * k)
}

/// Every component negated.
pub open spec fn negated(a: Seq<int>) -> Seq<int> {
    Seq::new(a.len(), |i: int| -a[i])
}

/// Every component replaced by its absolute value.
pub open spec fn absolute(a: Seq<int>) -> Seq<int> {
    Seq::new(a.len(), |i: int| if a[i] < 0 { -a[i] } else { a[i] })
}

/// Component-wise minimum.
pub open spec fn lesser(a: Seq<int>, b: Seq<int>) -> Seq<int> {
    Seq::new(a.len(), |i: int| if a[i] <= b[i] { a[i] } else { b[i] })
}

/// Component-wise maximum.
pub open spec fn greater(a: Seq<int>, b: Seq<int>) -> Seq<int> {
    Seq::new(a.len(), |i: int| if a[i] >= b[i] { a[i] } else { b[i] })
}

/// Integer division rounding toward zero, as machine division does: the quotient of the
/// magnitudes, negative when the signs differ.
pub open spec fn trunc_div(x: int, d: int) -> int {
    let q = (if x < 0 { -x } else { x }) / (if d < 0 { -d } else { d });
    if (x < 0) != (d < 0) {
        -q
    } else {
        q
    }
}

/// Every component divided by `d`, rounding toward zero.
pub open spec fn divided(a: Seq<int>, d: int) -> Seq<int> {
    Seq::new(a.len(), |i: int| trunc_div(a[i], d))
}

/// Dividing every component of `a` by `d` is defined on `i32`: `d` is not zero, and no
/// component is `i32::MIN` divided by `-1`.
pub open spec fn divisible_by(a: Seq<int>, d: int) -> bool {
    d != 0 && (d == -1 ==> forall|i: int| 0 <= i < a.len() ==> #[trigger] a[i] != i32::MIN)
}

/// Sum of the pairwise products of the first `k` components.
pub open spec fn dot_prefix(a: Seq<int>, b: Seq<int>, k: int) -> int
    decreases k,
{
    if k <= 0 {
        0
    } else {
        dot_prefix(a, b, k - 1) + a[k - 1] * b[k - 1]
    }
}

/// Dot product: the sum of the pairwise products of all components.
pub open spec fn dot_of(a: Seq<int>, b: Seq<int>) -> int {
    dot_prefix(a, b, a.len() as int)
}

/// Right-handed cross product of two three-component sequences.
pub open spec fn cross_of(a: Seq<int>, b: Seq<int>) -> Seq<int> {
    seq![
        a[1] * b[2] - a[2] * b[1],
        a[2] * b[0] - a[0] * b[2],
        a[0] * b[1] - a[1] * b[0],
    ]
}

/// The components of `s` at positions `x`, `y` and `z`, in that order.
pub open spec fn permuted<T>(s: Seq<T>, x: int, y: int, z: int) -> Seq<T> {
    seq![s[x], s[y], s[z]]
}

/// The product of two `i32` values is bounded by `2^62` in magnitude.
pub proof fn lemma_i32_product_bound(a: int, b: int)
    requires
        i32::MIN <= a <= i32::MAX,
        i32::MIN <= b <= i32::MAX,
    ensures
        -0x4000_0000_0000_0000 <= a * b <= 0x4000_0000_0000_0000,
{
    assert(-0x4000_0000_0000_0000 <= a * b <= 0x4000_0000_0000_0000) by (nonlinear_arith)
        requires
            -0x8000_0000 <= a <= 0x7fff_ffff,
            -0x8000_0000 <= b <= 0x7fff_ffff,
    ;
}

/// Machine division of `x` by `d` returns `trunc_div(x, d)`, and that quotient is an `i32`.
pub proof fn lemma_trunc_div_i32(x: i32, d: i32)
    requires
        d != 0,
        !(x == i32::MIN && d == -1),
    ensures
        x.checked_div(d) == Some(trunc_div(x as int, d as int) as i32),
        i32::MIN <= trunc_div(x as int, d as int) <= i32::MAX,
{
    let ax: int = if x < 0 { -x } else { x as int };
    let ad: int = if d < 0 { -d } else { d as int };
    lemma_div_pos_is_pos(ax, ad);
    lemma_div_is_ordered_by_denominator(ax, 1, ad);
    lemma_div_basics(ax);
    if ad == 1 {
        assert(ax / ad == ax);
    } else {
        lemma_div_is_ordered_by_denominator(ax, 2, ad);
        assert(ax / 2 <= 0x4000_0000);
    }
    assert(i32::MIN <= trunc_div(x as int, d as int) <= i32::MAX);
    assert(x as int * -1 == -x);
    assert(d as int * -1 == -d);
}

} // verus!
