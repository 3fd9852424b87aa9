//! Sums over finite sets, for totals kept across the contract's tables.
use vstd::prelude::*;

verus! {

/// The sum of `f` over a finite set; 0 over an infinite one.
pub open spec fn sum_of<A>(s: Set<A>, f: spec_fn(A) -> int) -> int
    decreases s.len(),
{
    if s.finite() && s.len() > 0 {
        let x = s.choose();
        f(x) + sum_of(s.remove(x), f)
    } else {
        0
    }
}

/// Taking any one element out of a finite set takes its term out of the sum.
pub proof fn lemma_sum_remove<A>(s: Set<A>, f: spec_fn(A) -> int, x: A)
    requires
        s.finite(),
        s.contains(x),
    ensures
        sum_of(s, f) == f(x) + sum_of(s.remove(x), f),
    decreases s.len(),
{
    let y = s.choose();
    assert(s.len() > 0);
    if y != x {
        lemma_sum_remove(s.remove(y), f, x);
        lemma_sum_remove(s.remove(x), f, y);
        assert(s.remove(y).remove(x) =~= s.remove(x).remove(y));
    }
}

/// Adding a new element adds its term to the sum.
pub proof fn lemma_sum_insert<A>(s: Set<A>, f: spec_fn(A) -> int, x: A)
    requires
        s.finite(),
        !s.contains(x),
    ensures
        sum_of(s.insert(x), f) == f(x) + sum_of(s, f),
{
    lemma_sum_remove(s.insert(x), f, x);
    assert(s.insert(x).remove(x) =~= s);
}

/// Sums of functions that agree on the set are equal.
pub proof fn lemma_sum_congr<A>(s: Set<A>, f: spec_fn(A) -> int, g: spec_fn(A) -> int)
    requires
        s.finite(),
        forall|x: A| s.contains(x) ==> f(x) == g(x),
    ensures
        sum_of(s, f) == sum_of(s, g),
    decreases s.len(),
{
    if s.len() > 0 {
        let x = s.choose();
        lemma_sum_congr(s.remove(x), f, g);
    }
}

/// A function no greater than another on the set has no greater sum.
pub proof fn lemma_sum_mono<A>(s: Set<A>, f: spec_fn(A) -> int, g: spec_fn(A) -> int)
    requires
        s.finite(),
        forall|x: A| s.contains(x) ==> f(x) <= g(x),
    ensures
        sum_of(s, f) <= sum_of(s, g),
    decreases s.len(),
{
    if s.len() > 0 {
        let x = s.choose();
        lemma_sum_mono(s.remove(x), f, g);
    }
}

/// A function that vanishes on the set sums to zero.
pub proof fn lemma_sum_zero<A>(s: Set<A>, f: spec_fn(A) -> int)
    requires
        s.finite(),
        forall|x: A| s.contains(x) ==> f(x) == 0,
    ensures
        sum_of(s, f) == 0,
    decreases s.len(),
{
    if s.len() > 0 {
        let x = s.choose();
        lemma_sum_zero(s.remove(x), f);
    }
}

/// `f` with every value multiplied by `c`.
pub open spec fn scaled<A>(f: spec_fn(A) -> int, c: int) -> spec_fn(A) -> int {
    |x: A| c * f(x)
}

/// Scaling every term scales the sum.
pub proof fn lemma_sum_scale<A>(s: Set<A>, f: spec_fn(A) -> int, c: int)
    requires
        s.finite(),
    ensures
        sum_of(s, scaled(f, c)) == c * sum_of(s, f),
    decreases s.len(),
{
    if s.len() > 0 {
        let x = s.choose();
        lemma_sum_scale(s.remove(x), f, c);
        assert(c * (f(x) + sum_of(s.remove(x), f)) == c * f(x) + c * sum_of(s.remove(x), f)) by (nonlinear_arith);
    }
}

/// Terms that vanish outside a subset do not change the sum.
pub proof fn lemma_sum_superset<A>(s: Set<A>, t: Set<A>, f: spec_fn(A) -> int)
    requires
        t.finite(),
        s.subset_of(t),
        forall|x: A| t.contains(x) && !s.contains(x) ==> f(x) == 0,
    ensures
        sum_of(t, f) == sum_of(s, f),
    decreases t.len(),
{
    vstd::set_lib::lemma_len_subset(s, t);
    if !(t =~= s) {
        let x = choose|x: A| t.contains(x) && !s.contains(x);
        lemma_sum_remove(t, f, x);
        lemma_sum_superset(s, t.remove(x), f);
    }
}

/// Changing one element's term of a sum over a finite set changes the sum
/// by the difference.
pub proof fn lemma_sum_update<A>(s: Set<A>, f: spec_fn(A) -> int, g: spec_fn(A) -> int, x: A)
    requires
        s.finite(),
        s.contains(x),
        forall|y: A| s.contains(y) && y != x ==> f(y) == g(y),
    ensures
        sum_of(s, g) == sum_of(s, f) - f(x) + g(x),
{
    lemma_sum_remove(s, f, x);
    lemma_sum_remove(s, g, x);
    lemma_sum_congr(s.remove(x), f, g);
}

} // verus!
