//! Counting the indices below a bound that satisfy a predicate.
use vstd::prelude::*;

verus! {

/// The number of indices `i` in `0..n` for which `p(i)` holds.
pub open spec fn count_where(n: int, p: spec_fn(int) -> bool) -> nat
    decreases n,
{
    if n <= 0 {
        0
    } else {
        count_where(n - 1, p) + if p(n - 1) {
            1nat
        } else {
            0nat
        }
    }
}

/// A predicate implied by another holds at least as often.
pub proof fn lemma_count_mono(n: int, p: spec_fn(int) -> bool, q: spec_fn(int) -> bool)
    requires
        forall|i: int| 0 <= i < n && #[trigger] p(i) ==> q(i),
    ensures
        count_where(n, p) <= count_where(n, q),
    decreases n,
{
    if n > 0 {
        lemma_count_mono(n - 1, p, q);
    }
}

/// A predicate that holds nowhere below `n` counts zero.
pub proof fn lemma_count_none(n: int, p: spec_fn(int) -> bool)
    requires
        forall|i: int| 0 <= i < n ==> !#[trigger] p(i),
    ensures
        count_where(n, p) == 0,
    decreases n,
{
    if n > 0 {
        lemma_count_none(n - 1, p);
    }
}

/// A predicate implied by the disjunction of two others holds at most as
/// often as those two together.
pub proof fn lemma_count_union(
    n: int,
    p: spec_fn(int) -> bool,
    q: spec_fn(int) -> bool,
    r: spec_fn(int) -> bool,
)
    requires
        forall|i: int| 0 <= i < n && #[trigger] r(i) ==> p(i) || q(i),
    ensures
        count_where(n, r) <= count_where(n, p) + count_where(n, q),
    decreases n,
{
    if n > 0 {
        lemma_count_union(n - 1, p, q, r);
    }
}

/// A predicate that holds at no two distinct indices counts at most one.
pub proof fn lemma_count_at_most_one(n: int, p: spec_fn(int) -> bool)
    requires
        forall|i: int, j: int| 0 <= i < n && 0 <= j < n && #[trigger] p(i) && #[trigger] p(j) ==> i == j,
    ensures
        count_where(n, p) <= 1,
    decreases n,
{
    if n > 0 {
        lemma_count_at_most_one(n - 1, p);
        if p(n - 1) && count_where(n - 1, p) > 0 {
            lemma_count_positive(n - 1, p);
        }
    }
}

/// A positive count has a witness.
pub proof fn lemma_count_positive(n: int, p: spec_fn(int) -> bool)
    requires
        count_where(n, p) > 0,
    ensures
        exists|i: int| 0 <= i < n && #[trigger] p(i),
    decreases n,
{
    if n > 0 && !p(n - 1) {
        lemma_count_positive(n - 1, p);
    }
}

/// A predicate that holds everywhere below `n` counts `n`.
pub proof fn lemma_count_all(n: int, p: spec_fn(int) -> bool)
    requires
        0 <= n,
        forall|i: int| 0 <= i < n ==> #[trigger] p(i),
    ensures
        count_where(n, p) == n,
    decreases n,
{
    if n > 0 {
        lemma_count_all(n - 1, p);
    }
}

/// Counting below `a + b` is counting below `a`, then the next `b` indices.
pub proof fn lemma_count_split(a: int, b: int, p: spec_fn(int) -> bool)
    requires
        0 <= a,
        0 <= b,
    ensures
        count_where(a + b, p) == count_where(a, p) + count_where(b, |i: int| p(a + i)),
    decreases b,
{
    if b > 0 {
        lemma_count_split(a, b - 1, p);
    }
}

} // verus!
