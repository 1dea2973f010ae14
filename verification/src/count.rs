//! Counting the indices below a bound that satisfy a predicate, with the
//! facts about such counts that the stacking proofs rely on.
use vstd::prelude::*;

verus! {

/// The number of indices `k` with `0 <= k < n` for which `p(k)` holds.
pub open spec fn count_where(n: int, p: spec_fn(int) -> bool) -> nat
    decreases n,
{
    if n <= 0 {
        0
    } else {
        count_where(n - 1, p) + if p(n - 1) { 1nat } else { 0nat }
    }
}

/// A count never exceeds the number of indices considered.
pub proof fn lemma_count_bound(n: int, p: spec_fn(int) -> bool)
    requires
        n >= 0,
    ensures
        count_where(n, p) <= n,
    decreases n,
{
    if n > 0 {
        lemma_count_bound(n - 1, p);
    }
}

/// Counting a weaker predicate gives at least as much.
pub proof fn lemma_count_mono(n: int, p: spec_fn(int) -> bool, q: spec_fn(int) -> bool)
    requires
        forall|k: int| 0 <= k < n && #[trigger] p(k) ==> q(k),
    ensures
        count_where(n, p) <= count_where(n, q),
    decreases n,
{
    if n > 0 {
        lemma_count_mono(n - 1, p, q);
    }
}

/// Counting a weaker predicate that also holds at one index where the
/// stronger one fails gives strictly more.
pub proof fn lemma_count_strict(
    n: int,
    p: spec_fn(int) -> bool,
    q: spec_fn(int) -> bool,
    w: int,
)
    requires
        forall|k: int| 0 <= k < n && #[trigger] p(k) ==> q(k),
        0 <= w < n,
        q(w),
        !p(w),
    ensures
        count_where(n, p) < count_where(n, q),
    decreases n,
{
    if w == n - 1 {
        lemma_count_mono(n - 1, p, q);
    } else {
        lemma_count_strict(n - 1, p, q, w);
    }
}

/// A predicate that holds everywhere below `n` but at one index counts `n - 1`.
pub proof fn lemma_count_all_but_one(n: int, p: spec_fn(int) -> bool, t: int)
    requires
        0 <= t < n,
        forall|k: int| 0 <= k < n ==> (#[trigger] p(k) <==> k != t),
    ensures
        count_where(n, p) == n - 1,
    decreases n,
{
    if n - 1 == t {
        lemma_count_all(n - 1, p);
    } else {
        lemma_count_all_but_one(n - 1, p, t);
    }
}

/// A predicate that holds everywhere below `n` counts `n`.
pub proof fn lemma_count_all(n: int, p: spec_fn(int) -> bool)
    requires
        n >= 0,
        forall|k: int| 0 <= k < n ==> #[trigger] p(k),
    ensures
        count_where(n, p) == n,
    decreases n,
{
    if n > 0 {
        lemma_count_all(n - 1, p);
    }
}

/// Two predicates that agree below `n` count the same.
pub proof fn lemma_count_ext(n: int, p: spec_fn(int) -> bool, q: spec_fn(int) -> bool)
    requires
        forall|k: int| 0 <= k < n ==> (#[trigger] p(k) <==> q(k)),
    ensures
        count_where(n, p) == count_where(n, q),
    decreases n,
{
    if n > 0 {
        lemma_count_ext(n - 1, p, q);
    }
}

} // verus!
