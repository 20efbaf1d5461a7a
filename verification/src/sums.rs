//! Sums over sequences.

use vstd::prelude::*;

verus! {

/// The sum of `f` over the elements of a sequence.
pub open spec fn total<A>(s: Seq<A>, f: spec_fn(A) -> int) -> int
    decreases s.len(),
{
    if s.len() == 0 {
        0
    } else {
        total(s.drop_last(), f) + f(s.last())
    }
}

/// The sum over one element more.
pub proof fn lemma_total_next<A>(s: Seq<A>, f: spec_fn(A) -> int, k: int)
    requires
        0 <= k < s.len(),
    ensures
        total(s.take(k + 1), f) == total(s.take(k), f) + f(s[k]),
{
    assert(s.take(k + 1).drop_last() =~= s.take(k));
}

/// Where `f` is nowhere negative, a prefix does not add up to more than the whole.
pub proof fn lemma_total_prefix<A>(s: Seq<A>, f: spec_fn(A) -> int, k: int)
    requires
        0 <= k <= s.len(),
        forall|i: int| 0 <= i < s.len() ==> f(#[trigger] s[i]) >= 0,
    ensures
        0 <= total(s.take(k), f) <= total(s, f),
    decreases s.len(),
{
    if s.len() > 0 {
        let rest = s.drop_last();
        if k < s.len() {
            assert forall|i: int| 0 <= i < rest.len() implies f(#[trigger] rest[i]) >= 0 by {
                assert(rest[i] == s[i]);
            }
            lemma_total_prefix(rest, f, k);
            assert(rest.take(k) =~= s.take(k));
            assert(f(s[s.len() - 1]) >= 0);
        } else {
            assert forall|i: int| 0 <= i < rest.len() implies f(#[trigger] rest[i]) >= 0 by {
                assert(rest[i] == s[i]);
            }
            lemma_total_prefix(rest, f, k - 1);
            assert(rest.take(k - 1) =~= rest);
            assert(s.take(k) =~= s);
            assert(f(s[s.len() - 1]) >= 0);
        }
    }
}

/// The sum over the whole sequence is the sum over its longest prefix.
pub proof fn lemma_total_whole<A>(s: Seq<A>, f: spec_fn(A) -> int)
    ensures
        total(s.take(s.len() as int), f) == total(s, f),
        total(s.take(0), f) == 0,
{
    assert(s.take(s.len() as int) =~= s);
}

/// Where `f` is nowhere above `g`, it does not add up to more.
pub proof fn lemma_total_below<A>(s: Seq<A>, f: spec_fn(A) -> int, g: spec_fn(A) -> int)
    requires
        forall|i: int| 0 <= i < s.len() ==> f(#[trigger] s[i]) <= g(s[i]),
    ensures
        total(s, f) <= total(s, g),
    decreases s.len(),
{
    if s.len() > 0 {
        let rest = s.drop_last();
        assert forall|i: int| 0 <= i < rest.len() implies f(#[trigger] rest[i]) <= g(rest[i]) by {
            assert(rest[i] == s[i]);
        }
        lemma_total_below(rest, f, g);
        assert(f(s[s.len() - 1]) <= g(s[s.len() - 1]));
    }
}

/// The sum of `f` over the numbers from 0 up to but not including `n`.
pub open spec fn sum_below(f: spec_fn(int) -> int, n: int) -> int
    decreases n,
{
    if n <= 0 {
        0
    } else {
        sum_below(f, n - 1) + f(n - 1)
    }
}

/// Where `f` is nowhere negative, the sum grows with the range.
pub proof fn lemma_sum_below_grows(f: spec_fn(int) -> int, k: int, n: int)
    requires
        0 <= k <= n,
        forall|c: int| 0 <= c < n ==> #[trigger] f(c) >= 0,
    ensures
        0 <= sum_below(f, k) <= sum_below(f, n),
    decreases n,
{
    if n > 0 {
        assert(f(n - 1) >= 0);
        if k < n {
            lemma_sum_below_grows(f, k, n - 1);
        } else {
            lemma_sum_below_grows(f, n - 1, n - 1);
        }
    }
}

} // verus!
