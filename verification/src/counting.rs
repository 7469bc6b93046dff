//! Counting the members of a sequence that have a property.
//!
//! The coordinator's invariants relate a counter in the shared state to the
//! number of connections whose own view has some value.

use vstd::prelude::*;

verus! {

/// The number of positions of `s` whose element satisfies `p`.
pub open spec fn count_where<T>(s: Seq<T>, p: spec_fn(T) -> bool) -> nat
    decreases s.len(),
{
    if s.len() == 0 {
        0
    } else {
        count_where(s.drop_last(), p) + if p(s.last()) {
            1nat
        } else {
            0nat
        }
    }
}

/// `1` if `p` holds of `x`, else `0`.
pub open spec fn indicator<T>(p: spec_fn(T) -> bool, x: T) -> nat {
    if p(x) {
        1
    } else {
        0
    }
}

/// No more positions satisfy `p` than there are positions.
pub proof fn lemma_count_bounded<T>(s: Seq<T>, p: spec_fn(T) -> bool)
    ensures
        count_where(s, p) <= s.len(),
    decreases s.len(),
{
    if s.len() > 0 {
        lemma_count_bounded(s.drop_last(), p);
    }
}

/// A sequence of elements none of which satisfies `p` counts zero, and the
/// other way round.
pub proof fn lemma_count_zero<T>(s: Seq<T>, p: spec_fn(T) -> bool)
    ensures
        count_where(s, p) == 0 <==> forall|i: int| 0 <= i < s.len() ==> !p(#[trigger] s[i]),
    decreases s.len(),
{
    if s.len() > 0 {
        let t = s.drop_last();
        lemma_count_zero(t, p);
        if count_where(s, p) == 0 {
            assert forall|i: int| 0 <= i < s.len() implies !p(#[trigger] s[i]) by {
                if i < t.len() {
                    assert(t[i] == s[i]);
                }
            }
        } else {
            if p(s.last()) {
                assert(p(s[s.len() - 1]));
            } else {
                let i = choose|i: int| 0 <= i < t.len() && p(#[trigger] t[i]);
                assert(p(s[i]));
            }
        }
    }
}

/// Appending an element adds its indicator to the count.
pub proof fn lemma_count_push<T>(s: Seq<T>, p: spec_fn(T) -> bool, x: T)
    ensures
        count_where(s.push(x), p) == count_where(s, p) + indicator(p, x),
{
    assert(s.push(x).drop_last() =~= s);
}

/// Replacing an element takes its indicator out of the count and puts that
/// of the new element in.
pub proof fn lemma_count_update<T>(s: Seq<T>, p: spec_fn(T) -> bool, i: int, x: T)
    requires
        0 <= i < s.len(),
    ensures
        count_where(s.update(i, x), p) + indicator(p, s[i]) == count_where(s, p) + indicator(p, x),
    decreases s.len(),
{
    let u = s.update(i, x);
    if i == s.len() - 1 {
        assert(u.drop_last() =~= s.drop_last());
    } else {
        lemma_count_update(s.drop_last(), p, i, x);
        assert(u.drop_last() =~= s.drop_last().update(i, x));
    }
}

/// Removing an element takes its indicator out of the count.
pub proof fn lemma_count_remove<T>(s: Seq<T>, p: spec_fn(T) -> bool, i: int)
    requires
        0 <= i < s.len(),
    ensures
        count_where(s.remove(i), p) + indicator(p, s[i]) == count_where(s, p),
    decreases s.len(),
{
    let r = s.remove(i);
    if i == s.len() - 1 {
        assert(r =~= s.drop_last());
    } else {
        lemma_count_remove(s.drop_last(), p, i);
        assert(r.drop_last() =~= s.drop_last().remove(i));
        assert(r.last() == s.last());
    }
}

/// Where at most one position satisfies `p`, two positions that do are the
/// same position.
pub proof fn lemma_count_unique<T>(s: Seq<T>, p: spec_fn(T) -> bool, i: int, j: int)
    requires
        count_where(s, p) <= 1,
        0 <= i < s.len(),
        0 <= j < s.len(),
        p(s[i]),
        p(s[j]),
    ensures
        i == j,
    decreases s.len(),
{
    let t = s.drop_last();
    let last = s.len() - 1;
    if i == last && j == last {
    } else if i == last || j == last {
        let k = if i == last {
            j
        } else {
            i
        };
        assert(p(t[k]));
        lemma_count_zero(t, p);
    } else {
        assert(t[i] == s[i]);
        assert(t[j] == s[j]);
        lemma_count_unique(t, p, i, j);
    }
}

/// Where the count is positive, some position satisfies `p`.
pub proof fn lemma_count_witness<T>(s: Seq<T>, p: spec_fn(T) -> bool) -> (i: int)
    requires
        count_where(s, p) > 0,
    ensures
        0 <= i < s.len(),
        p(s[i]),
{
    lemma_count_zero(s, p);
    choose|i: int| 0 <= i < s.len() && p(#[trigger] s[i])
}

} // verus!
