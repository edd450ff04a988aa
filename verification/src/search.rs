//! Finding and counting in sequences.

use vstd::prelude::*;

verus! {

/// The least index at which `p` holds, or the length of `s` where it holds
/// nowhere.
pub open spec fn first_such<T>(s: Seq<T>, p: spec_fn(T) -> bool) -> int
    decreases s.len(),
{
    if s.len() == 0 {
        0
    } else {
        let before = first_such(s.drop_last(), p);
        if before < s.len() - 1 {
            before
        } else if p(s.last()) {
            s.len() - 1
        } else {
            s.len() as int
        }
    }
}

/// The number of indices at which `p` holds.
pub open spec fn count_such<T>(s: Seq<T>, p: spec_fn(T) -> bool) -> nat
    decreases s.len(),
{
    if s.len() == 0 {
        0
    } else {
        count_such(s.drop_last(), p) + if p(s.last()) {
            1nat
        } else {
            0nat
        }
    }
}

/// `first_such` is an index at which `p` holds, with none before it, or the
/// length.
pub proof fn lemma_first_such<T>(s: Seq<T>, p: spec_fn(T) -> bool)
    ensures
        0 <= first_such(s, p) <= s.len(),
        first_such(s, p) < s.len() ==> p(s[first_such(s, p)]),
        forall|j: int| 0 <= j < first_such(s, p) ==> !p(#[trigger] s[j]),
    decreases s.len(),
{
    if s.len() > 0 {
        lemma_first_such(s.drop_last(), p);
        assert forall|j: int| 0 <= j < first_such(s, p) implies !p(#[trigger] s[j]) by {
            if j < s.len() - 1 {
                assert(s.drop_last()[j] == s[j]);
            }
        }
        let before = first_such(s.drop_last(), p);
        if before < s.len() - 1 {
            assert(s.drop_last()[before] == s[before]);
        }
    }
}

/// An index at which `p` holds, with none before it, is `first_such`; so is
/// the length, where `p` holds nowhere.
pub proof fn lemma_first_such_is<T>(s: Seq<T>, p: spec_fn(T) -> bool, k: int)
    requires
        0 <= k <= s.len(),
        k < s.len() ==> p(s[k]),
        forall|j: int| 0 <= j < k ==> !p(#[trigger] s[j]),
    ensures
        first_such(s, p) == k,
{
    lemma_first_such(s, p);
    let f = first_such(s, p);
    if f < k {
        assert(!p(s[f]));
    } else if k < f {
        assert(!p(s[k]));
    }
}

/// Where `p` holds nowhere it is counted zero times, and the other way
/// round.
pub proof fn lemma_count_none<T>(s: Seq<T>, p: spec_fn(T) -> bool)
    ensures
        count_such(s, p) == 0 <==> (forall|j: int| 0 <= j < s.len() ==> !p(#[trigger] s[j])),
        count_such(s, p) <= s.len(),
    decreases s.len(),
{
    if s.len() > 0 {
        lemma_count_none(s.drop_last(), p);
        if count_such(s, p) == 0 {
            assert forall|j: int| 0 <= j < s.len() implies !p(#[trigger] s[j]) by {
                if j < s.len() - 1 {
                    assert(s.drop_last()[j] == s[j]);
                }
            }
        }
        if forall|j: int| 0 <= j < s.len() ==> !p(#[trigger] s[j]) {
            assert forall|j: int| 0 <= j < s.drop_last().len() implies !p(
                #[trigger] s.drop_last()[j],
            ) by {
                assert(s.drop_last()[j] == s[j]);
            }
            assert(!p(s[s.len() - 1]));
        }
    }
}

/// Where `p` holds at `k` and nowhere else it is counted once.
pub proof fn lemma_count_one<T>(s: Seq<T>, p: spec_fn(T) -> bool, k: int)
    requires
        0 <= k < s.len(),
        forall|j: int| 0 <= j < s.len() ==> (p(#[trigger] s[j]) <==> j == k),
    ensures
        count_such(s, p) == 1,
    decreases s.len(),
{
    let t = s.drop_last();
    if k == s.len() - 1 {
        lemma_count_none(t, p);
        assert forall|j: int| 0 <= j < t.len() implies !p(#[trigger] t[j]) by {
            assert(t[j] == s[j]);
        }
    } else {
        assert forall|j: int| 0 <= j < t.len() implies (p(#[trigger] t[j]) <==> j == k) by {
            assert(t[j] == s[j]);
        }
        lemma_count_one(t, p, k);
        assert(!p(s[s.len() - 1]));
    }
}

/// Two sequences in which `p` and `q` hold at the same indices count alike.
pub proof fn lemma_count_alike<T, U>(s: Seq<T>, p: spec_fn(T) -> bool, t: Seq<U>, q: spec_fn(U) -> bool)
    requires
        s.len() == t.len(),
        forall|j: int| 0 <= j < s.len() ==> (p(#[trigger] s[j]) <==> q(t[j])),
    ensures
        count_such(s, p) == count_such(t, q),
    decreases s.len(),
{
    if s.len() > 0 {
        assert forall|j: int| 0 <= j < s.drop_last().len() implies (p(#[trigger] s.drop_last()[j])
            <==> q(t.drop_last()[j])) by {
            assert(s.drop_last()[j] == s[j]);
            assert(t.drop_last()[j] == t[j]);
        }
        lemma_count_alike(s.drop_last(), p, t.drop_last(), q);
        assert(p(s[s.len() - 1]) <==> q(t[s.len() - 1]));
    }
}

} // verus!
