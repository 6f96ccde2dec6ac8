use vstd::prelude::*;

verus! {

// ---------------------------------------------------------------------------
// Facts about window stacks, sequences of window ids.
// ---------------------------------------------------------------------------

/// `i` is the first position of `k` in `s`.
pub open spec fn is_first(s: Seq<u64>, k: u64, i: int) -> bool {
    &&& 0 <= i < s.len()
    &&& s[i] == k
    &&& forall|j: int| 0 <= j < i ==> s[j] != k
}

/// The first position of `k` in `s` (meaningful when `s` contains `k`).
pub open spec fn first_index(s: Seq<u64>, k: u64) -> int {
    choose|i: int| is_first(s, k, i)
}

pub proof fn lemma_first_index(s: Seq<u64>, k: u64, i: int)
    requires
        is_first(s, k, i),
    ensures
        first_index(s, k) == i,
{
    let f = first_index(s, k);
    assert(is_first(s, k, f));
    if f < i {
        assert(s[f] == k);
    } else if f > i {
        assert(s[i] == k);
    }
}

pub proof fn lemma_first_exists(s: Seq<u64>, k: u64, i: int)
    requires
        0 <= i < s.len(),
        s[i] == k,
    ensures
        is_first(s, k, first_index(s, k)),
        first_index(s, k) <= i,
    decreases i,
{
    if exists|j: int| 0 <= j < i && s[j] == k {
        let j = choose|j: int| 0 <= j < i && s[j] == k;
        lemma_first_exists(s, k, j);
    } else {
        assert(is_first(s, k, i));
        lemma_first_index(s, k, i);
    }
}

pub proof fn lemma_first_contains(s: Seq<u64>, k: u64)
    requires
        s.contains(k),
    ensures
        is_first(s, k, first_index(s, k)),
{
    let i = choose|i: int| 0 <= i < s.len() && s[i] == k;
    lemma_first_exists(s, k, i);
}

/// In a sequence without duplicates, the first position of an element is its position.
pub proof fn lemma_first_unique(s: Seq<u64>, i: int)
    requires
        s.no_duplicates(),
        0 <= i < s.len(),
    ensures
        first_index(s, s[i]) == i,
{
    assert(is_first(s, s[i], i));
    lemma_first_index(s, s[i], i);
}

/// `s` without any occurrence of `k`.
pub open spec fn without(s: Seq<u64>, k: u64) -> Seq<u64> {
    s.filter(|x: u64| x != k)
}

pub proof fn lemma_without(s: Seq<u64>, k: u64)
    ensures
        forall|x: u64| #[trigger] without(s, k).contains(x) == (x != k && s.contains(x)),
        s.no_duplicates() ==> without(s, k).no_duplicates(),
        !s.contains(k) ==> without(s, k) == s,
    decreases s.len(),
{
    broadcast use vstd::seq_lib::group_seq_properties;
    reveal(Seq::filter);
    if s.len() > 0 {
        lemma_without(s.drop_last(), k);
        assert(without(s, k) == (if s.last() != k {
            without(s.drop_last(), k).push(s.last())
        } else {
            without(s.drop_last(), k)
        }));
        assert(s =~= s.drop_last().push(s.last()));
        if !s.contains(k) {
            assert(!s.drop_last().contains(k));
            assert(without(s, k) =~= s);
        }
        if s.no_duplicates() {
            assert(s.drop_last().no_duplicates());
            assert(!s.drop_last().contains(s.last()));
            if s.last() != k {
                let w = without(s.drop_last(), k);
                assert(!w.contains(s.last()));
                let t = w.push(s.last());
                assert forall|i: int, j: int| 0 <= i < t.len() && 0 <= j < t.len() && i != j implies t[i] != t[j] by {
                    if i == t.len() - 1 {
                        assert(w.contains(t[j]));
                    } else if j == t.len() - 1 {
                        assert(w.contains(t[i]));
                    }
                }
            }
        }
    } else {
        assert(without(s, k) =~= s);
    }
}

} // verus!
