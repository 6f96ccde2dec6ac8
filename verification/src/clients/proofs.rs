use vstd::prelude::*;

use super::stack::{first_index, lemma_first_contains, lemma_without, without};
use super::{is_stacked, refreshed, screen_wf, screens_disjoint, stacked_in, ScreenModel};

verus! {

// ---------------------------------------------------------------------------
// How the stack operations change what a screen holds.
// ---------------------------------------------------------------------------

/// The stacks hold no duplicates and share no window.
pub open spec fn stacks_sound(s: ScreenModel) -> bool {
    &&& s.master.no_duplicates()
    &&& s.aux.no_duplicates()
    &&& forall|k: u64| !(#[trigger] s.master.contains(k) && s.aux.contains(k))
}

pub proof fn lemma_refreshed(s: ScreenModel)
    requires
        stacks_sound(s),
    ensures
        screen_wf(refreshed(s)),
        forall|x: u64| #[trigger] refreshed(s).contains(x) == s.contains(x),
{
    if s.master.len() == 0 && s.aux.len() > 0 {
        let r = refreshed(s);
        assert forall|x: u64| #[trigger] r.contains(x) == s.contains(x) by {
            if s.aux.contains(x) {
                let i = choose|i: int| 0 <= i < s.aux.len() && s.aux[i] == x;
                if i == 0 {
                    assert(r.master[0] == x);
                } else {
                    assert(r.aux[i - 1] == x);
                }
            }
            if r.aux.contains(x) {
                let i = choose|i: int| 0 <= i < r.aux.len() && r.aux[i] == x;
                assert(s.aux[i + 1] == x);
            }
            if r.master.contains(x) {
                assert(s.aux[0] == x);
            }
        }
        assert forall|k: u64| !(#[trigger] r.master.contains(k) && r.aux.contains(k)) by {
            if r.master.contains(k) && r.aux.contains(k) {
                let i = choose|i: int| 0 <= i < r.aux.len() && r.aux[i] == k;
                assert(s.aux[i + 1] == k);
                assert(r.master[0] == k);
                assert(s.aux[0] == k);
            }
        }
        assert(r.aux.no_duplicates()) by {
            assert forall|i: int, j: int| 0 <= i < r.aux.len() && 0 <= j < r.aux.len() && i != j implies r.aux[i] != r.aux[j] by {
                assert(r.aux[i] == s.aux[i + 1]);
                assert(r.aux[j] == s.aux[j + 1]);
            }
        }
    }
}

pub proof fn lemma_inserted(s: ScreenModel, k: u64)
    requires
        screen_wf(s),
        !s.contains(k),
    ensures
        screen_wf(s.inserted(k)),
        forall|x: u64| #[trigger] s.inserted(k).contains(x) == (s.contains(x) || x == k),
{
    let t = ScreenModel { master: s.master, aux: s.aux.push(k) };
    assert forall|x: u64| #[trigger] t.aux.contains(x) == (s.aux.contains(x) || x == k) by {
        if t.aux.contains(x) {
            let i = choose|i: int| 0 <= i < t.aux.len() && t.aux[i] == x;
            if i < s.aux.len() {
                assert(s.aux[i] == x);
            }
        }
        if s.aux.contains(x) {
            let i = choose|i: int| 0 <= i < s.aux.len() && s.aux[i] == x;
            assert(t.aux[i] == x);
        }
        if x == k {
            assert(t.aux[s.aux.len() as int] == x);
        }
    }
    assert(t.aux.no_duplicates()) by {
        assert forall|i: int, j: int| 0 <= i < t.aux.len() && 0 <= j < t.aux.len() && i != j implies t.aux[i] != t.aux[j] by {
            if i == s.aux.len() {
                assert(s.aux.contains(t.aux[j]));
            } else if j == s.aux.len() {
                assert(s.aux.contains(t.aux[i]));
            }
        }
    }
    assert(forall|x: u64| !(#[trigger] t.master.contains(x) && t.aux.contains(x)));
    lemma_refreshed(t);
}

pub proof fn lemma_removed(s: ScreenModel, k: u64)
    requires
        screen_wf(s),
    ensures
        screen_wf(s.removed(k)),
        forall|x: u64| #[trigger] s.removed(k).contains(x) == (s.contains(x) && x != k),
{
    lemma_without(s.master, k);
    lemma_without(s.aux, k);
    let t = ScreenModel { master: without(s.master, k), aux: without(s.aux, k) };
    assert forall|x: u64| !(#[trigger] t.master.contains(x) && t.aux.contains(x)) by {
        if t.master.contains(x) {
            assert(s.master.contains(x));
        }
    }
    lemma_refreshed(t);
}

/// Removing position `i` of a sequence.
proof fn lemma_remove_contains(s: Seq<u64>, i: int)
    requires
        s.no_duplicates(),
        0 <= i < s.len(),
    ensures
        forall|x: u64| #[trigger] s.remove(i).contains(x) == (s.contains(x) && x != s[i]),
        s.remove(i).no_duplicates(),
{
    let r = s.remove(i);
    assert forall|x: u64| #[trigger] r.contains(x) == (s.contains(x) && x != s[i]) by {
        if r.contains(x) {
            let j = choose|j: int| 0 <= j < r.len() && r[j] == x;
            if j < i {
                assert(s[j] == x);
            } else {
                assert(s[j + 1] == x);
            }
        }
        if s.contains(x) && x != s[i] {
            let j = choose|j: int| 0 <= j < s.len() && s[j] == x;
            if j < i {
                assert(r[j] == x);
            } else {
                assert(j != i);
                assert(r[j - 1] == x);
            }
        }
    }
    assert forall|a: int, b: int| 0 <= a < r.len() && 0 <= b < r.len() && a != b implies r[a] != r[b] by {
        let a1 = if a < i { a } else { a + 1 };
        let b1 = if b < i { b } else { b + 1 };
        assert(r[a] == s[a1]);
        assert(r[b] == s[b1]);
    }
}

/// Appending an element not yet in a sequence.
proof fn lemma_push_contains(s: Seq<u64>, k: u64)
    requires
        s.no_duplicates(),
        !s.contains(k),
    ensures
        forall|x: u64| #[trigger] s.push(k).contains(x) == (s.contains(x) || x == k),
        s.push(k).no_duplicates(),
{
    let t = s.push(k);
    assert forall|x: u64| #[trigger] t.contains(x) == (s.contains(x) || x == k) by {
        if t.contains(x) {
            let i = choose|i: int| 0 <= i < t.len() && t[i] == x;
            if i < s.len() {
                assert(s[i] == x);
            }
        }
        if s.contains(x) {
            let i = choose|i: int| 0 <= i < s.len() && s[i] == x;
            assert(t[i] == x);
        }
        if x == k {
            assert(t[s.len() as int] == x);
        }
    }
    assert forall|i: int, j: int| 0 <= i < t.len() && 0 <= j < t.len() && i != j implies t[i] != t[j] by {
        if i == s.len() {
            assert(s.contains(t[j]));
        } else if j == s.len() {
            assert(s.contains(t[i]));
        }
    }
}

pub proof fn lemma_switched(s: ScreenModel, k: u64)
    requires
        screen_wf(s),
        s.contains(k),
    ensures
        screen_wf(s.switched(k)),
        forall|x: u64| #[trigger] s.switched(k).contains(x) == s.contains(x),
{
    if s.master.contains(k) {
        lemma_first_contains(s.master, k);
        let i = first_index(s.master, k);
        lemma_remove_contains(s.master, i);
        lemma_push_contains(s.aux, k);
        let t = ScreenModel { master: s.master.remove(i), aux: s.aux.push(k) };
        assert forall|x: u64| !(#[trigger] t.master.contains(x) && t.aux.contains(x)) by {}
        lemma_refreshed(t);
    } else {
        lemma_first_contains(s.aux, k);
        let i = first_index(s.aux, k);
        lemma_remove_contains(s.aux, i);
        lemma_push_contains(s.master, k);
        let t = ScreenModel { master: s.master.push(k), aux: s.aux.remove(i) };
        assert forall|x: u64| !(#[trigger] t.master.contains(x) && t.aux.contains(x)) by {}
        lemma_refreshed(t);
    }
}

// ---------------------------------------------------------------------------
// Replacing one screen.
// ---------------------------------------------------------------------------

/// Replacing screen `i` by one that holds the same windows plus `k` (on no screen before).
pub proof fn lemma_screens_add(screens: Seq<ScreenModel>, i: int, s: ScreenModel, k: u64)
    requires
        screens_disjoint(screens),
        0 <= i < screens.len(),
        !is_stacked(screens, k),
        forall|x: u64| #[trigger] s.contains(x) == (screens[i].contains(x) || x == k),
    ensures
        screens_disjoint(screens.update(i, s)),
        forall|x: u64| #[trigger] is_stacked(screens.update(i, s), x) == (is_stacked(screens, x) || x == k),
{
    let t = screens.update(i, s);
    assert forall|a: int, b: int, x: u64|
        0 <= a < t.len() && 0 <= b < t.len() && a != b && #[trigger] stacked_in(t, a, x)
            implies !#[trigger] stacked_in(t, b, x) by {
        if x == k {
            if a != i {
                assert(stacked_in(screens, a, x));
            } else if stacked_in(t, b, x) {
                assert(stacked_in(screens, b, x));
            }
        } else {
            assert(stacked_in(screens, a, x));
            if stacked_in(t, b, x) {
                assert(stacked_in(screens, b, x));
            }
        }
    }
    assert forall|x: u64| #[trigger] is_stacked(t, x) == (is_stacked(screens, x) || x == k) by {
        if is_stacked(t, x) {
            let a = choose|a: int| 0 <= a < t.len() && #[trigger] stacked_in(t, a, x);
            if x != k {
                assert(stacked_in(screens, a, x));
            }
        }
        if is_stacked(screens, x) {
            let a = choose|a: int| 0 <= a < screens.len() && #[trigger] stacked_in(screens, a, x);
            assert(stacked_in(t, a, x));
        }
        if x == k {
            assert(stacked_in(t, i, x));
        }
    }
}

/// Replacing screen `i` by one that holds the same windows but `k`.
pub proof fn lemma_screens_sub(screens: Seq<ScreenModel>, i: int, s: ScreenModel, k: u64)
    requires
        screens_disjoint(screens),
        0 <= i < screens.len(),
        stacked_in(screens, i, k) || !is_stacked(screens, k),
        forall|x: u64| #[trigger] s.contains(x) == (screens[i].contains(x) && x != k),
    ensures
        screens_disjoint(screens.update(i, s)),
        forall|x: u64| #[trigger] is_stacked(screens.update(i, s), x) == (is_stacked(screens, x) && x != k),
{
    let t = screens.update(i, s);
    assert forall|a: int, b: int, x: u64|
        0 <= a < t.len() && 0 <= b < t.len() && a != b && #[trigger] stacked_in(t, a, x)
            implies !#[trigger] stacked_in(t, b, x) by {
        assert(stacked_in(screens, a, x));
        if stacked_in(t, b, x) {
            assert(stacked_in(screens, b, x));
        }
    }
    assert forall|x: u64| #[trigger] is_stacked(t, x) == (is_stacked(screens, x) && x != k) by {
        if is_stacked(t, x) {
            let a = choose|a: int| 0 <= a < t.len() && #[trigger] stacked_in(t, a, x);
            assert(stacked_in(screens, a, x));
        }
        if is_stacked(screens, x) && x != k {
            let a = choose|a: int| 0 <= a < screens.len() && #[trigger] stacked_in(screens, a, x);
            assert(stacked_in(t, a, x));
        }
        if x == k && is_stacked(t, x) {
            let a = choose|a: int| 0 <= a < t.len() && #[trigger] stacked_in(t, a, x);
            assert(stacked_in(screens, a, x));
        }
    }
}

/// Replacing screen `i` by one that holds the same windows.
pub proof fn lemma_screens_same(screens: Seq<ScreenModel>, i: int, s: ScreenModel)
    requires
        screens_disjoint(screens),
        0 <= i < screens.len(),
        forall|x: u64| #[trigger] s.contains(x) == screens[i].contains(x),
    ensures
        screens_disjoint(screens.update(i, s)),
        forall|x: u64| #[trigger] is_stacked(screens.update(i, s), x) == is_stacked(screens, x),
{
    let t = screens.update(i, s);
    assert forall|a: int, b: int, x: u64|
        0 <= a < t.len() && 0 <= b < t.len() && a != b && #[trigger] stacked_in(t, a, x)
            implies !#[trigger] stacked_in(t, b, x) by {
        assert(stacked_in(screens, a, x));
        if stacked_in(t, b, x) {
            assert(stacked_in(screens, b, x));
        }
    }
    assert forall|x: u64| #[trigger] is_stacked(t, x) == is_stacked(screens, x) by {
        if is_stacked(t, x) {
            let a = choose|a: int| 0 <= a < t.len() && #[trigger] stacked_in(t, a, x);
            assert(stacked_in(screens, a, x));
        }
        if is_stacked(screens, x) {
            let a = choose|a: int| 0 <= a < screens.len() && #[trigger] stacked_in(screens, a, x);
            assert(stacked_in(t, a, x));
        }
    }
}

} // verus!
