use vstd::prelude::*;

use crate::clients::Client;
use crate::util::BuildIdentityHasher;

verus! {

#[verifier::external_type_specification]
#[verifier::external_body]
#[verifier::reject_recursive_types(K)]
#[verifier::reject_recursive_types(V)]
#[verifier::reject_recursive_types(S)]
pub struct ExIndexMap<K, V, S>(indexmap::IndexMap<K, V, S>);

#[verifier::external_type_specification]
#[verifier::external_body]
#[verifier::reject_recursive_types(H)]
pub struct ExBuildHasherDefault<H>(std::hash::BuildHasherDefault<H>);

// ---------------------------------------------------------------------------
// Entry sequences: the ordered key/value pairs of an insertion-ordered map.
// ---------------------------------------------------------------------------

/// Some entry of `s` has key `k`.
pub open spec fn has_key<V>(s: Seq<(u64, V)>, k: u64) -> bool {
    exists|i: int| 0 <= i < s.len() && #[trigger] s[i].0 == k
}

/// No key occurs twice in `s`.
pub open spec fn keys_unique<V>(s: Seq<(u64, V)>) -> bool {
    forall|i: int, j: int|
        0 <= i < s.len() && 0 <= j < s.len() && #[trigger] s[i].0 == #[trigger] s[j].0 ==> i == j
}

/// The position of key `k` in `s` (meaningful when `has_key(s, k)`).
pub open spec fn key_index<V>(s: Seq<(u64, V)>, k: u64) -> int {
    choose|i: int| 0 <= i < s.len() && s[i].0 == k
}

/// The value stored under `k` (meaningful when `has_key(s, k)`).
pub open spec fn value_of<V>(s: Seq<(u64, V)>, k: u64) -> V {
    s[key_index(s, k)].1
}

/// The keys of `s`, in order.
pub open spec fn keys_of<V>(s: Seq<(u64, V)>) -> Seq<u64> {
    s.map_values(|e: (u64, V)| e.0)
}

/// Inserting `(k, v)`: an existing key keeps its place and gets the new value,
/// a new key goes last.
pub open spec fn upsert<V>(s: Seq<(u64, V)>, k: u64, v: V) -> Seq<(u64, V)> {
    if has_key(s, k) {
        s.update(key_index(s, k), (k, v))
    } else {
        s.push((k, v))
    }
}

/// Removing key `k` by moving the last entry into its place.
pub open spec fn swap_remove<V>(s: Seq<(u64, V)>, k: u64) -> Seq<(u64, V)> {
    if has_key(s, k) {
        s.update(key_index(s, k), s.last()).drop_last()
    } else {
        s
    }
}

pub proof fn lemma_key_index<V>(s: Seq<(u64, V)>, i: int)
    requires
        keys_unique(s),
        0 <= i < s.len(),
    ensures
        has_key(s, s[i].0),
        key_index(s, s[i].0) == i,
        value_of(s, s[i].0) == s[i].1,
{
    assert(has_key(s, s[i].0));
    let j = key_index(s, s[i].0);
    assert(s[j].0 == s[i].0);
}

pub proof fn lemma_upsert<V>(s: Seq<(u64, V)>, k: u64, v: V)
    requires
        keys_unique(s),
    ensures
        keys_unique(upsert(s, k, v)),
        has_key(upsert(s, k, v), k),
        value_of(upsert(s, k, v), k) == v,
        forall|x: u64| x != k ==> (has_key(upsert(s, k, v), x) == has_key(s, x)),
        forall|x: u64| x != k && has_key(s, x) ==> value_of(upsert(s, k, v), x) == value_of(s, x),
        keys_of(upsert(s, k, v)) == if has_key(s, k) { keys_of(s) } else { keys_of(s).push(k) },
{
    let t = upsert(s, k, v);
    if has_key(s, k) {
        let i = key_index(s, k);
        assert(forall|j: int| 0 <= j < s.len() ==> #[trigger] t[j].0 == s[j].0);
    } else {
        assert(forall|j: int| 0 <= j < s.len() ==> #[trigger] t[j] == s[j]);
    }
    assert(keys_unique(t));
    assert forall|x: u64| x != k implies (has_key(t, x) == has_key(s, x)) by {
        if has_key(s, x) {
            let j = key_index(s, x);
            assert(t[j].0 == x);
        }
        if has_key(t, x) {
            let j = key_index(t, x);
            assert(s[j].0 == x);
        }
    }
    assert forall|x: u64| x != k && has_key(s, x) implies value_of(t, x) == value_of(s, x) by {
        let j = key_index(s, x);
        lemma_key_index(s, j);
        assert(t[j].0 == x);
        lemma_key_index(t, j);
    }
    let n = t.len() - 1;
    if has_key(s, k) {
        lemma_key_index(t, key_index(s, k));
        assert(keys_of(t) =~= keys_of(s));
    } else {
        lemma_key_index(t, n);
        assert(keys_of(t) =~= keys_of(s).push(k));
    }
}

pub proof fn lemma_swap_remove<V>(s: Seq<(u64, V)>, k: u64)
    requires
        keys_unique(s),
    ensures
        keys_unique(swap_remove(s, k)),
        !has_key(swap_remove(s, k), k),
        forall|x: u64| x != k ==> (has_key(swap_remove(s, k), x) == has_key(s, x)),
        forall|x: u64| x != k && has_key(s, x) ==> value_of(swap_remove(s, k), x) == value_of(s, x),
        swap_remove(s, k).len() == if has_key(s, k) { s.len() - 1 } else { s.len() as int },
{
    let t = swap_remove(s, k);
    if has_key(s, k) {
        let i = key_index(s, k);
        let n = s.len() - 1;
        assert forall|j: int| 0 <= j < t.len() implies #[trigger] t[j] == (if j == i { s[n] } else { s[j] }) by {}
        assert(keys_unique(t));
        assert forall|x: u64| x != k implies (has_key(t, x) == has_key(s, x)) by {
            if has_key(s, x) {
                let j = key_index(s, x);
                if j == n {
                    assert(t[i].0 == x);
                } else {
                    assert(t[j].0 == x);
                }
            }
            if has_key(t, x) {
                let j = key_index(t, x);
                if j == i {
                    assert(s[n].0 == x);
                } else {
                    assert(s[j].0 == x);
                }
            }
        }
        assert forall|x: u64| x != k && has_key(s, x) implies value_of(t, x) == value_of(s, x) by {
            let j = key_index(s, x);
            lemma_key_index(s, j);
            if j == n {
                assert(t[i] == s[n]);
                lemma_key_index(t, i);
            } else {
                assert(t[j] == s[j]);
                lemma_key_index(t, j);
            }
        }
        if has_key(t, k) {
            let j = key_index(t, k);
            if j == i {
                assert(s[n].0 == k);
            } else {
                assert(s[j].0 == k);
            }
        }
    }
}

// ---------------------------------------------------------------------------
// The client tables of `ClientState`: `IndexMap<u64, Client, BuildIdentityHasher>`.
// ---------------------------------------------------------------------------

/// The entries of a client table, in the map's order.
pub uninterp spec fn client_entries(m: indexmap::IndexMap<u64, Client, BuildIdentityHasher>) -> Seq<(u64, Client)>;

/// `IndexMap::default`: an empty map.
#[verifier::external_body]
pub(crate) fn client_map_new() -> (m: indexmap::IndexMap<u64, Client, BuildIdentityHasher>)
    ensures
        client_entries(m) == Seq::<(u64, Client)>::empty(),
{
    indexmap::IndexMap::default()
}

/// `IndexMap::insert`: an existing key keeps its place and gets the new value (the old
/// one is returned); a new key is appended.
#[verifier::external_body]
pub(crate) fn client_map_insert(
    m: &mut indexmap::IndexMap<u64, Client, BuildIdentityHasher>,
    k: u64,
    v: Client,
) -> (r: Option<Client>)
    requires
        keys_unique(client_entries(*old(m))),
    ensures
        client_entries(*final(m)) == upsert(client_entries(*old(m)), k, v),
        r == if has_key(client_entries(*old(m)), k) {
            Some(value_of(client_entries(*old(m)), k))
        } else {
            None
        },
{
    m.insert(k, v)
}

/// `IndexMap::swap_remove`: the entry of `k` is replaced by the last entry, which is
/// popped; the removed value is returned.
#[verifier::external_body]
pub(crate) fn client_map_swap_remove(
    m: &mut indexmap::IndexMap<u64, Client, BuildIdentityHasher>,
    k: &u64,
) -> (r: Option<Client>)
    requires
        keys_unique(client_entries(*old(m))),
    ensures
        client_entries(*final(m)) == swap_remove(client_entries(*old(m)), *k),
        r == if has_key(client_entries(*old(m)), *k) {
            Some(value_of(client_entries(*old(m)), *k))
        } else {
            None
        },
{
    m.swap_remove(k)
}

/// `IndexMap::get`: the value stored under `k`, if any.
#[verifier::external_body]
pub(crate) fn client_map_get<'a>(
    m: &'a indexmap::IndexMap<u64, Client, BuildIdentityHasher>,
    k: &u64,
) -> (r: Option<&'a Client>)
    requires
        keys_unique(client_entries(*m)),
    ensures
        match r {
            Some(c) => has_key(client_entries(*m), *k) && *c == value_of(client_entries(*m), *k),
            None => !has_key(client_entries(*m), *k),
        },
{
    m.get(k)
}

/// `IndexMap::contains_key`.
#[verifier::external_body]
pub(crate) fn client_map_contains_key(
    m: &indexmap::IndexMap<u64, Client, BuildIdentityHasher>,
    k: &u64,
) -> (r: bool)
    ensures
        r == has_key(client_entries(*m), *k),
{
    m.contains_key(k)
}

/// `IndexMap::len`.
#[verifier::external_body]
pub(crate) fn client_map_len(m: &indexmap::IndexMap<u64, Client, BuildIdentityHasher>) -> (r: usize)
    ensures
        r == client_entries(*m).len(),
{
    m.len()
}

/// `IndexMap::get_index`: the entry at position `i`, if `i` is in range.
#[verifier::external_body]
pub(crate) fn client_map_get_index<'a>(
    m: &'a indexmap::IndexMap<u64, Client, BuildIdentityHasher>,
    i: usize,
) -> (r: Option<(&'a u64, &'a Client)>)
    ensures
        match r {
            Some(e) => i < client_entries(*m).len() && *e.0 == client_entries(*m)[i as int].0
                && *e.1 == client_entries(*m)[i as int].1,
            None => i >= client_entries(*m).len(),
        },
{
    m.get_index(i)
}

} // verus!
