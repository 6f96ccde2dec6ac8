use vstd::prelude::*;

use std::cmp::Ordering;
use vstd::std_specs::cmp::PartialOrdSpecImpl;

use crate::maps::{has_key, keys_unique, lemma_swap_remove, lemma_upsert, swap_remove, upsert, value_of};

verus! {

/// Client structure.
#[derive(Clone, Copy, Debug)]
pub struct Client {
    window_id: u64,
    size: (i32, i32),
    position: (i32, i32),
    transient_for: Option<u64>,
}

impl PartialEq for Client {
    fn eq(&self, other: &Self) -> (r: bool) {
        self.window_id == other.window_id
    }
}

impl vstd::std_specs::cmp::PartialEqSpecImpl for Client {
    open spec fn obeys_eq_spec() -> bool {
        true
    }

    open spec fn eq_spec(&self, other: &Self) -> bool {
        self.id() == other.id()
    }
}

impl Eq for Client {}

/// Clients are ordered by their windows.
impl PartialOrd for Client {
    fn partial_cmp(&self, other: &Self) -> (r: Option<Ordering>) {
        self.window_id.partial_cmp(&other.window_id)
    }
}

impl PartialOrdSpecImpl for Client {
    open spec fn obeys_partial_cmp_spec() -> bool {
        true
    }

    open spec fn partial_cmp_spec(&self, other: &Self) -> Option<Ordering> {
        if self.id() < other.id() {
            Some(Ordering::Less)
        } else if self.id() > other.id() {
            Some(Ordering::Greater)
        } else {
            Some(Ordering::Equal)
        }
    }
}

impl std::borrow::Borrow<u64> for Client {
    fn borrow(&self) -> &u64
        returns
            &self.id(),
    {
        &self.window_id
    }
}

impl Client {
    pub closed spec fn id(self) -> u64 {
        self.window_id
    }

    pub closed spec fn geometry(self) -> ((i32, i32), (i32, i32)) {
        (self.size, self.position)
    }

    pub closed spec fn transient(self) -> Option<u64> {
        self.transient_for
    }

    /// The client with the given size and position.
    pub closed spec fn with_geometry(self, size: (i32, i32), position: (i32, i32)) -> Client {
        Client { size, position, ..self }
    }

    pub proof fn lemma_with_geometry(self, size: (i32, i32), position: (i32, i32))
        ensures
            self.with_geometry(size, position).id() == self.id(),
            self.with_geometry(size, position).transient() == self.transient(),
            self.with_geometry(size, position).geometry() == (size, position),
    {
    }

    /// A client is its window, its geometry and its transient parent.
    pub proof fn lemma_same_parts(self, other: Client)
        requires
            self.id() == other.id(),
            self.geometry() == other.geometry(),
            self.transient() == other.transient(),
        ensures
            self == other,
    {
    }

    /// A client of window `window_id`, 100x100 at the origin, not transient.
    pub fn new(window_id: u64) -> (r: Self)
        ensures
            r.id() == window_id,
            r.geometry() == ((100i32, 100i32), (0i32, 0i32)),
            r.transient() is None,
    {
        Self { window_id, size: (100, 100), position: (0, 0), transient_for: None }
    }

    pub fn window_id_ref(&self) -> (r: &u64)
        ensures
            *r == self.id(),
    {
        &self.window_id
    }

    pub fn window_id(&self) -> (r: u64)
        ensures
            r == self.id(),
    {
        self.window_id
    }

    /// The client's size.
    pub fn size(&self) -> (r: &(i32, i32))
        ensures
            *r == self.geometry().0,
    {
        &self.size
    }

    /// The client's position.
    pub fn position(&self) -> (r: &(i32, i32))
        ensures
            *r == self.geometry().1,
    {
        &self.position
    }

    /// Sets the client's size.
    pub fn set_size(&mut self, size: (i32, i32))
        ensures
            final(self).id() == old(self).id(),
            final(self).transient() == old(self).transient(),
            final(self).geometry() == (size, old(self).geometry().1),
    {
        self.size = size;
    }

    /// Sets the client's position.
    pub fn set_position(&mut self, position: (i32, i32))
        ensures
            final(self).id() == old(self).id(),
            final(self).transient() == old(self).transient(),
            final(self).geometry() == (old(self).geometry().0, position),
    {
        self.position = position;
    }
}

/// Where a client is kept, with the client (or a reference to it).
#[derive(Debug, PartialEq, Eq)]
pub enum Entry<T> {
    Tiled(T),
    Floating(T),
    Transient(T),
    Fullscreen(T),
    Vacant,
}

impl<T> Entry<T> {
    pub open spec fn option(self) -> Option<T> {
        match self {
            Entry::Tiled(c) => Some(c),
            Entry::Floating(c) => Some(c),
            Entry::Transient(c) => Some(c),
            Entry::Fullscreen(c) => Some(c),
            Entry::Vacant => None,
        }
    }

    pub fn into_option(self) -> (r: Option<T>)
        ensures
            r == self.option(),
    {
        match self {
            Entry::Tiled(c) => Some(c),
            Entry::Floating(c) => Some(c),
            Entry::Transient(c) => Some(c),
            Entry::Fullscreen(c) => Some(c),
            Entry::Vacant => None,
        }
    }

    pub fn unwrap(self) -> (r: T)
        requires
            !(self is Vacant),
        ensures
            Some(r) == self.option(),
    {
        match self {
            Entry::Tiled(c) => c,
            Entry::Floating(c) => c,
            Entry::Transient(c) => c,
            Entry::Fullscreen(c) => c,
            Entry::Vacant => {
                proof { assert(false); }
                unreached()
            },
        }
    }

    pub fn unwrap_ref(&self) -> (r: &T)
        requires
            !(*self is Vacant),
        ensures
            Some(*r) == self.option(),
    {
        match self {
            Entry::Tiled(c) => c,
            Entry::Floating(c) => c,
            Entry::Transient(c) => c,
            Entry::Fullscreen(c) => c,
            Entry::Vacant => {
                proof { assert(false); }
                unreached()
            },
        }
    }

    /// The entry of the same kind holding `v`.
    pub open spec fn with_value(self, v: T) -> Entry<T> {
        match self {
            Entry::Tiled(_) => Entry::Tiled(v),
            Entry::Floating(_) => Entry::Floating(v),
            Entry::Transient(_) => Entry::Transient(v),
            Entry::Fullscreen(_) => Entry::Fullscreen(v),
            Entry::Vacant => Entry::Vacant,
        }
    }

    pub fn unwrap_mut(&mut self) -> (r: &mut T)
        requires
            !(*old(self) is Vacant),
        ensures
            Some(*r) == old(self).option(),
            *final(self) == old(self).with_value(*final(r)),
    {
        match self {
            Entry::Tiled(c) => c,
            Entry::Floating(c) => c,
            Entry::Transient(c) => c,
            Entry::Fullscreen(c) => c,
            Entry::Vacant => {
                proof {
                    assert(false);
                }
                unreached()
            },
        }
    }

    pub fn is_floating(&self) -> (r: bool)
        ensures
            r == (*self is Floating),
    {
        match self {
            Self::Floating(_) => true,
            _ => false,
        }
    }

    pub fn is_tiled(&self) -> (r: bool)
        ensures
            r == (*self is Tiled),
    {
        match self {
            Self::Tiled(_) => true,
            _ => false,
        }
    }

    pub fn is_transient(&self) -> (r: bool)
        ensures
            r == (*self is Transient),
    {
        match self {
            Self::Transient(_) => true,
            _ => false,
        }
    }

    pub fn is_fullscreen(&self) -> (r: bool)
        ensures
            r == (*self is Fullscreen),
    {
        match self {
            Self::Fullscreen(_) => true,
            _ => false,
        }
    }
}

impl<'a> Entry<&'a Client> {
    /// The entry with the reference replaced by the client it points to.
    pub open spec fn value(self) -> Entry<Client> {
        match self {
            Entry::Tiled(c) => Entry::Tiled(*c),
            Entry::Floating(c) => Entry::Floating(*c),
            Entry::Transient(c) => Entry::Transient(*c),
            Entry::Fullscreen(c) => Entry::Fullscreen(*c),
            Entry::Vacant => Entry::Vacant,
        }
    }
}

// ---------------------------------------------------------------------------
// The tables of a `ClientStore`: `IndexMap<u64, Client>`.
// ---------------------------------------------------------------------------

/// The entries of a store table, in the map's order.
pub uninterp spec fn store_entries(m: indexmap::IndexMap<u64, Client, std::collections::hash_map::RandomState>) -> Seq<(u64, Client)>;

/// `IndexMap::new`: an empty map.
#[verifier::external_body]
fn store_map_new() -> (m: indexmap::IndexMap<u64, Client, std::collections::hash_map::RandomState>)
    ensures
        store_entries(m) == Seq::<(u64, Client)>::empty(),
{
    indexmap::IndexMap::new()
}

/// `IndexMap::insert`: an existing key keeps its place and gets the new value, a new key
/// is appended.
#[verifier::external_body]
fn store_map_insert(
    m: &mut indexmap::IndexMap<u64, Client, std::collections::hash_map::RandomState>,
    k: u64,
    v: Client,
) -> (r: Option<Client>)
    requires
        keys_unique(store_entries(*old(m))),
    ensures
        store_entries(*final(m)) == upsert(store_entries(*old(m)), k, v),
        r == if has_key(store_entries(*old(m)), k) {
            Some(value_of(store_entries(*old(m)), k))
        } else {
            None
        },
{
    m.insert(k, v)
}

/// `IndexMap::swap_remove`: the entry of `k` is replaced by the last entry, which is
/// popped; the removed value is returned.
#[verifier::external_body]
fn store_map_swap_remove(
    m: &mut indexmap::IndexMap<u64, Client, std::collections::hash_map::RandomState>,
    k: &u64,
) -> (r: Option<Client>)
    requires
        keys_unique(store_entries(*old(m))),
    ensures
        store_entries(*final(m)) == swap_remove(store_entries(*old(m)), *k),
        r == if has_key(store_entries(*old(m)), *k) {
            Some(value_of(store_entries(*old(m)), *k))
        } else {
            None
        },
{
    m.swap_remove(k)
}

/// `IndexMap::get`: the value stored under `k`, if any.
#[verifier::external_body]
fn store_map_get<'a>(
    m: &'a indexmap::IndexMap<u64, Client, std::collections::hash_map::RandomState>,
    k: &u64,
) -> (r: Option<&'a Client>)
    requires
        keys_unique(store_entries(*m)),
    ensures
        match r {
            Some(c) => has_key(store_entries(*m), *k) && *c == value_of(store_entries(*m), *k),
            None => !has_key(store_entries(*m), *k),
        },
{
    m.get(k)
}

/// `IndexMap::contains_key`.
#[verifier::external_body]
fn store_map_contains_key(
    m: &indexmap::IndexMap<u64, Client, std::collections::hash_map::RandomState>,
    k: &u64,
) -> (r: bool)
    ensures
        r == has_key(store_entries(*m), *k),
{
    m.contains_key(k)
}

/// `IndexMap::len`.
#[verifier::external_body]
fn store_map_len(m: &indexmap::IndexMap<u64, Client, std::collections::hash_map::RandomState>) -> (r: usize)
    ensures
        r == store_entries(*m).len(),
{
    m.len()
}

/// `IndexMap::get_index`: the entry at position `i`, if `i` is in range.
#[verifier::external_body]
fn store_map_get_index<'a>(
    m: &'a indexmap::IndexMap<u64, Client, std::collections::hash_map::RandomState>,
    i: usize,
) -> (r: Option<(&'a u64, &'a Client)>)
    ensures
        match r {
            Some(e) => i < store_entries(*m).len() && *e.0 == store_entries(*m)[i as int].0
                && *e.1 == store_entries(*m)[i as int].1,
            None => i >= store_entries(*m).len(),
        },
{
    m.get_index(i)
}

/// The entries of a store table, in order.
fn store_entries_vec(m: &indexmap::IndexMap<u64, Client, std::collections::hash_map::RandomState>) -> (r: Vec<(u64, Client)>)
    ensures
        r@ == store_entries(*m),
{
    let n = store_map_len(m);
    let mut r: Vec<(u64, Client)> = Vec::new();
    let mut i: usize = 0;
    while i < n
        invariant
            i <= n,
            n == store_entries(*m).len(),
            r@ == store_entries(*m).subrange(0, i as int),
        decreases n - i,
    {
        match store_map_get_index(m, i) {
            Some((k, c)) => {
                r.push((*k, *c));
            },
            None => {
                proof { assert(false); }
            },
        }
        proof {
            assert(r@ =~= store_entries(*m).subrange(0, i as int + 1));
        }
        i = i + 1;
    }
    proof {
        assert(store_entries(*m).subrange(0, n as int) =~= store_entries(*m));
    }
    r
}

// ---------------------------------------------------------------------------
// The store.
// ---------------------------------------------------------------------------

/// What a `ClientStore` holds: four tables, in the order in which lookups try them.
pub struct StoreModel {
    pub tiled: Seq<(u64, Client)>,
    pub floating: Seq<(u64, Client)>,
    pub transient: Seq<(u64, Client)>,
    pub fullscreen: Seq<(u64, Client)>,
}

impl StoreModel {
    pub open spec fn wf(self) -> bool {
        &&& keys_unique(self.tiled)
        &&& keys_unique(self.floating)
        &&& keys_unique(self.transient)
        &&& keys_unique(self.fullscreen)
    }

    /// The entry of `k`: from the first table that holds it.
    pub open spec fn entry(self, k: u64) -> Entry<Client> {
        if has_key(self.tiled, k) {
            Entry::Tiled(value_of(self.tiled, k))
        } else if has_key(self.floating, k) {
            Entry::Floating(value_of(self.floating, k))
        } else if has_key(self.transient, k) {
            Entry::Transient(value_of(self.transient, k))
        } else if has_key(self.fullscreen, k) {
            Entry::Fullscreen(value_of(self.fullscreen, k))
        } else {
            Entry::Vacant
        }
    }

    pub open spec fn contains(self, k: u64) -> bool {
        has_key(self.tiled, k) || has_key(self.floating, k) || has_key(self.transient, k)
            || has_key(self.fullscreen, k)
    }

    /// The store after `entry`'s client was put in the table the entry names.
    pub open spec fn inserted(self, entry: Entry<Client>) -> StoreModel {
        match entry {
            Entry::Tiled(c) => StoreModel { tiled: upsert(self.tiled, c.id(), c), ..self },
            Entry::Floating(c) => StoreModel { floating: upsert(self.floating, c.id(), c), ..self },
            Entry::Transient(c) => StoreModel { transient: upsert(self.transient, c.id(), c), ..self },
            Entry::Fullscreen(c) => StoreModel { fullscreen: upsert(self.fullscreen, c.id(), c), ..self },
            Entry::Vacant => self,
        }
    }

    /// The store after the client of `k` in the first table that holds it was replaced by
    /// `c`.
    pub open spec fn replaced(self, k: u64, c: Client) -> StoreModel {
        if has_key(self.tiled, k) {
            StoreModel { tiled: upsert(self.tiled, k, c), ..self }
        } else if has_key(self.floating, k) {
            StoreModel { floating: upsert(self.floating, k, c), ..self }
        } else if has_key(self.transient, k) {
            StoreModel { transient: upsert(self.transient, k, c), ..self }
        } else if has_key(self.fullscreen, k) {
            StoreModel { fullscreen: upsert(self.fullscreen, k, c), ..self }
        } else {
            self
        }
    }

    /// The store after `k` was taken from the first table that holds it.
    pub open spec fn removed(self, k: u64) -> StoreModel {
        if has_key(self.tiled, k) {
            StoreModel { tiled: swap_remove(self.tiled, k), ..self }
        } else if has_key(self.floating, k) {
            StoreModel { floating: swap_remove(self.floating, k), ..self }
        } else if has_key(self.transient, k) {
            StoreModel { transient: swap_remove(self.transient, k), ..self }
        } else if has_key(self.fullscreen, k) {
            StoreModel { fullscreen: swap_remove(self.fullscreen, k), ..self }
        } else {
            self
        }
    }
}

/// Clients kept in four insertion-ordered tables: tiled, floating, transient and
/// fullscreen.
pub struct ClientStore {
    tiled_clients: indexmap::IndexMap<u64, Client, std::collections::hash_map::RandomState>,
    floating_clients: indexmap::IndexMap<u64, Client, std::collections::hash_map::RandomState>,
    transient_clients: indexmap::IndexMap<u64, Client, std::collections::hash_map::RandomState>,
    fullscreen_clients: indexmap::IndexMap<u64, Client, std::collections::hash_map::RandomState>,
}

impl View for ClientStore {
    type V = StoreModel;

    closed spec fn view(&self) -> StoreModel {
        StoreModel {
            tiled: store_entries(self.tiled_clients),
            floating: store_entries(self.floating_clients),
            transient: store_entries(self.transient_clients),
            fullscreen: store_entries(self.fullscreen_clients),
        }
    }
}

impl ClientStore {
    pub open spec fn wf(&self) -> bool {
        self@.wf()
    }

    /// An empty store.
    pub fn new() -> (r: Self)
        ensures
            r.wf(),
            r@.tiled.len() == 0,
            r@.floating.len() == 0,
            r@.transient.len() == 0,
            r@.fullscreen.len() == 0,
    {
        ClientStore {
            tiled_clients: store_map_new(),
            floating_clients: store_map_new(),
            transient_clients: store_map_new(),
            fullscreen_clients: store_map_new(),
        }
    }

    /// Puts the client of `entry` in the table the entry names, keyed by its window, and
    /// returns the store's entry for that window; a vacant entry changes nothing.
    pub fn insert(&mut self, entry: Entry<Client>) -> (r: Entry<&Client>)
        requires
            old(self).wf(),
        ensures
            final(self).wf(),
            final(self)@ == old(self)@.inserted(entry),
            r.value() == match entry {
                Entry::Vacant => Entry::Vacant,
                Entry::Tiled(c) => final(self)@.entry(c.id()),
                Entry::Floating(c) => final(self)@.entry(c.id()),
                Entry::Transient(c) => final(self)@.entry(c.id()),
                Entry::Fullscreen(c) => final(self)@.entry(c.id()),
            },
    {
        let key = match &entry {
            Entry::Tiled(c) => Some(c.window_id()),
            Entry::Floating(c) => Some(c.window_id()),
            Entry::Transient(c) => Some(c.window_id()),
            Entry::Fullscreen(c) => Some(c.window_id()),
            Entry::Vacant => None,
        };
        match key {
            Some(key) => {
                match entry {
                    Entry::Floating(client) => {
                        proof { lemma_upsert(self@.floating, key, client); }
                        let _ = store_map_insert(&mut self.floating_clients, key, client);
                    },
                    Entry::Tiled(client) => {
                        proof { lemma_upsert(self@.tiled, key, client); }
                        let _ = store_map_insert(&mut self.tiled_clients, key, client);
                    },
                    Entry::Transient(client) => {
                        proof { lemma_upsert(self@.transient, key, client); }
                        let _ = store_map_insert(&mut self.transient_clients, key, client);
                    },
                    Entry::Fullscreen(client) => {
                        proof { lemma_upsert(self@.fullscreen, key, client); }
                        let _ = store_map_insert(&mut self.fullscreen_clients, key, client);
                    },
                    Entry::Vacant => {},
                }
                self.get(&key)
            },
            None => Entry::Vacant,
        }
    }

    /// Takes the client of `key` from the first table that holds it.
    pub fn remove(&mut self, key: &u64) -> (r: Entry<Client>)
        requires
            old(self).wf(),
        ensures
            final(self).wf(),
            final(self)@ == old(self)@.removed(*key),
            r == old(self)@.entry(*key),
    {
        proof {
            lemma_swap_remove(self@.tiled, *key);
            lemma_swap_remove(self@.floating, *key);
            lemma_swap_remove(self@.transient, *key);
            lemma_swap_remove(self@.fullscreen, *key);
        }
        if let Some(client) = store_map_swap_remove(&mut self.tiled_clients, key) {
            Entry::Tiled(client)
        } else if let Some(client) = store_map_swap_remove(&mut self.floating_clients, key) {
            Entry::Floating(client)
        } else if let Some(client) = store_map_swap_remove(&mut self.transient_clients, key) {
            Entry::Transient(client)
        } else if let Some(client) = store_map_swap_remove(&mut self.fullscreen_clients, key) {
            Entry::Fullscreen(client)
        } else {
            Entry::Vacant
        }
    }

    /// The entry of `key`, from the first table that holds it.
    pub fn get(&self, key: &u64) -> (r: Entry<&Client>)
        requires
            self.wf(),
        ensures
            r.value() == self@.entry(*key),
    {
        if let Some(client) = store_map_get(&self.tiled_clients, key) {
            Entry::Tiled(client)
        } else if let Some(client) = store_map_get(&self.floating_clients, key) {
            Entry::Floating(client)
        } else if let Some(client) = store_map_get(&self.transient_clients, key) {
            Entry::Transient(client)
        } else if let Some(client) = store_map_get(&self.fullscreen_clients, key) {
            Entry::Fullscreen(client)
        } else {
            Entry::Vacant
        }
    }

    /// Replaces the client of `key` in the first table that holds it (does nothing if
    /// none does).
    pub fn replace(&mut self, key: &u64, client: Client)
        requires
            old(self).wf(),
        ensures
            final(self).wf(),
            final(self)@ == old(self)@.replaced(*key, client),
    {
        proof {
            lemma_upsert(self@.tiled, *key, client);
            lemma_upsert(self@.floating, *key, client);
            lemma_upsert(self@.transient, *key, client);
            lemma_upsert(self@.fullscreen, *key, client);
        }
        if store_map_contains_key(&self.tiled_clients, key) {
            let _ = store_map_insert(&mut self.tiled_clients, *key, client);
        } else if store_map_contains_key(&self.floating_clients, key) {
            let _ = store_map_insert(&mut self.floating_clients, *key, client);
        } else if store_map_contains_key(&self.transient_clients, key) {
            let _ = store_map_insert(&mut self.transient_clients, *key, client);
        } else if store_map_contains_key(&self.fullscreen_clients, key) {
            let _ = store_map_insert(&mut self.fullscreen_clients, *key, client);
        }
    }

    pub fn contains(&self, key: &u64) -> (r: bool)
        ensures
            r == self@.contains(*key),
    {
        store_map_contains_key(&self.tiled_clients, key) || store_map_contains_key(&self.floating_clients, key)
            || store_map_contains_key(&self.transient_clients, key)
            || store_map_contains_key(&self.fullscreen_clients, key)
    }

    /// The tiled clients, in table order.
    pub fn iter_tiled(&self) -> (r: Vec<(u64, Client)>)
        ensures
            r@ == self@.tiled,
    {
        store_entries_vec(&self.tiled_clients)
    }

    /// The floating clients, in table order.
    pub fn iter_floating(&self) -> (r: Vec<(u64, Client)>)
        ensures
            r@ == self@.floating,
    {
        store_entries_vec(&self.floating_clients)
    }

    /// The transient clients, in table order.
    pub fn iter_transient(&self) -> (r: Vec<(u64, Client)>)
        ensures
            r@ == self@.transient,
    {
        store_entries_vec(&self.transient_clients)
    }

    /// The fullscreen clients, in table order.
    pub fn iter_fullscreen(&self) -> (r: Vec<(u64, Client)>)
        ensures
            r@ == self@.fullscreen,
    {
        store_entries_vec(&self.fullscreen_clients)
    }
}

/// A client stored as tiled is found again as tiled, and removing it takes it out of the
/// tiled table and gives it back.
pub proof fn lemma_insert_then_get(s: StoreModel, c: Client)
    requires
        s.wf(),
    ensures
        s.inserted(Entry::Tiled(c)).entry(c.id()) == Entry::Tiled(c),
        s.inserted(Entry::Tiled(c)).contains(c.id()),
        !has_key(s.inserted(Entry::Tiled(c)).removed(c.id()).tiled, c.id()),
{
    lemma_upsert(s.tiled, c.id(), c);
    lemma_swap_remove(upsert(s.tiled, c.id(), c), c.id());
}

} // verus!
