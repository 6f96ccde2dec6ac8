use std::borrow::Borrow;

use wm::clients2::{Client, ClientStore, Entry};

#[test]
fn clientstore_insert_contain() {
    let client = Client::new(1u64);

    let mut client_store = ClientStore::new();
    client_store.insert(Entry::Tiled(client.clone()));

    assert!(client_store.contains(client.borrow()));
    assert!(client_store.contains(&1));

    let client2 = Client::new(3u64);
    client_store.insert(Entry::Floating(client2.clone()));

    assert!(client_store.contains(&client.borrow()));
    assert!(client_store.contains(&1));

    assert!(client_store.contains(&client2.borrow()));
    assert!(client_store.contains(&3));

    assert_eq!(Entry::Tiled(client.clone()), client_store.remove(&client.borrow()));
    assert_eq!(Entry::Vacant, client_store.remove(&client.borrow()));
    assert_eq!(Entry::Vacant, client_store.remove(&1));

    assert!(client_store.contains(&client2.borrow()));
}

#[test]
fn client_defaults() {
    let c = Client::new(9);
    assert_eq!(c.window_id(), 9);
    assert_eq!(*c.size(), (100, 100));
    assert_eq!(*c.position(), (0, 0));
}

#[test]
fn store_insert_returns_entry_of_table() {
    let mut store = ClientStore::new();
    match store.insert(Entry::Floating(Client::new(4))) {
        Entry::Floating(c) => assert_eq!(c.window_id(), 4),
        other => panic!("unexpected entry {:?}", other),
    }
    assert!(matches!(store.insert(Entry::Vacant), Entry::Vacant));
    assert!(store.get(&4).is_floating());
    assert!(matches!(store.get(&5), Entry::Vacant));
}

#[test]
fn store_lookup_order_prefers_tiled() {
    let mut store = ClientStore::new();
    store.insert(Entry::Fullscreen(Client::new(2)));
    store.insert(Entry::Tiled(Client::new(2)));
    assert!(store.get(&2).is_tiled());
    assert!(store.remove(&2).is_tiled());
    assert!(store.get(&2).is_fullscreen());
    assert!(store.remove(&2).is_fullscreen());
    assert!(!store.contains(&2));
}

#[test]
fn store_replace_keeps_table() {
    let mut store = ClientStore::new();
    store.insert(Entry::Transient(Client::new(6)));
    let mut moved = Client::new(6);
    moved.set_position((40, 50));
    moved.set_size((10, 20));
    store.replace(&6, moved);
    match store.get(&6) {
        Entry::Transient(c) => {
            assert_eq!(*c.position(), (40, 50));
            assert_eq!(*c.size(), (10, 20));
        },
        other => panic!("unexpected entry {:?}", other),
    }
    store.replace(&7, Client::new(7));
    assert!(!store.contains(&7));
}

#[test]
fn store_iteration_in_insertion_order() {
    let mut store = ClientStore::new();
    store.insert(Entry::Tiled(Client::new(3)));
    store.insert(Entry::Tiled(Client::new(1)));
    store.insert(Entry::Tiled(Client::new(2)));
    let keys: Vec<u64> = store.iter_tiled().iter().map(|(k, _)| *k).collect();
    assert_eq!(keys, vec![3, 1, 2]);
    store.remove(&3);
    let keys: Vec<u64> = store.iter_tiled().iter().map(|(k, _)| *k).collect();
    assert_eq!(keys, vec![2, 1]);
    assert_eq!(store.iter_floating().len(), 0);
    assert_eq!(store.iter_transient().len(), 0);
    assert_eq!(store.iter_fullscreen().len(), 0);
}

#[test]
fn entry_conversions() {
    let e = Entry::Tiled(5u32);
    assert_eq!(e.into_option(), Some(5));
    assert_eq!(Entry::<u32>::Vacant.into_option(), None);
    assert_eq!(Entry::Floating(8u32).unwrap(), 8);
    assert_eq!(*Entry::Transient(3u32).unwrap_ref(), 3);
    let mut m = Entry::Fullscreen(1u32);
    *m.unwrap_mut() = 11;
    assert_eq!(m, Entry::Fullscreen(11));
}

#[test]
fn client_equality_is_by_window() {
    let mut a = Client::new(1);
    a.set_size((5, 5));
    assert_eq!(a, Client::new(1));
    assert_ne!(a, Client::new(2));
}

#[test]
fn clients_are_ordered_by_window() {
    let a = Client::new(1);
    let mut b = Client::new(2);
    b.set_size((5, 5));
    assert!(a < b);
    assert_eq!(b.partial_cmp(&a), Some(std::cmp::Ordering::Greater));
    let mut c = Client::new(3);
    c.set_size((9, 9));
    assert_eq!(c.partial_cmp(&Client::new(3)), Some(std::cmp::Ordering::Equal));
}
