use wm::client_logic::{ClientManager, Size, Workspace, WorkspaceStore};
use wm::clients2::{Client, Entry};

#[test]
fn size_accessors() {
    let mut s = Size::new(3, 4);
    assert_eq!(*s.width(), 3);
    assert_eq!(*s.height(), 4);
    *s.width_mut() = 7;
    *s.height_mut() = 8;
    assert_eq!(s.dimensions(), (7, 8));
}

#[test]
fn workspace_push_contains_remove() {
    let mut w = Workspace::default();
    w.push(5);
    assert!(w.contains(&5));
    assert!(w.is_aux(&5));
    assert!(!w.is_master(&5));
    w.push(5);
    w.remove(&5);
    assert!(!w.contains(&5));
}

#[test]
fn workspace_store_selection() {
    let mut ws = WorkspaceStore::new(4);
    assert_eq!(ws.len(), 4);
    assert_eq!(ws.first_current_index(), Some(0));
    ws.select_workspace(6);
    assert_eq!(ws.first_current_index(), Some(2));
    ws.select_previous_workspaces();
    assert_eq!(ws.first_current_index(), Some(0));
    ws.select_previous_workspaces();
    assert_eq!(ws.first_current_index(), Some(2));
    ws.toggle_additional_workspace(1);
    assert_eq!(ws.first_current_index(), Some(1));
    ws.toggle_additional_workspace(5);
    assert_eq!(ws.first_current_index(), Some(2));
    ws.select_workspaces(vec![3]);
    assert_eq!(ws.first_current_index(), Some(3));
}

#[test]
fn workspace_store_rotation_arithmetic() {
    let mut ws = WorkspaceStore::new(4);
    ws.rotate_right(1);
    assert_eq!(ws.first_current_index(), Some(1));
    // one left of 1 is 0
    ws.rotate_left(1);
    assert_eq!(ws.first_current_index(), Some(0));
    // three left of 0 is 1
    ws.rotate_left(3);
    assert_eq!(ws.first_current_index(), Some(1));
    ws.select_workspace(3);
    // two right of 3 wraps to 1
    ws.rotate_right(2);
    assert_eq!(ws.first_current_index(), Some(1));
    // six left of 1 is 3
    ws.rotate_left(6);
    assert_eq!(ws.first_current_index(), Some(3));
}

#[test]
fn workspace_store_stacks() {
    let mut ws = WorkspaceStore::new(2);
    ws.push_current(1);
    ws.push_current(2);
    // the first window fills the empty master stack
    assert_eq!(ws.iter_current_master(), vec![1]);
    assert_eq!(ws.iter_current_aux(), vec![2]);
    ws.remove(&1);
    assert_eq!(ws.iter_current_aux(), vec![2]);
    assert!(ws.iter_current_master().is_empty());
    assert_eq!(ws.get_current().len(), 1);
    assert_eq!(ws.iter().len(), 2);
}

fn manager() -> ClientManager {
    ClientManager::new().with_gap(5).with_border(2).with_screen_size(Size::new(1000, 800)).with_workspaces(3)
}

fn geometry(m: &ClientManager, k: u64) -> ((i32, i32), (i32, i32)) {
    match m.get(&k) {
        Entry::Tiled(c) => (*c.size(), *c.position()),
        other => panic!("unexpected entry {:?}", other),
    }
}

#[test]
fn manager_tiles_new_clients_in_the_aux_stack() {
    let mut m = manager();
    m.new_client(Client::new(1));
    // the first window fills the empty master stack, which takes the whole width
    assert_eq!(geometry(&m, 1), ((976, 776), (10, 10)));
    assert!(m.is_invalidated(&1));
    m.new_client(Client::new(2));
    // the second one goes to the aux stack; the master share is the whole part of half
    // the ratio, which is zero
    assert_eq!(geometry(&m, 1), ((-14, 776), (10, 10)));
    assert_eq!(geometry(&m, 2), ((976, 776), (10, 10)));
}

#[test]
fn manager_remove_client_retiles() {
    let mut m = manager();
    m.new_client(Client::new(1));
    m.new_client(Client::new(2));
    m.remove_client(&2);
    assert!(matches!(m.get(&2), Entry::Vacant));
    assert_eq!(geometry(&m, 1), ((976, 776), (10, 10)));
    m.remove_client(&7);
    assert_eq!(geometry(&m, 1), ((976, 776), (10, 10)));
}

#[test]
fn manager_defaults() {
    let mut m = ClientManager::new();
    m.new_client(Client::new(3));
    // a 1x1 screen without gaps or borders
    assert_eq!(geometry(&m, 3), ((1, 1), (0, 0)));
}

#[test]
fn manager_tiling_twice_is_tiling_once() {
    let mut m = manager();
    m.new_client(Client::new(1));
    m.new_client(Client::new(2));
    let before = (geometry(&m, 1), geometry(&m, 2));
    m.tile_clients();
    assert_eq!((geometry(&m, 1), geometry(&m, 2)), before);
    assert!(m.is_invalidated(&1));
    assert!(m.is_invalidated(&2));
    assert!(!m.is_invalidated(&3));
}
