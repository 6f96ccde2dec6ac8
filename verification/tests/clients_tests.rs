use wm::backends::structs::WindowType;
use wm::clients::{Client, ClientEntry, ClientState};
use wm::util::{Point, Size};

fn state() -> ClientState {
    ClientState::new()
        .with_virtualscreens(3)
        .with_gap(5)
        .with_border(2)
        .with_screen_size(Size::new(1000, 800))
}

fn geometry(s: &ClientState, k: u64) -> (Size, Point) {
    match s.get(&k) {
        ClientEntry::Tiled(c) | ClientEntry::Floating(c) => (c.size, c.position),
        ClientEntry::Vacant => panic!("client {} missing", k),
    }
}

#[test]
fn single_client_fills_the_screen() {
    let mut s = state();
    assert!(s.insert(Client::new_default(1)).is_some());
    assert_eq!(geometry(&s, 1), (Size::new(976, 776), Point::new(10, 10)));
}

#[test]
fn master_and_aux_stacks_split_the_width() {
    let mut s = state();
    s.insert(Client::new_default(1));
    s.insert(Client::new_default(2));
    s.insert(Client::new_default(3));
    assert_eq!(geometry(&s, 1), (Size::new(481, 776), Point::new(10, 10)));
    assert_eq!(geometry(&s, 2), (Size::new(481, 381), Point::new(505, 10)));
    assert_eq!(geometry(&s, 3), (Size::new(481, 381), Point::new(505, 405)));
}

#[test]
fn master_size_changes_within_limits() {
    let mut s = state();
    s.insert(Client::new_default(1));
    s.insert(Client::new_default(2));
    s.change_master_size(100);
    // 990 * 1100 / 2000 = 544
    assert_eq!(geometry(&s, 1).0.width, 544 - 14);
    s.change_master_size(5000);
    // clamped at 1800: 990 * 1800 / 2000 = 891
    assert_eq!(geometry(&s, 1).0.width, 891 - 14);
    s.change_master_size(-5000);
    // clamped at 200: 990 * 200 / 2000 = 99
    assert_eq!(geometry(&s, 1).0.width, 99 - 14);
}

#[test]
fn insert_then_remove() {
    let mut s = state();
    s.insert(Client::new_default(1));
    s.insert(Client::new_default(2));
    s.focus_client(&2u64);
    s.remove(&2u64);
    assert!(!s.contains(&2u64));
    assert!(!s.is_focused(&2u64));
    assert_eq!(geometry(&s, 1), (Size::new(976, 776), Point::new(10, 10)));
}

#[test]
fn dialogs_float_centred_over_their_parent() {
    let mut s = state();
    s.insert(Client::new_default(1));
    let dialog = Client::new_default(2)
        .with_window_type(WindowType::Dialog)
        .with_size(Size::new(200, 100))
        .with_parent_window(Some(1));
    assert!(s.can_insert(&dialog));
    s.insert(dialog);
    match s.get(&2u64) {
        ClientEntry::Floating(c) => {
            assert_eq!(c.size, Size::new(200, 100));
            // centred over the parent: 10 + (976 - 200) / 2, 10 + (776 - 100) / 2
            assert_eq!(c.position, Point::new(398, 348));
        },
        other => panic!("unexpected entry {:?}", other),
    }
    assert!(!s.can_insert(&Client::new_default(1)));
}

#[test]
fn focus_reports_new_and_old() {
    let mut s = state();
    s.insert(Client::new_default(1));
    s.insert(Client::new_default(2));
    {
        let (new, old) = s.focus_client(&1u64);
        assert!(new.is_tiled());
        assert!(old.is_vacant());
    }
    {
        let (new, old) = s.focus_client(&2u64);
        assert_eq!(new.unwrap().window, 2);
        assert_eq!(old.unwrap().window, 1);
    }
    {
        let (new, old) = s.focus_client(&2u64);
        assert!(new.is_vacant() && old.is_vacant());
    }
    assert!(s.is_focused(&2u64));
    s.unfocus();
    assert!(s.get_focused().is_vacant());
}

#[test]
fn toggle_floating_round_trip() {
    let mut s = state();
    s.insert(Client::new_default(1));
    s.insert(Client::new_default(2));
    s.toggle_floating(&2u64);
    assert!(s.get(&2u64).is_floating());
    assert_eq!(geometry(&s, 1), (Size::new(976, 776), Point::new(10, 10)));
    s.toggle_floating(&2u64);
    assert!(s.get(&2u64).is_tiled());
    assert!(!s.set_tiled(&2u64));
    assert!(s.set_floating(&2u64));
}

#[test]
fn fullscreen_covers_the_screen() {
    let mut s = state();
    s.insert(Client::new_default(1));
    assert!(s.set_fullscreen(&1u64, true));
    assert!(!s.set_fullscreen(&1u64, true));
    assert_eq!(geometry(&s, 1), (Size::new(1000, 800), Point::new(0, 0)));
    assert!(s.toggle_fullscreen(&1u64));
    assert_eq!(geometry(&s, 1), (Size::new(976, 776), Point::new(10, 10)));
    assert!(!s.toggle_fullscreen(&9u64));
}

#[test]
fn virtual_screens_rotate_and_go_back() {
    let mut s = state();
    s.insert(Client::new_default(1));
    s.rotate_right(1);
    assert_eq!(s.iter_visible().len(), 0);
    assert_eq!(s.iter_hidden().len(), 1);
    s.rotate_left(1);
    assert_eq!(s.iter_visible().len(), 1);
    s.go_to_nth_virtualscreen(7);
    assert_eq!(s.iter_visible().len(), 0);
    s.rotate_back();
    assert_eq!(s.iter_visible().len(), 1);
    s.rotate_left(1);
    // wrapped around to the last screen
    s.insert(Client::new_default(4));
    s.rotate_right(4);
    // 2 + 4 = 6, modulo 3 is screen 0
    assert_eq!(s.iter_visible().len(), 1);
    assert!(s.get_virtualscreen_for_client(&1u64).is_some());
}

#[test]
fn switching_stacks() {
    let mut s = state();
    s.insert(Client::new_default(1));
    s.insert(Client::new_default(2));
    assert_eq!(s.get_stack_for_client(&1u64).unwrap(), &vec![1u64]);
    s.switch_stack_for_client(&2u64);
    assert_eq!(s.get_stack_for_client(&2u64).unwrap(), &vec![1u64, 2]);
    s.switch_stack_for_client(&1u64);
    assert_eq!(s.get_stack_for_client(&1u64).unwrap(), &vec![1u64]);
    let master: Vec<u64> = s.iter_master_stack().iter().map(|(k, _)| *k).collect();
    assert_eq!(master, vec![2]);
}

#[test]
fn switching_the_only_master_window_keeps_it_there() {
    let mut s = state();
    s.insert(Client::new_default(1));
    s.switch_stack_for_client(&1u64);
    let master: Vec<u64> = s.iter_master_stack().iter().map(|(k, _)| *k).collect();
    assert_eq!(master, vec![1]);
    assert!(s.iter_aux_stack().is_empty());
}

#[test]
fn transient_clients_follow_their_parent() {
    let mut s = state();
    s.insert(Client::new_default(1));
    s.insert(Client::new_default(2).with_window_type(WindowType::Dialog).with_parent_window(Some(1)));
    assert_eq!(s.iter_transient().len(), 1);
    assert_eq!(s.iter_visible().len(), 2);
    s.rotate_right(1);
    assert_eq!(s.iter_visible().len(), 0);
    assert_eq!(s.iter_by_window_type(WindowType::Dialog).len(), 1);
}

#[test]
fn window_type_update_moves_between_tables() {
    let mut s = state();
    s.insert(Client::new_default(1));
    s.update_window_type(&1u64, WindowType::Normal);
    assert!(s.get(&1u64).is_floating());
    // set_tiled, which the update calls, tiles any floating client
    s.update_window_type(&1u64, WindowType::Dialog);
    assert!(s.get(&1u64).is_tiled());
}

#[test]
fn set_floating_and_set_tiled_report_what_changed() {
    let mut s = state();
    s.insert(Client::new_default(1));
    s.toggle_fullscreen(&1u64);
    // a tiled client floats even when fullscreen
    assert!(s.set_floating(&1u64));
    assert!(s.get(&1u64).is_floating());
    assert!(!s.set_floating(&1u64));
    assert!(s.set_tiled(&1u64));
    assert!(s.get(&1u64).is_tiled());
    assert!(!s.set_tiled(&1u64));
    s.toggle_fullscreen(&1u64);
    s.update_window_type(&1u64, WindowType::Dialog);
    assert!(s.get(&1u64).is_tiled());
    assert!(s.set_floating(&1u64));
    // any floating client is tiled, a dialog too
    assert!(s.set_tiled(&1u64));
    assert!(s.get(&1u64).is_tiled());
    assert!(!s.set_tiled(&2u64));
    assert!(!s.set_floating(&2u64));
}
