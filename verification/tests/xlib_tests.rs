use wm::backends::keycodes::{MouseButton, VirtualKeyCode};
use wm::backends::structs::WindowType;
use wm::backends::window_event::{FullscreenState, KeyState, ModifierKey, ModifierState, WindowEvent};
use wm::backends::xlib::{
    client_list_without, grab_masks, has_protocol, hidden_position, longs_from_bytes, keysym_to_virtual_keycode, mouse_button_to_xbutton,
    numlock_mask, virtual_keycode_to_keysym, window_changes, xev_to_mouse_button, xevent_to_window_event, EWMHAtom,
    EWMHAtoms, EventDecision, ICCCMAtom, ICCCMAtoms, PropMode, XEventFields, XlibError, EWMH_ATOM_COUNT, ICCCM_ATOM_COUNT,
};
use wm::util::{Point, Size};

fn atoms() -> (ICCCMAtoms, EWMHAtoms) {
    let icccm = ICCCMAtoms::from_interned((0..ICCCM_ATOM_COUNT as u64).map(|i| 100 + i).collect()).unwrap();
    let ewmh = EWMHAtoms::from_interned((0..EWMH_ATOM_COUNT as u64).map(|i| 200 + i).collect()).unwrap();
    (icccm, ewmh)
}

#[test]
fn xlib_error_codes() {
    assert_eq!(XlibError::from(1u8), XlibError::BadRequest);
    assert_eq!(XlibError::from(3u8), XlibError::BadWindow);
    assert_eq!(XlibError::from(10u8), XlibError::BadAccess);
    assert_eq!(XlibError::from(17u8), XlibError::BadImplementation);
    assert_eq!(XlibError::from(0u8), XlibError::InvalidError(0));
    assert_eq!(XlibError::from(200u8), XlibError::InvalidError(200));
    assert!(XlibError::BadMatch.is_recoverable());
    assert!(XlibError::BadDrawable.is_recoverable());
    assert!(!XlibError::BadAlloc.is_recoverable());
}

#[test]
fn atom_names_and_positions() {
    assert_eq!(<&str>::from(ICCCMAtom::WmName), "WM_NAME");
    assert_eq!(<&str>::from(ICCCMAtom::Utf8String), "UTF8_STRING");
    assert_eq!(usize::from(ICCCMAtom::WmTakeFocus), 4);
    assert_eq!(<&str>::from(EWMHAtom::NetWmStateFullscreen), "_NET_WM_STATE_FULLSCREEN");
    assert_eq!(<&str>::from(EWMHAtom::NetRequestFrameExtents), "_NET_REQUEST_FRAME_EXTENTS");
    assert_eq!(usize::from(EWMHAtom::NetSupported), 0);
    assert_eq!(u8::from(EWMHAtom::NetWmActionClose), 65);
    assert_eq!(EWMHAtom::from_repr(23), Some(EWMHAtom::NetWmWindowType));
    assert_eq!(EWMHAtom::from_repr(66), None);
    assert_eq!(EWMHAtom::iter().len(), EWMH_ATOM_COUNT);
    assert_eq!(ICCCMAtom::iter()[7], ICCCMAtom::Utf8String);
    assert_eq!(i32::from(PropMode::Replace), 0);
    assert_eq!(i32::from(PropMode::Prepend), 1);
    assert_eq!(i32::from(PropMode::Append), 2);
}

#[test]
fn atom_tables() {
    assert!(EWMHAtoms::from_interned(vec![1; EWMH_ATOM_COUNT]).is_some());
    let mut with_zero = vec![1u64; EWMH_ATOM_COUNT];
    with_zero[5] = 0;
    assert!(EWMHAtoms::from_interned(with_zero).is_none());
    let (icccm, ewmh) = atoms();
    assert_eq!(icccm.index(ICCCMAtom::WmProtocols), 101);
    assert_eq!(ewmh.index(EWMHAtom::NetWmState), 224);
    assert_eq!(ewmh.reverse_lookup(224), Some(EWMHAtom::NetWmState));
    assert_eq!(ewmh.reverse_lookup(5), None);
    assert_eq!(ewmh.supported_atoms(), vec![207, 223, 242, 224, 218, 201, 252]);
}

#[test]
fn window_types() {
    assert_eq!(WindowType::try_from(EWMHAtom::NetWmWindowTypeDock), Ok(WindowType::Dock));
    assert_eq!(WindowType::try_from(EWMHAtom::NetWmName), Err(()));
    let (_, ewmh) = atoms();
    let dialog_atom = ewmh.index(EWMHAtom::NetWmWindowTypeDialog);
    assert_eq!(ewmh.get_window_type(Some(dialog_atom), None), WindowType::Dialog);
    assert_eq!(ewmh.get_window_type(Some(1), None), WindowType::Normal);
    assert_eq!(ewmh.get_window_type(None, Some(4)), WindowType::Dialog);
    assert_eq!(ewmh.get_window_type(Some(ewmh.index(EWMHAtom::NetWmName)), Some(4)), WindowType::Dialog);
}

#[test]
fn modifier_masks() {
    let s = ModifierState::from_modmask(1 | 4 | 32 | 2);
    assert!(s.is_held(ModifierKey::Shift));
    assert!(s.is_held(ModifierKey::Control));
    assert!(s.is_held(ModifierKey::AltGr));
    assert!(!s.is_held(ModifierKey::ShiftLock));
    assert!(!s.is_held(ModifierKey::Alt));
    assert_eq!(s.as_modmask(), 1 | 4);
    let t = ModifierState::empty().with_mod(ModifierKey::Super).with_mod(ModifierKey::Alt);
    assert_eq!(t.as_modmask(), 64 | 8);
    assert_eq!(ModifierState::from_modmask(0xff).as_modmask(), 0xff & (1 | 4 | 8 | 64));
}

#[test]
fn numlock_and_grabs() {
    // eight modifiers, two keycodes each; Num Lock (77) sits on Mod2 (index 4)
    let modmap: Vec<u8> = vec![50, 62, 66, 0, 37, 105, 64, 108, 77, 0, 0, 0, 133, 134, 92, 0];
    assert_eq!(numlock_mask(&modmap, 2, 77), Some(16));
    assert_eq!(numlock_mask(&modmap, 2, 99), None);
    assert_eq!(grab_masks(64, 16), vec![64, 64 | 2, 64 | 16, 64 | 2 | 16]);
}

#[test]
fn configure_requests() {
    let c = window_changes(Some(Size::new(300, 200)), Some(Point::new(4, 5)), None);
    assert_eq!((c.x, c.y, c.width, c.height, c.border_width, c.mask), (4, 5, 300, 200, 0, 1 | 2 | 4 | 8));
    let c = window_changes(Some(Size::new(1, 200)), None, Some(3));
    assert_eq!((c.x, c.y, c.width, c.height, c.border_width, c.mask), (0, 0, 1, 200, 3, 16));
    let c = window_changes(None, None, None);
    assert_eq!(c.mask, 0);
    assert_eq!(hidden_position(Size::new(1920, 1080)), Point::new(2020, 1180));
}

#[test]
fn keys_and_buttons() {
    assert_eq!(virtual_keycode_to_keysym(VirtualKeyCode::A), 0x61);
    assert_eq!(virtual_keycode_to_keysym(VirtualKeyCode::Return), 0xff0d);
    assert_eq!(keysym_to_virtual_keycode(0x61), Some(VirtualKeyCode::A));
    assert_eq!(keysym_to_virtual_keycode(0x41), Some(VirtualKeyCode::A));
    assert_eq!(keysym_to_virtual_keycode(0x30), Some(VirtualKeyCode::Zero));
    assert_eq!(keysym_to_virtual_keycode(0xffbe), None);
    assert_eq!(mouse_button_to_xbutton(MouseButton::Right), 3);
    assert_eq!(xev_to_mouse_button(9), Some(MouseButton::Forwards));
    assert_eq!(xev_to_mouse_button(10), None);
}

#[test]
fn decoding_events() {
    let (icccm, ewmh) = atoms();
    match xevent_to_window_event(&icccm, &ewmh, XEventFields::MapRequest { window: 42 }) {
        Some(EventDecision::Event(WindowEvent::MapRequestEvent(e))) => assert_eq!(e.window, 42),
        other => panic!("unexpected {:?}", other),
    }
    match xevent_to_window_event(
        &icccm,
        &ewmh,
        XEventFields::Button { pressed: false, subwindow: 7, button: 3, x: 10, y: 20, state: 64 },
    ) {
        Some(EventDecision::Event(WindowEvent::ButtonEvent(e))) => {
            assert_eq!(e.window, 7);
            assert_eq!(e.state, KeyState::Released);
            assert_eq!(e.keycode, MouseButton::Right);
            assert_eq!(e.cursor_position, Point::new(10, 20));
            assert!(e.modifierstate.is_held(ModifierKey::Super));
        },
        other => panic!("unexpected {:?}", other),
    }
    match xevent_to_window_event(&icccm, &ewmh, XEventFields::Key { pressed: true, subwindow: 3, keysym: 0x71, state: 0 }) {
        Some(EventDecision::Event(WindowEvent::KeyEvent(e))) => assert_eq!(e.keycode, VirtualKeyCode::Q),
        other => panic!("unexpected {:?}", other),
    }
    assert!(xevent_to_window_event(&icccm, &ewmh, XEventFields::Key { pressed: true, subwindow: 3, keysym: 0xffbe, state: 0 }).is_none());
    let name = icccm.index(ICCCMAtom::WmName);
    assert!(matches!(
        xevent_to_window_event(&icccm, &ewmh, XEventFields::PropertyNotify { window: 8, atom: name }),
        Some(EventDecision::ReadName(8))
    ));
    let wtype = ewmh.index(EWMHAtom::NetWmWindowType);
    assert!(matches!(
        xevent_to_window_event(&icccm, &ewmh, XEventFields::PropertyNotify { window: 8, atom: wtype }),
        Some(EventDecision::ReadType(8))
    ));
    assert!(xevent_to_window_event(&icccm, &ewmh, XEventFields::PropertyNotify { window: 8, atom: 1 }).is_none());
    let state = ewmh.index(EWMHAtom::NetWmState) ;
    let full = ewmh.index(EWMHAtom::NetWmStateFullscreen) as i64;
    match xevent_to_window_event(
        &icccm,
        &ewmh,
        XEventFields::ClientMessage { window: 9, message_type: state, data0: 2, data1: 0, data2: full },
    ) {
        Some(EventDecision::Event(WindowEvent::FullscreenEvent(e))) => {
            assert_eq!(e.window, 9);
            assert_eq!(e.state, FullscreenState::Toggle);
        },
        other => panic!("unexpected {:?}", other),
    }
    assert!(xevent_to_window_event(
        &icccm,
        &ewmh,
        XEventFields::ClientMessage { window: 9, message_type: state, data0: 1, data1: 0, data2: 0 },
    )
    .is_none());
    assert!(xevent_to_window_event(&icccm, &ewmh, XEventFields::Other).is_none());
}

#[test]
fn client_lists_and_protocols() {
    assert_eq!(client_list_without(&vec![1, 2, 3, 2], 2), vec![1, 3]);
    assert!(has_protocol(&vec![5, 6], 6));
    assert!(!has_protocol(&vec![], 6));
}

#[test]
fn property_bytes_to_longs() {
    let mut bytes = Vec::new();
    bytes.extend_from_slice(&7i64.to_ne_bytes());
    bytes.extend_from_slice(&(-3i64).to_ne_bytes());
    assert_eq!(longs_from_bytes(&bytes), vec![7, -3]);
    assert!(longs_from_bytes(&Vec::new()).is_empty());
    let r = longs_from_bytes(&vec![1, 0, 0, 0, 0, 0, 0, 0, 0xff, 0xff, 0xff, 0xff, 0xff, 0xff, 0xff, 0xfe]);
    assert!(r == vec![1, -(1i64 << 56) - 1] || r == vec![1i64 << 56, -2]);
}

#[test]
fn client_list_append_then_filter_round_trip() {
    let list = vec![3i64, 4, 5];
    let mut appended = list.clone();
    appended.push(9);
    assert_eq!(client_list_without(&appended, 9), list);
}
