use std::hash::Hasher;
use wm::backends::keycodes::{KeyOrButton, MouseButton, VirtualKeyCode};
use wm::backends::window_event::{KeyBind, KeyOrMouseBind, ModifierKey, ModifierState, MouseBind};
use wm::backends::xcb::{keycode_for_keysym, keysym_for_keycode, Key};
use wm::error::Error;
use wm::backends::xlib::XlibError;
use wm::util::{IdentityHasher, Point, Size};
use wm::xlib::{are_masks_equal, clean_mask, get_clean_mask, get_numlock_mask};

#[test]
fn modifier_state_operations() {
    let mut s = ModifierState::from_mods(&[ModifierKey::Control, ModifierKey::Shift]);
    assert!(s.is_held(ModifierKey::Control));
    assert!(s.is_held(ModifierKey::Shift));
    s.unset_mod(ModifierKey::Shift);
    assert!(!s.is_held(ModifierKey::Shift));
    s.set_mod(ModifierKey::NumLock, true);
    let plain = ModifierState::empty().with_mod(ModifierKey::Control);
    assert!(s.eq_ignore_lock(&plain));
    assert_ne!(s, plain);
    s.insert_mod(ModifierKey::Alt);
    assert!(!s.eq_ignore_lock(&plain));
}

#[test]
fn bindings() {
    let kb = KeyBind::new(VirtualKeyCode::Q).with_mod(ModifierKey::Super);
    let k = KeyOrMouseBind::from_keybind(&kb);
    assert_eq!(k.key, KeyOrButton::Key(VirtualKeyCode::Q));
    assert_eq!(k.modifiers, ModifierState::empty().with_mod(ModifierKey::Super));
    let mb = MouseBind::new(MouseButton::Left).with_mod(ModifierKey::Alt);
    assert_eq!(KeyOrMouseBind::from_mousebind(&mb).key, KeyOrButton::Button(MouseButton::Left));
    let both = KeyOrMouseBind::new(KeyOrButton::Key(VirtualKeyCode::A)).with_mod(ModifierKey::Shift);
    assert!(both.modifiers.is_held(ModifierKey::Shift));
}

#[test]
fn sizes_and_points() {
    assert_eq!(Size::new(1, 2).add(Size::new(3, 4)), Size::new(4, 6));
    assert_eq!(Point::new(5, 5).sub(Point::new(2, 7)), Point::new(3, -2));
    assert_eq!(Size::new(10, 3).clamp(Size::new(4, 8)), Size::new(4, 3));
    assert!(Point::zero().is_zero());
    assert_eq!(Size::from_tuple((7, 8)).as_tuple(), (7, 8));
}

#[test]
fn identity_hasher() {
    let mut h = IdentityHasher::default();
    h.write_u64(77);
    assert_eq!(h.finish(), 77);
    assert_eq!(h.value(), 77);
}

#[test]
fn xcb_keys_and_mappings() {
    assert_eq!(Key::from_u32(0x61), Some(Key::LowercaseA));
    assert_eq!(Key::LowercaseA.to_u32(), 0x61);
    assert_eq!(Key::from_u32(0x1), None);
    assert_eq!(wm::backends::xcb::MouseButton::from_u8(2), Some(wm::backends::xcb::MouseButton::Middle));
    assert_eq!(wm::backends::xcb::MouseButton::Forwards.to_u8(), 9);
    // two keysyms per keycode: keycodes 8, 9, 10
    let mapping = vec![0xff1b, 0, 0x61, 0x41, 0x62, 0x42];
    assert_eq!(keysym_for_keycode(&mapping, 2, 1), Some(Key::LowercaseA));
    assert_eq!(keysym_for_keycode(&mapping, 2, 3), None);
    assert_eq!(keycode_for_keysym(&mapping, 2, 8, &Key::UppercaseB), Some(10));
    assert_eq!(keycode_for_keysym(&mapping, 2, 8, &Key::Escape), Some(8));
    assert_eq!(keycode_for_keysym(&mapping, 2, 8, &Key::Tab), None);
}

#[test]
fn clean_masks() {
    // Num Lock on Mod2 (16): the clean mask keeps Shift, Control and Mod1, Mod3 to Mod5
    assert_eq!(get_clean_mask(16), 1 | 4 | 8 | 32 | 64 | 128);
    assert_eq!(clean_mask(16, 2 | 16 | 4), 4);
    assert!(are_masks_equal(16, 64 | 2, 64 | 16));
    assert!(!are_masks_equal(16, 64, 8));
    assert_eq!(get_numlock_mask(&vec![0; 8], 1, 77), 0);
    assert_eq!(wm::xlib::KeyOrButton::button(1, 4, -1), wm::xlib::KeyOrButton::Button(1, 4, u64::MAX));
    assert_eq!(wm::xlib::KeyOrButton::key(38, 64), wm::xlib::KeyOrButton::Key(38, 64));
}

#[test]
fn errors_convert() {
    assert!(matches!(Error::from(XlibError::BadWindow), Error::XlibError(XlibError::BadWindow)));
    assert!(matches!(Error::from(std::fmt::Error), Error::FmtError(_)));
    let io = std::io::Error::new(std::io::ErrorKind::Other, "x");
    assert!(matches!(Error::from(io), Error::IoError(_)));
}

#[test]
fn from_mods_equals_holding_each_in_turn() {
    let s = ModifierState::from_mods(&[ModifierKey::Alt, ModifierKey::Shift]);
    assert_eq!(s, ModifierState::empty().with_mod(ModifierKey::Alt).with_mod(ModifierKey::Shift));
    assert_eq!(s.bits(), (1 << 12) | 1);
    assert_eq!(ModifierState::from_mods(&[]), ModifierState::empty());
}
