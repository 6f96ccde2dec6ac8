use wm::backends::keycodes::{KeyOrButton, MouseButton, VirtualKeyCode};
use wm::backends::structs::WindowType;
use wm::backends::window_event::{
    ButtonEvent, EnterEvent, FullscreenEvent, FullscreenState, KeyEvent, KeyState, MapEvent, ModifierKey, ModifierState,
    MotionEvent, UnmapEvent, WindowEvent,
};
use wm::state::{Action, Direction, WMConfig, WindowInfo, WindowManager};
use wm::util::{Point, Size};

fn wm() -> WindowManager {
    let mut wm = WindowManager::new(WMConfig::default(), Size::new(1000, 800));
    wm.take_actions();
    wm
}

fn normal() -> WindowInfo {
    WindowInfo { window_type: WindowType::Normal, size: None, parent: None }
}

fn super_only() -> ModifierState {
    ModifierState::empty().with_mod(ModifierKey::Super)
}

fn key(k: VirtualKeyCode, mods: ModifierState) -> WindowEvent<u64> {
    WindowEvent::KeyEvent(KeyEvent::new(0, KeyState::Pressed, k, mods))
}

#[test]
fn default_config() {
    let c = WMConfig::default();
    assert_eq!(c.num_virtualscreens, 10);
    assert_eq!(c.mod_key, ModifierKey::Super);
    assert_eq!(c.gap, Some(2));
    assert_eq!(c.border_width, Some(1));
    assert!(!c.kill_clients_on_exit);
    assert_eq!(c.active_window_border_color, "#ffffff");
    assert_eq!(c.inactive_window_border_color, "#444444");
    assert_eq!(c.terminal_command.0, "xterm");
    assert!(c.terminal_command.1.is_empty());
}

#[test]
fn directions() {
    assert_eq!(Direction::west(), Direction::West(1));
    assert_eq!(!Direction::west(), Direction::East(1));
    assert_eq!(!Direction::East(3), Direction::West(3));
    assert_eq!(!Direction::north(), Direction::North(1));
    assert_eq!(!!Direction::south(), Direction::south());
}

#[test]
fn start_up_requests() {
    let mut wm = WindowManager::new(WMConfig::default(), Size::new(1000, 800));
    let actions = wm.take_actions();
    assert_eq!(actions.len(), 3 + 28 + 2);
    assert!(matches!(
        &actions[0],
        Action::AddKeybind(b) if b.key == KeyOrButton::Button(MouseButton::Left) && b.modifiers == super_only()
    ));
    assert!(matches!(
        &actions[3],
        Action::AddKeybind(b) if b.key == KeyOrButton::Key(VirtualKeyCode::P) && b.modifiers == super_only()
    ));
    assert!(matches!(&actions[31], Action::SetActiveBorderColor(c) if c == "#ffffff"));
    assert!(matches!(&actions[32], Action::SetInactiveBorderColor(c) if c == "#444444"));
    assert!(wm.take_actions().is_empty());
}

#[test]
fn map_request_asks_to_manage_then_client_is_tiled_and_focused() {
    let mut wm = wm();
    let ev = WindowEvent::MapRequestEvent(MapEvent { window: 7 });
    assert!(wm.accepts(&ev));
    wm.handle_event(ev);
    let actions = wm.take_actions();
    assert_eq!(actions.len(), 2);
    assert!(matches!(&actions[0], Action::ForwardEvent(WindowEvent::MapRequestEvent(e)) if e.window == 7));
    assert!(matches!(&actions[1], Action::ManageWindow(7)));

    assert!(wm.can_manage(7, normal()));
    wm.new_client(7, normal());
    assert!(wm.contains(7));
    assert!(!wm.can_manage(7, normal()));
    let actions = wm.take_actions();
    assert_eq!(actions.len(), 4);
    assert!(matches!(
        &actions[0],
        Action::ConfigureWindow { window: 7, size: None, position: None, border: Some(1) }
    ));
    // gap 2, border 1 on a 1000x800 screen
    assert!(matches!(&actions[1], Action::MoveWindow(7, p) if *p == Point::new(4, 4)));
    assert!(matches!(&actions[2], Action::ResizeWindow(7, s) if *s == Size::new(990, 790)));
    assert!(matches!(&actions[3], Action::FocusWindow(7)));

    // a second map request for a managed window only forwards the event
    wm.handle_event(WindowEvent::MapRequestEvent(MapEvent { window: 7 }));
    let actions = wm.take_actions();
    assert_eq!(actions.len(), 1);
}

#[test]
fn key_bindings_run_commands() {
    let mut wm = wm();
    wm.new_client(7, normal());
    wm.take_actions();

    wm.handle_event(key(VirtualKeyCode::Q, super_only()));
    let actions = wm.take_actions();
    assert_eq!(actions.len(), 1);
    assert!(matches!(&actions[0], Action::KillWindow(7)));

    wm.handle_event(key(VirtualKeyCode::Q, ModifierState::empty()));
    assert!(wm.take_actions().is_empty());

    wm.handle_event(key(VirtualKeyCode::Q, super_only().with_mod(ModifierKey::Shift)));
    let actions = wm.take_actions();
    assert_eq!(actions.len(), 1);
    assert!(matches!(&actions[0], Action::Exit));

    wm.handle_event(key(VirtualKeyCode::Return, super_only().with_mod(ModifierKey::Shift)));
    let actions = wm.take_actions();
    assert!(matches!(&actions[0], Action::Spawn(p, a) if p == "xterm" && a.is_empty()));

    wm.handle_event(key(VirtualKeyCode::T, super_only().with_mod(ModifierKey::Shift)));
    let actions = wm.take_actions();
    assert_eq!(actions.len(), 1);
    assert!(matches!(&actions[0], Action::Spawn(p, a) if p == "xterm" && a.is_empty()));

    wm.handle_event(key(VirtualKeyCode::P, super_only()));
    let actions = wm.take_actions();
    assert!(matches!(&actions[0], Action::Spawn(p, a) if p == "dmenu_run" && a.len() == 12 && a[3] == "'New York:size=13'"));

    // a released key does nothing
    wm.handle_event(WindowEvent::KeyEvent(KeyEvent::new(0, KeyState::Released, VirtualKeyCode::Q, super_only())));
    assert!(wm.take_actions().is_empty());
}

#[test]
fn switching_virtual_screens_hides_clients() {
    let mut wm = wm();
    wm.new_client(7, normal());
    wm.take_actions();
    wm.handle_event(key(VirtualKeyCode::Two, super_only()));
    let actions = wm.take_actions();
    assert_eq!(actions.len(), 1);
    assert!(matches!(&actions[0], Action::HideWindow(7)));
    wm.handle_event(key(VirtualKeyCode::Tab, super_only()));
    let actions = wm.take_actions();
    assert!(matches!(&actions[0], Action::MoveWindow(7, _)));
}

#[test]
fn quitting_kills_clients_when_configured() {
    let mut config = WMConfig::default();
    config.kill_clients_on_exit = true;
    let mut wm = WindowManager::new(config, Size::new(1000, 800));
    wm.new_client(3, normal());
    wm.new_client(4, normal());
    wm.take_actions();
    wm.handle_event(key(VirtualKeyCode::Q, super_only().with_mod(ModifierKey::Shift)));
    let actions = wm.take_actions();
    assert_eq!(actions.len(), 3);
    assert!(matches!(&actions[0], Action::KillWindow(3)));
    assert!(matches!(&actions[1], Action::KillWindow(4)));
    assert!(matches!(&actions[2], Action::Exit));
}

#[test]
fn unmap_forgets_and_enter_focuses() {
    let mut wm = wm();
    wm.new_client(7, normal());
    wm.new_client(8, normal());
    wm.handle_event(WindowEvent::EnterEvent(EnterEvent { window: 7 }));
    wm.take_actions();
    wm.handle_event(WindowEvent::EnterEvent(EnterEvent { window: 8 }));
    let actions = wm.take_actions();
    assert_eq!(actions.len(), 2);
    assert!(matches!(&actions[0], Action::UnfocusWindow(7)));
    assert!(matches!(&actions[1], Action::FocusWindow(8)));
    wm.handle_event(WindowEvent::UnmapEvent(UnmapEvent { window: 8 }));
    assert!(!wm.contains(8));
    let actions = wm.take_actions();
    // client 7 gets the whole screen back and the focus
    assert!(matches!(&actions[0], Action::MoveWindow(7, p) if *p == Point::new(4, 4)));
    assert!(matches!(&actions[1], Action::ResizeWindow(7, s) if *s == Size::new(990, 790)));
    assert!(matches!(actions.last().unwrap(), Action::FocusWindow(7)));
}

#[test]
fn dragging_moves_a_client() {
    let mut wm = wm();
    wm.new_client(7, normal());
    wm.take_actions();
    let press = WindowEvent::ButtonEvent(ButtonEvent::new(7, KeyState::Pressed, MouseButton::Left, Point::new(100, 100), super_only()));
    assert!(wm.accepts(&press));
    wm.handle_event(press);
    wm.take_actions();
    let motion = WindowEvent::MotionEvent(MotionEvent::new(Point::new(130, 90), 7));
    assert!(wm.accepts(&motion));
    wm.handle_event(motion);
    let actions = wm.take_actions();
    assert_eq!(actions.len(), 1);
    assert!(matches!(&actions[0], Action::MoveWindow(7, p) if *p == Point::new(34, -6)));
    wm.handle_event(WindowEvent::ButtonEvent(ButtonEvent::new(7, KeyState::Released, MouseButton::Left, Point::new(130, 90), super_only())));
    wm.handle_event(WindowEvent::MotionEvent(MotionEvent::new(Point::new(0, 0), 7)));
    assert!(wm.take_actions().is_empty());
}

#[test]
fn resizing_grabs_the_pointer_at_the_corner() {
    let mut wm = wm();
    wm.new_client(7, normal());
    wm.take_actions();
    wm.handle_event(WindowEvent::ButtonEvent(ButtonEvent::new(7, KeyState::Pressed, MouseButton::Middle, Point::new(0, 0), super_only())));
    let actions = wm.take_actions();
    // 4 + 990, 4 + 790
    assert!(actions.iter().any(|a| matches!(a, Action::MoveCursor(None, p) if *p == Point::new(994, 794))));
    assert!(matches!(actions.last().unwrap(), Action::GrabCursor));
    wm.handle_event(WindowEvent::MotionEvent(MotionEvent::new(Point::new(-2000, 800), 7)));
    let actions = wm.take_actions();
    assert!(matches!(&actions[0], Action::ResizeWindow(7, s) if *s == Size::new(1, 796)));
    wm.handle_event(WindowEvent::ButtonEvent(ButtonEvent::new(7, KeyState::Released, MouseButton::Middle, Point::new(0, 0), super_only())));
    let actions = wm.take_actions();
    assert!(matches!(&actions[0], Action::UngrabCursor));
}

#[test]
fn motion_that_overflows_is_refused() {
    let mut wm = wm();
    wm.new_client(7, normal());
    wm.handle_event(WindowEvent::ButtonEvent(ButtonEvent::new(7, KeyState::Pressed, MouseButton::Left, Point::new(i32::MIN, 0), super_only())));
    assert!(!wm.accepts(&WindowEvent::MotionEvent(MotionEvent::new(Point::new(i32::MAX, 0), 7))));
}

#[test]
fn fullscreen_requests() {
    let mut wm = wm();
    wm.new_client(7, normal());
    wm.take_actions();
    wm.handle_event(WindowEvent::FullscreenEvent(FullscreenEvent::new(7, FullscreenState::On)));
    let actions = wm.take_actions();
    assert!(matches!(&actions[0], Action::ConfigureWindow { window: 7, border: Some(0), .. }));
    assert!(matches!(&actions[1], Action::MoveWindow(7, p) if *p == Point::new(0, 0)));
    assert!(matches!(&actions[2], Action::ResizeWindow(7, s) if *s == Size::new(1000, 800)));
    wm.handle_event(WindowEvent::FullscreenEvent(FullscreenEvent::new(7, FullscreenState::On)));
    assert!(wm.take_actions().is_empty());
    wm.handle_event(WindowEvent::FullscreenEvent(FullscreenEvent::new(7, FullscreenState::Toggle)));
    let actions = wm.take_actions();
    assert!(matches!(&actions[0], Action::ConfigureWindow { window: 7, border: Some(1), .. }));
}

#[test]
fn dialogs_float_over_their_parent() {
    let mut wm = wm();
    wm.new_client(7, normal());
    let info = WindowInfo { window_type: WindowType::Dialog, size: Some(Size::new(200, 100)), parent: Some(7) };
    assert!(wm.can_manage(9, info));
    wm.take_actions();
    wm.new_client(9, info);
    let actions = wm.take_actions();
    // centred over the parent: 4 + (990 - 200) / 2, 4 + (790 - 100) / 2
    assert!(actions.iter().any(|a| matches!(a, Action::MoveWindow(9, p) if *p == Point::new(399, 349))));
    assert!(actions.iter().any(|a| matches!(a, Action::RaiseWindow(9))));
    assert!(matches!(actions.last().unwrap(), Action::RaiseWindow(9)));
}

#[test]
fn the_right_button_starts_no_drag() {
    let mut wm = wm();
    wm.new_client(7, normal());
    wm.take_actions();
    wm.handle_event(WindowEvent::ButtonEvent(ButtonEvent::new(7, KeyState::Pressed, MouseButton::Right, Point::new(0, 0), super_only())));
    wm.take_actions();
    wm.handle_event(WindowEvent::MotionEvent(MotionEvent::new(Point::new(50, 50), 7)));
    assert!(wm.take_actions().is_empty());
}
