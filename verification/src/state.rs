use vstd::prelude::*;

use crate::backends::keycodes::{KeyOrButton, MouseButton, VirtualKeyCode};
use crate::backends::structs::WindowType;
use crate::backends::window_event::{
    ButtonEvent, ConfigureEvent, FullscreenEvent, FullscreenState, KeyBind, KeyEvent, KeyOrMouseBind, KeyState, MapEvent,
    ModifierKey, ModifierState, MotionEvent, MouseBind, WindowEvent,
};
use crate::clients::client::{default_client, Client};
use crate::clients::{ClientEntry, ClientState, ClientsModel, MAX_CLIENTS, MAX_SCREENS};
use crate::util::{fits_i32, Point, Size, COORD_LIMIT};

verus! {

// ---------------------------------------------------------------------------
// Configuration.
// ---------------------------------------------------------------------------

/// The window manager's settings, the kind one keeps in a configuration file.
#[derive(Debug)]
pub struct WMConfig {
    pub num_virtualscreens: usize,
    pub mod_key: ModifierKey,
    pub gap: Option<i32>,
    pub kill_clients_on_exit: bool,
    pub active_window_border_color: String,
    pub inactive_window_border_color: String,
    pub terminal_command: (String, Vec<String>),
    pub border_width: Option<i32>,
}

impl WMConfig {
    pub fn default_active_window_border_color() -> (r: String)
        ensures
            r@ == "#ffffff"@,
    {
        "#ffffff".to_owned()
    }

    pub fn default_inactive_window_border_color() -> (r: String)
        ensures
            r@ == "#444444"@,
    {
        "#444444".to_owned()
    }

    pub fn default_terminal() -> (r: (String, Vec<String>))
        ensures
            r.0@ == "xterm"@,
            r.1@.len() == 0,
    {
        ("xterm".to_owned(), Vec::new())
    }

    /// The settings a window manager can be built with: a number of virtual screens it
    /// can hold, and gap and border widths within the limits of the tiling arithmetic.
    pub open spec fn wf(&self) -> bool {
        &&& 1 <= self.num_virtualscreens <= MAX_SCREENS
        &&& match self.gap {
            Some(g) => -COORD_LIMIT <= g <= COORD_LIMIT,
            None => true,
        }
        &&& match self.border_width {
            Some(b) => -COORD_LIMIT <= b <= COORD_LIMIT,
            None => true,
        }
    }
}

impl Default for WMConfig {
    fn default() -> (r: Self)
        ensures
            r.num_virtualscreens == 10,
            r.mod_key == ModifierKey::Super,
            r.gap == Some(2i32),
            !r.kill_clients_on_exit,
            r.active_window_border_color@ == "#ffffff"@,
            r.inactive_window_border_color@ == "#444444"@,
            r.terminal_command.0@ == "xterm"@,
            r.terminal_command.1@.len() == 0,
            r.border_width == Some(1i32),
    {
        Self {
            num_virtualscreens: 10,
            mod_key: ModifierKey::Super,
            gap: Some(2),
            kill_clients_on_exit: false,
            active_window_border_color: Self::default_active_window_border_color(),
            inactive_window_border_color: Self::default_inactive_window_border_color(),
            terminal_command: Self::default_terminal(),
            border_width: Some(1),
        }
    }
}

// ---------------------------------------------------------------------------
// Directions.
// ---------------------------------------------------------------------------

/// A direction, with a number of steps.
#[derive(Debug, Clone, Copy, PartialEq, Eq, Structural)]
pub enum Direction {
    West(usize),
    East(usize),
    North(usize),
    South(usize),
}

impl Direction {
    pub fn west() -> (r: Self)
        ensures
            r == Direction::West(1),
    {
        Direction::West(1)
    }

    pub fn east() -> (r: Self)
        ensures
            r == Direction::East(1),
    {
        Direction::East(1)
    }

    pub fn north() -> (r: Self)
        ensures
            r == Direction::North(1),
    {
        Direction::North(1)
    }

    pub fn south() -> (r: Self)
        ensures
            r == Direction::South(1),
    {
        Direction::South(1)
    }

    /// West and east swapped; north and south kept.
    pub open spec fn flipped(self) -> Direction {
        match self {
            Direction::West(n) => Direction::East(n),
            Direction::East(n) => Direction::West(n),
            Direction::North(n) => Direction::North(n),
            Direction::South(n) => Direction::South(n),
        }
    }
}

impl std::ops::Not for Direction {
    type Output = Self;

    fn not(self) -> (r: Self) {
        match self {
            Direction::West(n) => Direction::East(n),
            Direction::East(n) => Direction::West(n),
            Direction::North(n) => Direction::North(n),
            Direction::South(n) => Direction::South(n),
        }
    }
}

impl vstd::std_specs::ops::NotSpecImpl for Direction {
    open spec fn obeys_not_spec() -> bool {
        true
    }

    open spec fn not_req(self) -> bool {
        true
    }

    open spec fn not_spec(self) -> Direction {
        self.flipped()
    }
}

/// Flipping a direction twice gives it back.
pub proof fn lemma_flip_involutive(d: Direction)
    ensures
        d.flipped().flipped() == d,
{
}

// ---------------------------------------------------------------------------
// Key bindings and the work they do.
// ---------------------------------------------------------------------------

/// What a key binding does.
#[derive(Debug, Clone)]
pub enum Command {
    /// Starts a program with arguments.
    Spawn(String, Vec<String>),
    /// Starts the configured terminal.
    SpawnTerminal,
    /// Moves the focused client to the other stack.
    SwitchStack,
    /// Switches the focused client between tiled and floating.
    ToggleFloating,
    /// Closes the focused client.
    KillClient,
    /// Ends the window manager.
    Quit,
    MoveFocus(Direction),
    /// Changes the master stack's share by this many thousandths.
    ChangeMasterSize(i32),
    /// Moves to another virtual screen, `West` to the left and `East` to the right.
    RotateVirtualScreen(Direction),
    /// Returns to the previous virtual screen.
    RotateVirtualScreenBack,
    /// Goes to the virtual screen numbered from one.
    GoToNthVirtualScreen(usize),
}

/// A `Command` with its strings seen as character sequences.
pub enum CommandModel {
    Spawn(Seq<char>, Seq<Seq<char>>),
    SpawnTerminal,
    SwitchStack,
    ToggleFloating,
    KillClient,
    Quit,
    MoveFocus(Direction),
    ChangeMasterSize(i32),
    RotateVirtualScreen(Direction),
    RotateVirtualScreenBack,
    GoToNthVirtualScreen(usize),
}

/// The character sequences of a list of strings.
pub open spec fn strings_view(v: Seq<String>) -> Seq<Seq<char>> {
    v.map_values(|s: String| s@)
}

impl View for Command {
    type V = CommandModel;

    open spec fn view(&self) -> CommandModel {
        match self {
            Command::Spawn(p, a) => CommandModel::Spawn(p@, strings_view(a@)),
            Command::SpawnTerminal => CommandModel::SpawnTerminal,
            Command::SwitchStack => CommandModel::SwitchStack,
            Command::ToggleFloating => CommandModel::ToggleFloating,
            Command::KillClient => CommandModel::KillClient,
            Command::Quit => CommandModel::Quit,
            Command::MoveFocus(d) => CommandModel::MoveFocus(*d),
            Command::ChangeMasterSize(d) => CommandModel::ChangeMasterSize(*d),
            Command::RotateVirtualScreen(d) => CommandModel::RotateVirtualScreen(*d),
            Command::RotateVirtualScreenBack => CommandModel::RotateVirtualScreenBack,
            Command::GoToNthVirtualScreen(n) => CommandModel::GoToNthVirtualScreen(*n),
        }
    }
}

/// A key binding: a key with modifiers, and the command it runs.
#[derive(Debug, Clone)]
pub struct KeyBinding {
    pub key: KeyBind,
    pub command: Command,
}

pub struct KeyBindingModel {
    pub key: KeyBind,
    pub command: CommandModel,
}

impl View for KeyBinding {
    type V = KeyBindingModel;

    open spec fn view(&self) -> KeyBindingModel {
        KeyBindingModel { key: self.key, command: self.command@ }
    }
}

impl KeyBinding {
    pub fn new(key: KeyBind, command: Command) -> (r: Self)
        ensures
            r.key == key,
            r@.command == command@,
    {
        Self { key, command }
    }
}

// ---------------------------------------------------------------------------
// Work for the window server.
// ---------------------------------------------------------------------------

/// A request to the window server (or the system) that the window manager decided on;
/// they are carried out in order.
#[derive(Debug, Clone)]
pub enum Action {
    AddKeybind(KeyOrMouseBind),
    SetActiveBorderColor(String),
    SetInactiveBorderColor(String),
    /// Let the window server do its own part of handling the event.
    ForwardEvent(WindowEvent<u64>),
    ConfigureWindow { window: u64, size: Option<Size>, position: Option<Point>, border: Option<i32> },
    MoveWindow(u64, Point),
    ResizeWindow(u64, Size),
    HideWindow(u64),
    RaiseWindow(u64),
    FocusWindow(u64),
    UnfocusWindow(u64),
    KillWindow(u64),
    MoveCursor(Option<u64>, Point),
    GrabCursor,
    UngrabCursor,
    Spawn(String, Vec<String>),
    /// End the window manager.
    Exit,
    /// Read the new window's type, size and parent and hand them to `new_client`.
    ManageWindow(u64),
}

/// An `Action` with its strings seen as character sequences.
pub enum ActionModel {
    AddKeybind(KeyOrMouseBind),
    SetActiveBorderColor(Seq<char>),
    SetInactiveBorderColor(Seq<char>),
    ForwardEvent(WindowEvent<u64>),
    ConfigureWindow { window: u64, size: Option<Size>, position: Option<Point>, border: Option<i32> },
    MoveWindow(u64, Point),
    ResizeWindow(u64, Size),
    HideWindow(u64),
    RaiseWindow(u64),
    FocusWindow(u64),
    UnfocusWindow(u64),
    KillWindow(u64),
    MoveCursor(Option<u64>, Point),
    GrabCursor,
    UngrabCursor,
    Spawn(Seq<char>, Seq<Seq<char>>),
    Exit,
    ManageWindow(u64),
}

impl View for Action {
    type V = ActionModel;

    open spec fn view(&self) -> ActionModel {
        match self {
            Action::AddKeybind(b) => ActionModel::AddKeybind(*b),
            Action::SetActiveBorderColor(c) => ActionModel::SetActiveBorderColor(c@),
            Action::SetInactiveBorderColor(c) => ActionModel::SetInactiveBorderColor(c@),
            Action::ForwardEvent(e) => ActionModel::ForwardEvent(*e),
            Action::ConfigureWindow { window, size, position, border } => ActionModel::ConfigureWindow {
                window: *window,
                size: *size,
                position: *position,
                border: *border,
            },
            Action::MoveWindow(w, p) => ActionModel::MoveWindow(*w, *p),
            Action::ResizeWindow(w, s) => ActionModel::ResizeWindow(*w, *s),
            Action::HideWindow(w) => ActionModel::HideWindow(*w),
            Action::RaiseWindow(w) => ActionModel::RaiseWindow(*w),
            Action::FocusWindow(w) => ActionModel::FocusWindow(*w),
            Action::UnfocusWindow(w) => ActionModel::UnfocusWindow(*w),
            Action::KillWindow(w) => ActionModel::KillWindow(*w),
            Action::MoveCursor(w, p) => ActionModel::MoveCursor(*w, *p),
            Action::GrabCursor => ActionModel::GrabCursor,
            Action::UngrabCursor => ActionModel::UngrabCursor,
            Action::Spawn(p, a) => ActionModel::Spawn(p@, strings_view(a@)),
            Action::Exit => ActionModel::Exit,
            Action::ManageWindow(w) => ActionModel::ManageWindow(*w),
        }
    }
}

/// What the window server says of a window that is about to be managed.
#[derive(Debug, Clone, Copy, PartialEq, Eq, Structural)]
pub struct WindowInfo {
    pub window_type: WindowType,
    /// The window's size, if it could be read.
    pub size: Option<Size>,
    /// The window it is transient for, if any.
    pub parent: Option<u64>,
}

// ---------------------------------------------------------------------------
// Moving and resizing with the pointer.
// ---------------------------------------------------------------------------

#[derive(Debug, Clone, Copy, PartialEq, Eq, Structural)]
pub struct MoveInfoInner {
    pub window: u64,
    pub starting_cursor_pos: Point,
    pub starting_window_pos: Point,
}

#[derive(Debug, Clone, Copy, PartialEq, Eq, Structural)]
pub struct ResizeInfoInner {
    pub window: u64,
    pub starting_cursor_pos: Point,
    pub starting_window_size: Size,
}

/// The pointer drag in progress, if any.
#[derive(Debug, Clone, Copy, PartialEq, Eq, Structural)]
pub enum MoveResizeInfo {
    Move(MoveInfoInner),
    Resize(ResizeInfoInner),
    Idle,
}

// ---------------------------------------------------------------------------
// The window manager.
// ---------------------------------------------------------------------------

/// What a `WindowManager` holds, with the requests it has made so far.
pub struct WmModel {
    pub clients: ClientsModel,
    pub move_resize: MoveResizeInfo,
    pub keybinds: Seq<KeyBindingModel>,
    pub mod_key: ModifierKey,
    pub kill_on_exit: bool,
    pub terminal: (Seq<char>, Seq<Seq<char>>),
    /// The requests made, oldest first, that have not been taken yet.
    pub actions: Seq<ActionModel>,
}

/// The visible clients, floating ones first.
pub open spec fn visible_list(c: ClientsModel) -> Seq<(u64, Client)> {
    (c.floating + c.tiled).filter(|e: (u64, Client)| c.visible(e.0))
}

/// The clients not shown, floating ones first.
pub open spec fn hidden_list(c: ClientsModel) -> Seq<(u64, Client)> {
    (c.floating + c.tiled).filter(|e: (u64, Client)| !c.visible(e.0))
}

/// The clients raised above the others: floating ones, then transient ones (again), then
/// the fullscreen clients of the current screen.
pub open spec fn raise_list(c: ClientsModel) -> Seq<(u64, Client)> {
    c.floating + c.floating.filter(|e: (u64, Client)| e.1.parent_window is Some) + c.tiled.filter(
        |e: (u64, Client)| c.current_screen().contains(e.0),
    ).filter(|e: (u64, Client)| e.1.fullscreen)
}

/// For each client, a move to its position then a resize to its size.
pub open spec fn move_resize_actions(s: Seq<(u64, Client)>) -> Seq<ActionModel>
    decreases s.len(),
{
    if s.len() == 0 {
        Seq::empty()
    } else {
        move_resize_actions(s.drop_last()) + seq![
            ActionModel::MoveWindow(s.last().1.window, s.last().1.position),
            ActionModel::ResizeWindow(s.last().1.window, s.last().1.size),
        ]
    }
}

pub open spec fn hide_actions(s: Seq<(u64, Client)>) -> Seq<ActionModel> {
    s.map_values(|e: (u64, Client)| ActionModel::HideWindow(e.1.window))
}

pub open spec fn raise_actions(s: Seq<(u64, Client)>) -> Seq<ActionModel> {
    s.map_values(|e: (u64, Client)| ActionModel::RaiseWindow(e.1.window))
}

/// The focused client is among the visible ones.
pub open spec fn focus_visible(c: ClientsModel) -> bool {
    exists|i: int| 0 <= i < visible_list(c).len() && c.focused == Some(#[trigger] visible_list(c)[i].0)
}

impl WmModel {
    /// The model with `a` requested after what was requested so far.
    pub open spec fn emit(self, a: Seq<ActionModel>) -> WmModel {
        WmModel { actions: self.actions + a, ..self }
    }

    pub open spec fn with_clients(self, c: ClientsModel) -> WmModel {
        WmModel { clients: c, ..self }
    }

    /// Focusing client `k` (raising it too if it floats and `try_raise`): the previously
    /// focused client is unfocused, `k` is focused; nothing happens if `k` is unknown or
    /// already focused.
    #[verifier::opaque]
    pub open spec fn focus_client(self, k: u64, try_raise: bool) -> WmModel {
        let c = self.clients;
        if c.contains(k) && c.focused != Some(k) {
            let unfocus = match c.focused {
                Some(f) => match c.entry(f).option() {
                    Some(o) => seq![ActionModel::UnfocusWindow(o.window)],
                    None => Seq::empty(),
                },
                None => Seq::empty(),
            };
            let focus = match c.entry(k) {
                ClientEntry::Floating(n) => seq![ActionModel::FocusWindow(n.window)] + if try_raise {
                    seq![ActionModel::RaiseWindow(n.window)]
                } else {
                    Seq::empty()
                },
                ClientEntry::Tiled(n) => seq![ActionModel::FocusWindow(n.window)],
                ClientEntry::Vacant => Seq::empty(),
            };
            self.with_clients(ClientsModel { focused: Some(k), ..c }).emit(unfocus + focus)
        } else {
            self
        }
    }

    /// Focuses the first visible client, if any.
    #[verifier::opaque]
    pub open spec fn focus_any(self) -> WmModel {
        let v = visible_list(self.clients);
        if v.len() > 0 {
            self.focus_client(v[0].0, false)
        } else {
            self
        }
    }

    /// Shows the layout: every visible client is moved and resized to its place, the
    /// others are hidden, floating, transient and fullscreen clients are raised, and if no
    /// visible client has the focus, the first visible one gets it.
    #[verifier::opaque]
    pub open spec fn arrange_clients(self) -> WmModel {
        let c = self.clients;
        let w = self.emit(
            move_resize_actions(visible_list(c)) + hide_actions(hidden_list(c)) + raise_actions(raise_list(c)),
        );
        if focus_visible(c) {
            w
        } else {
            w.focus_any()
        }
    }
}

/// The window manager: its clients, its key bindings, the drag in progress and the
/// requests to the window server it has decided on.
pub struct WindowManager {
    clients: ClientState,
    move_resize_window: MoveResizeInfo,
    keybinds: Vec<KeyBinding>,
    config: WMConfig,
    actions: Vec<Action>,
}

impl View for WindowManager {
    type V = WmModel;

    closed spec fn view(&self) -> WmModel {
        WmModel {
            clients: self.clients@,
            move_resize: self.move_resize_window,
            keybinds: self.keybinds@.map_values(|k: KeyBinding| k@),
            mod_key: self.config.mod_key,
            kill_on_exit: self.config.kill_clients_on_exit,
            terminal: (self.config.terminal_command.0@, strings_view(self.config.terminal_command.1@)),
            actions: self.actions@.map_values(|a: Action| a@),
        }
    }
}

/// A command that names a virtual screen names it by a number from one.
pub open spec fn numbered_from_one(c: CommandModel) -> bool {
    match c {
        CommandModel::GoToNthVirtualScreen(n) => n >= 1,
        _ => true,
    }
}

impl WmModel {
    /// The invariant of a `WindowManager`: sound clients, and virtual screens numbered
    /// from one in its bindings.
    pub open spec fn wf(self) -> bool {
        &&& self.clients.wf()
        &&& forall|i: int| 0 <= i < self.keybinds.len() ==> numbered_from_one(#[trigger] self.keybinds[i].command)
    }
}

impl WindowManager {
    pub open spec fn wf(&self) -> bool {
        self@.wf()
    }

    /// Requests `a`.
    fn emit(&mut self, a: Action)
        ensures
            final(self)@ == old(self)@.emit(seq![a@]),
            final(self).clients == old(self).clients,
            final(self).keybinds == old(self).keybinds,
            final(self).config == old(self).config,
            final(self).move_resize_window == old(self).move_resize_window,
    {
        let ghost a0 = self.actions@;
        self.actions.push(a);
        proof {
            assert(self.actions@.map_values(|a: Action| a@) =~= a0.map_values(|a: Action| a@) + seq![a@]);
        }
    }

    /// Hands over the requests made so far, oldest first.
    pub fn take_actions(&mut self) -> (r: Vec<Action>)
        ensures
            r@.map_values(|a: Action| a@) == old(self)@.actions,
            final(self)@ == (WmModel { actions: Seq::empty(), ..old(self)@ }),
    {
        let mut r: Vec<Action> = Vec::new();
        std::mem::swap(&mut r, &mut self.actions);
        proof {
            assert(self.actions@.map_values(|a: Action| a@) =~= Seq::<ActionModel>::empty());
        }
        r
    }

    /// Requests a move and a resize for each client of `list`.
    fn emit_move_resize(&mut self, list: &Vec<(u64, Client)>)
        ensures
            final(self)@ == old(self)@.emit(move_resize_actions(list@)),
            final(self).clients == old(self).clients,
            final(self).keybinds == old(self).keybinds,
            final(self).config == old(self).config,
            final(self).move_resize_window == old(self).move_resize_window,
    {
        let mut i: usize = 0;
        while i < list.len()
            invariant
                i <= list@.len(),
                self@ == old(self)@.emit(move_resize_actions(list@.subrange(0, i as int))),
                self.clients == old(self).clients,
                self.keybinds == old(self).keybinds,
                self.config == old(self).config,
                self.move_resize_window == old(self).move_resize_window,
            decreases list@.len() - i,
        {
            let c = list[i].1;
            self.emit(Action::MoveWindow(c.window, c.position));
            self.emit(Action::ResizeWindow(c.window, c.size));
            proof {
                let s = list@.subrange(0, i as int + 1);
                assert(s.drop_last() =~= list@.subrange(0, i as int));
                assert(old(self)@.actions + move_resize_actions(list@.subrange(0, i as int)) + seq![
                    ActionModel::MoveWindow(c.window, c.position),
                ] + seq![ActionModel::ResizeWindow(c.window, c.size)] =~= old(self)@.actions + move_resize_actions(s));
            }
            i = i + 1;
        }
        proof {
            assert(list@.subrange(0, i as int) =~= list@);
        }
    }

    /// Requests that each client of `list` be hidden (`hide`) or raised.
    fn emit_each(&mut self, list: &Vec<(u64, Client)>, hide: bool)
        ensures
            final(self)@ == old(self)@.emit(if hide { hide_actions(list@) } else { raise_actions(list@) }),
            final(self).clients == old(self).clients,
            final(self).keybinds == old(self).keybinds,
            final(self).config == old(self).config,
            final(self).move_resize_window == old(self).move_resize_window,
    {
        let mut i: usize = 0;
        while i < list.len()
            invariant
                i <= list@.len(),
                self@ == old(self)@.emit(
                    if hide {
                        hide_actions(list@.subrange(0, i as int))
                    } else {
                        raise_actions(list@.subrange(0, i as int))
                    },
                ),
                self.clients == old(self).clients,
                self.keybinds == old(self).keybinds,
                self.config == old(self).config,
                self.move_resize_window == old(self).move_resize_window,
            decreases list@.len() - i,
        {
            let w = list[i].1.window;
            if hide {
                self.emit(Action::HideWindow(w));
            } else {
                self.emit(Action::RaiseWindow(w));
            }
            proof {
                let s = list@.subrange(0, i as int + 1);
                let p = list@.subrange(0, i as int);
                assert(hide_actions(s) =~= hide_actions(p).push(ActionModel::HideWindow(w)));
                assert(raise_actions(s) =~= raise_actions(p).push(ActionModel::RaiseWindow(w)));
                if hide {
                    assert(self@.actions =~= old(self)@.actions + hide_actions(s));
                } else {
                    assert(self@.actions =~= old(self)@.actions + raise_actions(s));
                }
            }
            i = i + 1;
        }
        proof {
            assert(list@.subrange(0, i as int) =~= list@);
        }
    }

    /// Focuses client `key` (see `WmModel::focus_client`).
    fn focus_client(&mut self, key: u64, try_raise: bool)
        requires
            old(self).wf(),
        ensures
            final(self).wf(),
            final(self)@ == old(self)@.focus_client(key, try_raise),
            final(self).keybinds == old(self).keybinds,
            final(self).config == old(self).config,
            final(self).move_resize_window == old(self).move_resize_window,
    {
        proof {
            reveal(WmModel::focus_client);
        }
        let ghost w0 = self@;
        let (new, old) = self.clients.focus_client(&key);
        let new_floating = new.is_floating();
        let new_c = new.into_option();
        let old_c = old.into_option();
        let old_w = match old_c {
            Some(o) => Some(o.window),
            None => None,
        };
        let new_w = match new_c {
            Some(n) => Some(n.window),
            None => None,
        };
        let ghost w1 = self@;
        match old_w {
            Some(o) => self.emit(Action::UnfocusWindow(o)),
            None => {},
        }
        let ghost w2 = self@;
        match new_w {
            Some(n) => {
                self.emit(Action::FocusWindow(n));
                if new_floating && try_raise {
                    self.emit(Action::RaiseWindow(n));
                }
            },
            None => {},
        }
        proof {
            let c = w0.clients;
            if c.contains(key) && c.focused != Some(key) {
                let unfocus = match c.focused {
                    Some(f) => match c.entry(f).option() {
                        Some(o) => seq![ActionModel::UnfocusWindow(o.window)],
                        None => Seq::empty(),
                    },
                    None => Seq::empty(),
                };
                let focus = match c.entry(key) {
                    ClientEntry::Floating(n) => seq![ActionModel::FocusWindow(n.window)] + if try_raise {
                        seq![ActionModel::RaiseWindow(n.window)]
                    } else {
                        Seq::empty()
                    },
                    ClientEntry::Tiled(n) => seq![ActionModel::FocusWindow(n.window)],
                    ClientEntry::Vacant => Seq::empty(),
                };
                assert(w2.actions =~= w0.actions + unfocus);
                assert(self@.actions =~= w0.actions + (unfocus + focus));
            } else {
                assert(self@.actions =~= w0.actions);
            }
        }
    }
}

// ---------------------------------------------------------------------------
// Focus moves and commands.
// ---------------------------------------------------------------------------

/// The window of the focused client, if the focus names a client.
pub open spec fn focused_window(c: ClientsModel) -> Option<u64> {
    match c.focused {
        Some(f) => match c.entry(f).option() {
            Some(cl) => Some(cl.window),
            None => None,
        },
        None => None,
    }
}

/// The first key in `s` other than `f`.
pub open spec fn first_other(s: Seq<(u64, Client)>, f: Option<u64>) -> Option<u64>
    decreases s.len(),
{
    if s.len() == 0 {
        None
    } else if f != Some(s[0].0) {
        Some(s[0].0)
    } else {
        first_other(s.drop_first(), f)
    }
}

/// The entry before the last occurrence of `f` in `s`, if any.
pub open spec fn before_last(s: Seq<u64>, f: u64) -> Option<u64>
    decreases s.len(),
{
    if s.len() == 0 {
        None
    } else if s.last() == f {
        if s.len() >= 2 {
            Some(s[s.len() - 2])
        } else {
            None
        }
    } else {
        before_last(s.drop_last(), f)
    }
}

/// The entry after the first occurrence of `f` in `s`, if any.
pub open spec fn after_first(s: Seq<u64>, f: u64) -> Option<u64>
    decreases s.len(),
{
    if s.len() == 0 {
        None
    } else if s[0] == f {
        if s.len() >= 2 {
            Some(s[1])
        } else {
            None
        }
    } else {
        after_first(s.drop_first(), f)
    }
}

/// The stack that holds `k`, if any screen does.
pub open spec fn stack_of(c: ClientsModel, k: u64) -> Option<Seq<u64>> {
    if c.is_stacked(k) {
        let s = c.screens[c.screen_of(k)];
        Some(if s.aux.contains(k) { s.aux } else { s.master })
    } else {
        None
    }
}

impl WmModel {
    /// Focuses the client `k` names, if any.
    pub open spec fn focus_some(self, k: Option<u64>) -> WmModel {
        match k {
            Some(k) => self.focus_client(k, false),
            None => self,
        }
    }

    /// Focuses the first visible floating or master-stack client that is not focused.
    #[verifier::opaque]
    pub open spec fn focus_master_stack(self) -> WmModel {
        let c = self.clients;
        let candidates = c.floating.filter(|e: (u64, Client)| c.visible(e.0)) + c.current_screen().master.map_values(
            |k: u64| (k, c.client_of(k)),
        );
        self.focus_some(first_other(candidates, focused_window(c)))
    }

    /// Focuses the first visible floating or aux-stack client that is not focused.
    #[verifier::opaque]
    pub open spec fn focus_aux_stack(self) -> WmModel {
        let c = self.clients;
        let candidates = c.floating.filter(|e: (u64, Client)| c.visible(e.0)) + c.current_screen().aux.map_values(
            |k: u64| (k, c.client_of(k)),
        );
        self.focus_some(first_other(candidates, focused_window(c)))
    }

    /// Focuses the client above the focused one in its stack.
    #[verifier::opaque]
    pub open spec fn focus_up(self) -> WmModel {
        match focused_window(self.clients) {
            Some(f) => match stack_of(self.clients, f) {
                Some(s) => self.focus_some(before_last(s, f)),
                None => self,
            },
            None => self,
        }
    }

    /// Focuses the client below the focused one in its stack.
    #[verifier::opaque]
    pub open spec fn focus_down(self) -> WmModel {
        match focused_window(self.clients) {
            Some(f) => match stack_of(self.clients, f) {
                Some(s) => self.focus_some(after_first(s, f)),
                None => self,
            },
            None => self,
        }
    }

    pub open spec fn move_focus(self, dir: Direction) -> WmModel {
        match dir {
            Direction::East(_) => self.focus_aux_stack(),
            Direction::West(_) => self.focus_master_stack(),
            Direction::North(_) => self.focus_up(),
            Direction::South(_) => self.focus_down(),
        }
    }

    /// The result of running `cmd`.
    #[verifier::opaque]
    pub open spec fn run_command(self, cmd: CommandModel) -> WmModel {
        let c = self.clients;
        match cmd {
            CommandModel::Spawn(p, a) => self.emit(seq![ActionModel::Spawn(p, a)]),
            CommandModel::SpawnTerminal => self.emit(seq![ActionModel::Spawn(self.terminal.0, self.terminal.1)]),
            CommandModel::SwitchStack => match focused_window(c) {
                Some(k) => self.with_clients(c.stack_switched(k)),
                None => self,
            }.arrange_clients(),
            CommandModel::ToggleFloating => match focused_window(c) {
                Some(k) => self.with_clients(c.floating_toggled(k)),
                None => self,
            }.arrange_clients(),
            CommandModel::KillClient => match focused_window(c) {
                Some(k) => self.emit(seq![ActionModel::KillWindow(k)]),
                None => self,
            },
            CommandModel::Quit => self.emit(
                if self.kill_on_exit {
                    (c.floating + c.tiled).map_values(|e: (u64, Client)| ActionModel::KillWindow(e.0))
                } else {
                    Seq::empty()
                } + seq![ActionModel::Exit],
            ),
            CommandModel::MoveFocus(d) => self.move_focus(d),
            CommandModel::ChangeMasterSize(d) => self.with_clients(c.master_resized(d as int)).arrange_clients(),
            CommandModel::RotateVirtualScreen(d) => match d {
                Direction::West(n) => self.with_clients(c.rotated_left(n as int)),
                Direction::East(n) => self.with_clients(c.rotated_right(n as int)),
                _ => self,
            }.arrange_clients(),
            CommandModel::RotateVirtualScreenBack => self.with_clients(c.went_back()).arrange_clients(),
            CommandModel::GoToNthVirtualScreen(n) => self.with_clients(c.went_to(n - 1)).arrange_clients(),
        }
    }
}

impl Command {
    /// A copy of the command.
    pub fn duplicate(&self) -> (r: Command)
        ensures
            r@ == self@,
    {
        match self {
            Command::Spawn(p, a) => Command::Spawn(p.clone(), copy_strings(a)),
            Command::SpawnTerminal => Command::SpawnTerminal,
            Command::SwitchStack => Command::SwitchStack,
            Command::ToggleFloating => Command::ToggleFloating,
            Command::KillClient => Command::KillClient,
            Command::Quit => Command::Quit,
            Command::MoveFocus(d) => Command::MoveFocus(*d),
            Command::ChangeMasterSize(d) => Command::ChangeMasterSize(*d),
            Command::RotateVirtualScreen(d) => Command::RotateVirtualScreen(*d),
            Command::RotateVirtualScreenBack => Command::RotateVirtualScreenBack,
            Command::GoToNthVirtualScreen(n) => Command::GoToNthVirtualScreen(*n),
        }
    }
}

/// A copy of a list of strings.
fn copy_strings(v: &Vec<String>) -> (r: Vec<String>)
    ensures
        strings_view(r@) == strings_view(v@),
{
    let mut r: Vec<String> = Vec::new();
    let mut i: usize = 0;
    while i < v.len()
        invariant
            i <= v@.len(),
            r@ == v@.subrange(0, i as int),
        decreases v@.len() - i,
    {
        r.push(v[i].clone());
        proof {
            assert(r@ =~= v@.subrange(0, i as int + 1));
        }
        i = i + 1;
    }
    proof {
        assert(v@.subrange(0, i as int) =~= v@);
    }
    r
}

/// The first key of `list` other than `f`, looking from position `from` on.
fn first_other_exec(list: &Vec<(u64, Client)>, f: Option<u64>) -> (r: Option<u64>)
    ensures
        r == first_other(list@, f),
{
    let mut i: usize = 0;
    proof {
        assert(list@.subrange(0, list@.len() as int) =~= list@);
    }
    while i < list.len()
        invariant
            i <= list@.len(),
            first_other(list@, f) == first_other(list@.subrange(i as int, list@.len() as int), f),
        decreases list@.len() - i,
    {
        proof {
            let s = list@.subrange(i as int, list@.len() as int);
            assert(s.drop_first() =~= list@.subrange(i + 1, list@.len() as int));
        }
        let same = match f {
            Some(x) => x == list[i].0,
            None => false,
        };
        if !same {
            return Some(list[i].0);
        }
        i = i + 1;
    }
    None
}

/// The entry before the last occurrence of `f` in `s`.
fn before_last_exec(s: &Vec<u64>, f: u64) -> (r: Option<u64>)
    ensures
        r == before_last(s@, f),
{
    let mut n: usize = s.len();
    proof {
        assert(s@.subrange(0, s@.len() as int) =~= s@);
    }
    while n > 0
        invariant
            n <= s@.len(),
            before_last(s@, f) == before_last(s@.subrange(0, n as int), f),
        decreases n,
    {
        proof {
            let t = s@.subrange(0, n as int);
            assert(t.drop_last() =~= s@.subrange(0, n - 1));
        }
        if s[n - 1] == f {
            if n >= 2 {
                return Some(s[n - 2]);
            } else {
                return None;
            }
        }
        n = n - 1;
    }
    None
}

/// The entry after the first occurrence of `f` in `s`.
fn after_first_exec(s: &Vec<u64>, f: u64) -> (r: Option<u64>)
    ensures
        r == after_first(s@, f),
{
    let mut i: usize = 0;
    proof {
        assert(s@.subrange(0, s@.len() as int) =~= s@);
    }
    while i < s.len()
        invariant
            i <= s@.len(),
            after_first(s@, f) == after_first(s@.subrange(i as int, s@.len() as int), f),
        decreases s@.len() - i,
    {
        proof {
            let t = s@.subrange(i as int, s@.len() as int);
            assert(t.drop_first() =~= s@.subrange(i + 1, s@.len() as int));
        }
        if s[i] == f {
            if i + 1 < s.len() {
                return Some(s[i + 1]);
            } else {
                return None;
            }
        }
        i = i + 1;
    }
    None
}

impl WindowManager {
    /// Requests that the clients not shown be hidden.
    fn hide_hidden_clients(&mut self)
        requires
            old(self).wf(),
        ensures
            final(self)@ == old(self)@.emit(hide_actions(hidden_list(old(self)@.clients))),
            final(self).clients == old(self).clients,
            final(self).keybinds == old(self).keybinds,
            final(self).config == old(self).config,
            final(self).move_resize_window == old(self).move_resize_window,
    {
        let hidden = self.clients.iter_hidden();
        self.emit_each(&hidden, true);
    }

    /// Requests that floating, transient and fullscreen clients be raised.
    fn raise_floating_clients(&mut self)
        requires
            old(self).wf(),
        ensures
            final(self)@ == old(self)@.emit(raise_actions(raise_list(old(self)@.clients))),
            final(self).clients == old(self).clients,
            final(self).keybinds == old(self).keybinds,
            final(self).config == old(self).config,
            final(self).move_resize_window == old(self).move_resize_window,
    {
        let ghost w0 = self@;
        let floating = self.clients.iter_floating();
        self.emit_each(&floating, false);
        let transient = self.clients.iter_transient();
        self.emit_each(&transient, false);
        let current = self.clients.iter_current_screen();
        let mut fullscreen: Vec<(u64, Client)> = Vec::new();
        let mut i: usize = 0;
        while i < current.len()
            invariant
                i <= current@.len(),
                fullscreen@ == current@.subrange(0, i as int).filter(|e: (u64, Client)| e.1.fullscreen),
            decreases current@.len() - i,
        {
            proof {
                let s = current@.subrange(0, i as int + 1);
                assert(s.drop_last() =~= current@.subrange(0, i as int));
                reveal(Seq::filter);
            }
            if current[i].1.fullscreen {
                fullscreen.push(current[i]);
            }
            i = i + 1;
        }
        proof {
            assert(current@.subrange(0, i as int) =~= current@);
        }
        self.emit_each(&fullscreen, false);
        proof {
            let c = w0.clients;
            assert(raise_list(c) == floating@ + transient@ + fullscreen@);
            assert(raise_actions(floating@ + transient@ + fullscreen@) =~= raise_actions(floating@) + raise_actions(
                transient@,
            ) + raise_actions(fullscreen@));
            assert(self@.actions =~= w0.actions + raise_actions(raise_list(c)));
        }
    }

    /// Focuses the first visible client, if any.
    fn focus_any(&mut self)
        requires
            old(self).wf(),
        ensures
            final(self).wf(),
            final(self)@ == old(self)@.focus_any(),
            final(self).keybinds == old(self).keybinds,
            final(self).config == old(self).config,
            final(self).move_resize_window == old(self).move_resize_window,
    {
        proof {
            reveal(WmModel::focus_any);
        }
        let visible = self.clients.iter_visible();
        if visible.len() > 0 {
            let k = visible[0].0;
            self.focus_client(k, false);
        }
    }

    /// Shows the layout (see `WmModel::arrange_clients`).
    fn arrange_clients(&mut self)
        requires
            old(self).wf(),
        ensures
            final(self).wf(),
            final(self)@ == old(self)@.arrange_clients(),
            final(self).keybinds == old(self).keybinds,
            final(self).config == old(self).config,
            final(self).move_resize_window == old(self).move_resize_window,
    {
        proof {
            reveal(WmModel::arrange_clients);
        }
        let ghost w0 = self@;
        let visible = self.clients.iter_visible();
        self.emit_move_resize(&visible);
        self.hide_hidden_clients();
        self.raise_floating_clients();
        let mut any = false;
        let mut i: usize = 0;
        while i < visible.len()
            invariant
                i <= visible@.len(),
                visible@ == visible_list(w0.clients),
                self.clients@ == w0.clients,
                any == exists|j: int| 0 <= j < i && w0.clients.focused == Some(#[trigger] visible@[j].0),
            decreases visible@.len() - i,
        {
            let here = self.clients.is_focused(&visible[i].0);
            proof {
                if here {
                    assert(w0.clients.focused == Some(visible@[i as int].0));
                } else {
                    assert forall|j: int| 0 <= j < i + 1 && w0.clients.focused == Some(#[trigger] visible@[j].0) implies j
                        < i by {}
                }
            }
            if here {
                any = true;
            }
            i = i + 1;
        }
        proof {
            assert(self@.actions =~= w0.actions + (move_resize_actions(visible_list(w0.clients)) + hide_actions(
                hidden_list(w0.clients),
            ) + raise_actions(raise_list(w0.clients))));
            assert(self@ == w0.emit(
                move_resize_actions(visible_list(w0.clients)) + hide_actions(hidden_list(w0.clients)) + raise_actions(
                    raise_list(w0.clients),
                ),
            ));
        }
        if !any {
            self.focus_any();
        }
    }
}

impl WindowManager {
    /// The window of the focused client, if the focus names a client.
    fn focused_window(&self) -> (r: Option<u64>)
        requires
            self.wf(),
        ensures
            r == focused_window(self@.clients),
    {
        match self.clients.get_focused().into_option() {
            Some(c) => Some(c.window),
            None => None,
        }
    }

    fn focus_some(&mut self, k: Option<u64>)
        requires
            old(self).wf(),
        ensures
            final(self).wf(),
            final(self)@ == old(self)@.focus_some(k),
            final(self).keybinds == old(self).keybinds,
            final(self).config == old(self).config,
            final(self).move_resize_window == old(self).move_resize_window,
    {
        match k {
            Some(k) => self.focus_client(k, false),
            None => {},
        }
    }

    /// Focuses the first visible floating or master-stack client that is not focused.
    fn focus_master_stack(&mut self)
        requires
            old(self).wf(),
        ensures
            final(self).wf(),
            final(self)@ == old(self)@.focus_master_stack(),
            final(self).keybinds == old(self).keybinds,
            final(self).config == old(self).config,
            final(self).move_resize_window == old(self).move_resize_window,
    {
        proof {
            reveal(WmModel::focus_master_stack);
        }
        let focused = self.focused_window();
        let mut candidates = self.clients.iter_floating_visible();
        let mut stack = self.clients.iter_master_stack();
        candidates.append(&mut stack);
        let k = first_other_exec(&candidates, focused);
        self.focus_some(k);
    }

    /// Focuses the first visible floating or aux-stack client that is not focused.
    fn focus_aux_stack(&mut self)
        requires
            old(self).wf(),
        ensures
            final(self).wf(),
            final(self)@ == old(self)@.focus_aux_stack(),
            final(self).keybinds == old(self).keybinds,
            final(self).config == old(self).config,
            final(self).move_resize_window == old(self).move_resize_window,
    {
        proof {
            reveal(WmModel::focus_aux_stack);
        }
        let focused = self.focused_window();
        let mut candidates = self.clients.iter_floating_visible();
        let mut stack = self.clients.iter_aux_stack();
        candidates.append(&mut stack);
        let k = first_other_exec(&candidates, focused);
        self.focus_some(k);
    }

    /// Focuses the client above the focused one in its stack.
    fn focus_up(&mut self)
        requires
            old(self).wf(),
        ensures
            final(self).wf(),
            final(self)@ == old(self)@.focus_up(),
            final(self).keybinds == old(self).keybinds,
            final(self).config == old(self).config,
            final(self).move_resize_window == old(self).move_resize_window,
    {
        proof {
            reveal(WmModel::focus_up);
        }
        let k = match self.focused_window() {
            Some(f) => match self.clients.get_stack_for_client(&f) {
                Some(stack) => before_last_exec(stack, f),
                None => None,
            },
            None => None,
        };
        self.focus_some(k);
    }

    /// Focuses the client below the focused one in its stack.
    fn focus_down(&mut self)
        requires
            old(self).wf(),
        ensures
            final(self).wf(),
            final(self)@ == old(self)@.focus_down(),
            final(self).keybinds == old(self).keybinds,
            final(self).config == old(self).config,
            final(self).move_resize_window == old(self).move_resize_window,
    {
        proof {
            reveal(WmModel::focus_down);
        }
        let k = match self.focused_window() {
            Some(f) => match self.clients.get_stack_for_client(&f) {
                Some(stack) => after_first_exec(stack, f),
                None => None,
            },
            None => None,
        };
        self.focus_some(k);
    }

    fn move_focus(&mut self, dir: Direction)
        requires
            old(self).wf(),
        ensures
            final(self).wf(),
            final(self)@ == old(self)@.move_focus(dir),
            final(self).keybinds == old(self).keybinds,
            final(self).config == old(self).config,
            final(self).move_resize_window == old(self).move_resize_window,
    {
        match dir {
            Direction::East(_) => self.focus_aux_stack(),
            Direction::West(_) => self.focus_master_stack(),
            Direction::North(_) => self.focus_up(),
            Direction::South(_) => self.focus_down(),
        }
    }

    /// Runs `cmd` (see `WmModel::run_command`).
    fn run_command(&mut self, cmd: &Command)
        requires
            old(self).wf(),
            numbered_from_one(cmd@),
        ensures
            final(self).wf(),
            final(self)@ == old(self)@.run_command(cmd@),
            final(self).keybinds == old(self).keybinds,
            final(self).config == old(self).config,
            final(self).move_resize_window == old(self).move_resize_window,
    {
        proof {
            reveal(WmModel::run_command);
        }
        let ghost w0 = self@;
        match cmd {
            Command::Spawn(p, a) => {
                self.emit(Action::Spawn(p.clone(), copy_strings(a)));
            },
            Command::SpawnTerminal => {
                let p = self.config.terminal_command.0.clone();
                let a = copy_strings(&self.config.terminal_command.1);
                self.emit(Action::Spawn(p, a));
            },
            Command::SwitchStack => {
                match self.focused_window() {
                    Some(k) => self.clients.switch_stack_for_client(&k),
                    None => {},
                }
                self.arrange_clients();
            },
            Command::ToggleFloating => {
                match self.focused_window() {
                    Some(k) => self.clients.toggle_floating(&k),
                    None => {},
                }
                self.arrange_clients();
            },
            Command::KillClient => {
                match self.focused_window() {
                    Some(k) => self.emit(Action::KillWindow(k)),
                    None => {},
                }
            },
            Command::Quit => {
                if self.config.kill_clients_on_exit {
                    let all = self.clients.iter_all_clients();
                    let mut i: usize = 0;
                    while i < all.len()
                        invariant
                            i <= all@.len(),
                            self@ == w0.emit(
                                all@.subrange(0, i as int).map_values(|e: (u64, Client)| ActionModel::KillWindow(e.0)),
                            ),
                            self.clients == old(self).clients,
                            self.keybinds == old(self).keybinds,
                            self.config == old(self).config,
                            self.move_resize_window == old(self).move_resize_window,
                        decreases all@.len() - i,
                    {
                        let w = all[i].0;
                        self.emit(Action::KillWindow(w));
                        proof {
                            let f = |e: (u64, Client)| ActionModel::KillWindow(e.0);
                            assert(all@.subrange(0, i as int + 1).map_values(f) =~= all@.subrange(0, i as int).map_values(
                                f,
                            ).push(ActionModel::KillWindow(w)));
                            assert(self@.actions =~= w0.actions + all@.subrange(0, i as int + 1).map_values(f));
                        }
                        i = i + 1;
                    }
                    proof {
                        assert(all@.subrange(0, i as int) =~= all@);
                    }
                }
                let ghost w1 = self@;
                self.emit(Action::Exit);
                proof {
                    assert(self@.actions =~= w0.actions + (if w0.kill_on_exit {
                        (w0.clients.floating + w0.clients.tiled).map_values(|e: (u64, Client)| ActionModel::KillWindow(e.0))
                    } else {
                        Seq::empty()
                    } + seq![ActionModel::Exit]));
                }
            },
            Command::MoveFocus(d) => {
                self.move_focus(*d);
            },
            Command::ChangeMasterSize(d) => {
                self.clients.change_master_size(*d);
                self.arrange_clients();
            },
            Command::RotateVirtualScreen(d) => {
                match d {
                    Direction::West(n) => self.clients.rotate_left(*n),
                    Direction::East(n) => self.clients.rotate_right(*n),
                    _ => {},
                }
                self.arrange_clients();
            },
            Command::RotateVirtualScreenBack => {
                self.clients.rotate_back();
                self.arrange_clients();
            },
            Command::GoToNthVirtualScreen(n) => {
                self.clients.go_to_nth_virtualscreen(*n - 1);
                self.arrange_clients();
            },
        }
    }
}

impl WmModel {
    /// The result of running, in order, the commands of the first `n` bindings of `kbs`
    /// whose key and modifiers are exactly those of `ev`.
    pub open spec fn run_keybinds(self, kbs: Seq<KeyBindingModel>, ev: KeyEvent<u64>, n: int) -> WmModel
        decreases n,
    {
        if n <= 0 {
            self
        } else {
            let w = self.run_keybinds(kbs, ev, n - 1);
            if kbs[n - 1].key.key == ev.keycode && kbs[n - 1].key.modifiers == ev.modifierstate {
                w.run_command(kbs[n - 1].command)
            } else {
                w
            }
        }
    }
}

impl WindowManager {
    /// Runs the command of every binding whose key and modifiers are those of `event`.
    fn handle_keybinds(&mut self, event: &KeyEvent<u64>)
        requires
            old(self).wf(),
        ensures
            final(self).wf(),
            final(self)@ == old(self)@.run_keybinds(old(self)@.keybinds, *event, old(self)@.keybinds.len() as int),
            final(self).keybinds == old(self).keybinds,
            final(self).config == old(self).config,
            final(self).move_resize_window == old(self).move_resize_window,
    {
        let ghost w0 = self@;
        let mut i: usize = 0;
        while i < self.keybinds.len()
            invariant
                self.wf(),
                i <= self.keybinds@.len(),
                self.keybinds == old(self).keybinds,
                self.config == old(self).config,
                self.move_resize_window == old(self).move_resize_window,
                w0 == old(self)@,
                self@ == w0.run_keybinds(w0.keybinds, *event, i as int),
            decreases self.keybinds@.len() - i,
        {
            let key = self.keybinds[i].key;
            if key.key == event.keycode && key.modifiers == event.modifierstate {
                let cmd = self.keybinds[i].command.duplicate();
                proof {
                    assert(w0.keybinds[i as int] == self.keybinds@[i as int]@);
                    assert(numbered_from_one(w0.keybinds[i as int].command));
                }
                self.run_command(&cmd);
            }
            i = i + 1;
        }
    }
}

// ---------------------------------------------------------------------------
// Events.
// ---------------------------------------------------------------------------

/// The client made for a new window: a normal window gets the default client; any other
/// keeps its type, its size (100x100 if unknown) and the window it is transient for.
pub open spec fn client_for(window: u64, info: WindowInfo) -> Client {
    if info.window_type == WindowType::Normal {
        default_client(window)
    } else {
        Client {
            window_type: info.window_type,
            size: match info.size {
                Some(s) => s,
                None => Size { width: 100, height: 100 },
            },
            parent_window: info.parent,
            ..default_client(window)
        }
    }
}

/// The modifier state of the modifier key alone.
pub open spec fn mod_only(m: ModifierKey) -> ModifierState {
    ModifierState { bits: 0 }.with_mod_spec(m)
}

/// The position a dragged window moves to.
pub open spec fn dragged_position(info: MoveInfoInner, cursor: Point) -> Point {
    Point {
        x: (info.starting_window_pos.x + (cursor.x - info.starting_cursor_pos.x)) as i32,
        y: (info.starting_window_pos.y + (cursor.y - info.starting_cursor_pos.y)) as i32,
    }
}

/// The size a window being resized takes: at least one pixel each way.
pub open spec fn dragged_size(info: ResizeInfoInner, cursor: Point) -> Size {
    let w = info.starting_window_size.width + (cursor.x - info.starting_cursor_pos.x);
    let h = info.starting_window_size.height + (cursor.y - info.starting_cursor_pos.y);
    Size { width: (if w < 1 { 1 } else { w }) as i32, height: (if h < 1 { 1 } else { h }) as i32 }
}

/// The bottom right corner of a client.
pub open spec fn corner_of(c: Client) -> Point {
    Point { x: (c.position.x + c.size.width) as i32, y: (c.position.y + c.size.height) as i32 }
}

impl WmModel {
    /// Manages `window`: a client is made for it, its border set, it is added and laid out,
    /// and it gets the focus.
    pub open spec fn new_client(self, window: u64, info: WindowInfo) -> WmModel {
        let c = client_for(window, info);
        self.emit(
            seq![ActionModel::ConfigureWindow { window, size: None, position: None, border: Some(self.clients.border as i32) }],
        ).with_clients(self.clients.inserted(c)).arrange_clients().focus_client(window, true)
    }

    /// `window` can be managed: it is not yet, there is room for it, and placing it stays
    /// within `i32`.
    pub open spec fn can_manage(self, window: u64, info: WindowInfo) -> bool {
        let c = client_for(window, info);
        &&& !self.clients.contains(window)
        &&& self.clients.tiled.len() + self.clients.floating.len() < MAX_CLIENTS
        &&& self.clients.insert_fits(c)
    }

    /// A drag starts on a managed client that is not fullscreen: it floats (the layout is
    /// shown again if it was tiled), and the left button moves it while the middle button
    /// resizes it from its bottom right corner, where the pointer is put and held.
    pub open spec fn start_move_resize(self, ev: ButtonEvent<u64>) -> WmModel {
        let window = ev.window;
        let c = self.clients;
        if c.entry(window).option() matches Some(cl) && cl.fullscreen {
            self
        } else {
            let w1 = if c.is_tiled(window) {
                self.with_clients(c.floated(window)).arrange_clients()
            } else {
                self
            };
            let client = w1.clients.client_of(window);
            match ev.keycode {
                MouseButton::Left => WmModel {
                    move_resize: MoveResizeInfo::Move(
                        MoveInfoInner {
                            window,
                            starting_cursor_pos: ev.cursor_position,
                            starting_window_pos: client.position,
                        },
                    ),
                    ..w1
                },
                MouseButton::Middle => WmModel {
                    move_resize: MoveResizeInfo::Resize(
                        ResizeInfoInner { window, starting_cursor_pos: corner_of(client), starting_window_size: client.size },
                    ),
                    ..w1.emit(seq![ActionModel::MoveCursor(None, corner_of(client)), ActionModel::GrabCursor])
                },
                _ => self,
            }
        }
    }

    /// A drag ends: the left button ends a move, the middle button a resize (and lets the
    /// pointer go).
    pub open spec fn end_move_resize(self, ev: ButtonEvent<u64>) -> WmModel {
        match ev.keycode {
            MouseButton::Left => WmModel { move_resize: MoveResizeInfo::Idle, ..self },
            MouseButton::Middle => WmModel { move_resize: MoveResizeInfo::Idle, ..self.emit(seq![ActionModel::UngrabCursor]) },
            _ => self,
        }
    }

    /// The pointer moved: a dragged client follows it.
    pub open spec fn do_move_resize(self, ev: MotionEvent<u64>) -> WmModel {
        let c = self.clients;
        match self.move_resize {
            MoveResizeInfo::Move(info) => if c.contains(info.window) {
                let p = dragged_position(info, ev.position);
                let cl = c.client_of(info.window);
                self.with_clients(c.with_client(info.window, Client { position: p, ..cl })).emit(
                    seq![ActionModel::MoveWindow(cl.window, p)],
                )
            } else {
                self
            },
            MoveResizeInfo::Resize(info) => if c.contains(info.window) {
                let s = dragged_size(info, ev.position);
                let cl = c.client_of(info.window);
                self.with_clients(c.with_client(info.window, Client { size: s, ..cl })).emit(
                    seq![ActionModel::ResizeWindow(cl.window, s)],
                )
            } else {
                self
            },
            MoveResizeInfo::Idle => self,
        }
    }

    /// A pointer button: a press focuses (and raises) the client under the pointer, then
    /// with the modifier key alone the left or middle button starts a drag, and the right
    /// button switches the client between tiled and floating; a release ends a drag.
    pub open spec fn button_event(self, ev: ButtonEvent<u64>) -> WmModel {
        match ev.state {
            KeyState::Pressed => {
                let w1 = self.focus_client(ev.window, true);
                match ev.keycode {
                    MouseButton::Left | MouseButton::Middle => if w1.move_resize == MoveResizeInfo::Idle
                        && ev.modifierstate == mod_only(self.mod_key) && w1.clients.contains(ev.window) {
                        w1.start_move_resize(ev)
                    } else {
                        w1
                    },
                    MouseButton::Right => w1.with_clients(w1.clients.floating_toggled(ev.window)).arrange_clients(),
                    _ => w1,
                }
            },
            KeyState::Released => if self.move_resize == MoveResizeInfo::Idle {
                self
            } else {
                self.end_move_resize(ev)
            },
        }
    }

    /// The handling of one event.
    pub open spec fn handle_event(self, event: WindowEvent<u64>) -> WmModel {
        let c = self.clients;
        match event {
            WindowEvent::KeyEvent(e) => if e.state == KeyState::Pressed {
                self.run_keybinds(self.keybinds, e, self.keybinds.len() as int)
            } else {
                self
            },
            WindowEvent::ButtonEvent(e) => self.button_event(e),
            WindowEvent::MapRequestEvent(e) => {
                let w1 = self.emit(seq![ActionModel::ForwardEvent(event)]);
                if c.contains(e.window) {
                    w1
                } else {
                    w1.emit(seq![ActionModel::ManageWindow(e.window)])
                }
            },
            WindowEvent::UnmapEvent(e) => self.with_clients(c.removed(e.window)).arrange_clients(),
            WindowEvent::EnterEvent(e) => self.focus_client(e.window, false),
            WindowEvent::MotionEvent(e) => self.do_move_resize(e),
            WindowEvent::ConfigureEvent(e) => match c.entry(e.window).option() {
                Some(cl) => self.emit(
                    seq![
                        ActionModel::ConfigureWindow {
                            window: e.window,
                            size: Some(cl.size),
                            position: Some(cl.position),
                            border: None,
                        },
                    ],
                ),
                None => self.emit(seq![ActionModel::ForwardEvent(event)]),
            },
            WindowEvent::FullscreenEvent(e) => {
                let k = e.window;
                let changed = match e.state {
                    FullscreenState::On => c.contains(k) && c.client_of(k).fullscreen != true,
                    FullscreenState::Off => c.contains(k) && c.client_of(k).fullscreen != false,
                    FullscreenState::Toggle => c.contains(k),
                };
                if changed {
                    let c2 = c.fullscreen_toggled(k);
                    let w1 = self.with_clients(c2);
                    let w2 = match c2.entry(k).option() {
                        Some(cl) => w1.emit(
                            seq![
                                ActionModel::ConfigureWindow {
                                    window: k,
                                    size: None,
                                    position: None,
                                    border: Some(if cl.fullscreen { 0i32 } else { c2.border as i32 }),
                                },
                            ],
                        ),
                        None => w1,
                    };
                    w2.arrange_clients()
                } else {
                    self
                }
            },
            _ => self,
        }
    }

    /// The event can be handled without leaving `i32`: a drag keeps the pointer offset and
    /// the dragged client's position or size within it, and a resize starts from a corner
    /// within it.
    pub open spec fn accepts(self, event: WindowEvent<u64>) -> bool {
        let c = self.clients;
        match event {
            WindowEvent::MotionEvent(e) => match self.move_resize {
                MoveResizeInfo::Move(info) => {
                    &&& fits_i32(e.position.x - info.starting_cursor_pos.x)
                    &&& fits_i32(e.position.y - info.starting_cursor_pos.y)
                    &&& c.contains(info.window) ==> fits_i32(
                        info.starting_window_pos.x + (e.position.x - info.starting_cursor_pos.x),
                    ) && fits_i32(info.starting_window_pos.y + (e.position.y - info.starting_cursor_pos.y))
                },
                MoveResizeInfo::Resize(info) => {
                    &&& fits_i32(e.position.x - info.starting_cursor_pos.x)
                    &&& fits_i32(e.position.y - info.starting_cursor_pos.y)
                    &&& c.contains(info.window) ==> fits_i32(
                        info.starting_window_size.width + (e.position.x - info.starting_cursor_pos.x),
                    ) && fits_i32(info.starting_window_size.height + (e.position.y - info.starting_cursor_pos.y))
                },
                MoveResizeInfo::Idle => true,
            },
            WindowEvent::ButtonEvent(e) => (e.state == KeyState::Pressed && e.keycode == MouseButton::Middle
                && self.move_resize == MoveResizeInfo::Idle && e.modifierstate == mod_only(self.mod_key) && c.contains(
                e.window,
            )) ==> fits_i32(c.client_of(e.window).position.x + c.client_of(e.window).size.width) && fits_i32(
                c.client_of(e.window).position.y + c.client_of(e.window).size.height,
            ),
            _ => true,
        }
    }
}

/// Showing the layout changes no client but the focus.
pub proof fn lemma_arrange_keeps_clients(w: WmModel)
    ensures
        w.arrange_clients().clients == (ClientsModel { focused: w.arrange_clients().clients.focused, ..w.clients }),
        w.arrange_clients().move_resize == w.move_resize,
        w.arrange_clients().keybinds == w.keybinds,
        w.arrange_clients().mod_key == w.mod_key,
{
    reveal(WmModel::arrange_clients);
    reveal(WmModel::focus_any);
    reveal(WmModel::focus_client);
}

/// Focusing changes no client but the focus.
pub proof fn lemma_focus_keeps_clients(w: WmModel, k: u64, try_raise: bool)
    ensures
        w.focus_client(k, try_raise).clients == (ClientsModel { focused: w.focus_client(k, try_raise).clients.focused, ..w.clients }),
        w.focus_client(k, try_raise).move_resize == w.move_resize,
        w.focus_client(k, try_raise).keybinds == w.keybinds,
        w.focus_client(k, try_raise).mod_key == w.mod_key,
{
    reveal(WmModel::focus_client);
}

impl WindowManager {
    /// Starts a drag (see `WmModel::start_move_resize`).
    fn start_move_resize_window(&mut self, event: &ButtonEvent<u64>)
        requires
            old(self).wf(),
            old(self)@.clients.contains(event.window),
            event.keycode == MouseButton::Middle ==> fits_i32(
                old(self)@.clients.client_of(event.window).position.x + old(self)@.clients.client_of(event.window).size.width,
            ) && fits_i32(
                old(self)@.clients.client_of(event.window).position.y + old(self)@.clients.client_of(event.window).size.height,
            ),
        ensures
            final(self).wf(),
            final(self)@ == old(self)@.start_move_resize(*event),
            final(self).keybinds == old(self).keybinds,
            final(self).config == old(self).config,
    {
        let ghost w0 = self@;
        let window = event.window;
        if !self.clients.get(&window).is_fullscreen() {
            match event.keycode {
                MouseButton::Left => {
                    let ghost c0 = self@.clients;
                    if self.clients.set_floating(&window) {
                        proof {
                            crate::clients::laws::lemma_float_keeps_client(c0, window);
                            lemma_arrange_keeps_clients(self@);
                        }
                        self.arrange_clients();
                    }
                    let position = match self.clients.get(&window).into_option() {
                        Some(c) => c.position,
                        None => {
                            proof {
                                assert(false);
                            }
                            Point::zero()
                        },
                    };
                    self.move_resize_window = MoveResizeInfo::Move(
                        MoveInfoInner { window, starting_cursor_pos: event.cursor_position, starting_window_pos: position },
                    );
                },
                MouseButton::Middle => {
                    let ghost c0 = self@.clients;
                    if self.clients.set_floating(&window) {
                        proof {
                            crate::clients::laws::lemma_float_keeps_client(c0, window);
                            lemma_arrange_keeps_clients(self@);
                        }
                        self.arrange_clients();
                    }
                    let (position, size) = match self.clients.get(&window).into_option() {
                        Some(c) => (c.position, c.size),
                        None => {
                            proof {
                                assert(false);
                            }
                            (Point::zero(), Size::zero())
                        },
                    };
                    let corner = Point::new(position.x + size.width, position.y + size.height);
                    let ghost w1 = self@;
                    self.emit(Action::MoveCursor(None, corner));
                    self.emit(Action::GrabCursor);
                    proof {
                        assert(self@.actions =~= w1.actions + seq![ActionModel::MoveCursor(None, corner), ActionModel::GrabCursor]);
                    }
                    self.move_resize_window = MoveResizeInfo::Resize(
                        ResizeInfoInner { window, starting_cursor_pos: corner, starting_window_size: size },
                    );
                },
                _ => {},
            }
        }
    }

    /// Ends a drag (see `WmModel::end_move_resize`).
    fn end_move_resize_window(&mut self, event: &ButtonEvent<u64>)
        requires
            old(self).wf(),
        ensures
            final(self).wf(),
            final(self)@ == old(self)@.end_move_resize(*event),
            final(self).keybinds == old(self).keybinds,
            final(self).config == old(self).config,
    {
        match event.keycode {
            MouseButton::Left => {
                self.move_resize_window = MoveResizeInfo::Idle;
            },
            MouseButton::Middle => {
                self.move_resize_window = MoveResizeInfo::Idle;
                self.emit(Action::UngrabCursor);
            },
            _ => {},
        }
    }

    /// Follows the pointer with a dragged client (see `WmModel::do_move_resize`).
    fn do_move_resize_window(&mut self, event: &MotionEvent<u64>)
        requires
            old(self).wf(),
            old(self)@.accepts(WindowEvent::MotionEvent(*event)),
        ensures
            final(self).wf(),
            final(self)@ == old(self)@.do_move_resize(*event),
            final(self).keybinds == old(self).keybinds,
            final(self).config == old(self).config,
    {
        match self.move_resize_window {
            MoveResizeInfo::Move(info) => {
                let x = event.position.x - info.starting_cursor_pos.x;
                let y = event.position.y - info.starting_cursor_pos.y;
                let found = match self.clients.get(&info.window).into_option() {
                    Some(c) => Some(c.window),
                    None => None,
                };
                match found {
                    Some(w) => {
                        let p = Point::new(info.starting_window_pos.x + x, info.starting_window_pos.y + y);
                        self.clients.set_position(&info.window, p);
                        self.emit(Action::MoveWindow(w, p));
                    },
                    None => {},
                }
            },
            MoveResizeInfo::Resize(info) => {
                let x = event.position.x - info.starting_cursor_pos.x;
                let y = event.position.y - info.starting_cursor_pos.y;
                let found = match self.clients.get(&info.window).into_option() {
                    Some(c) => Some(c.window),
                    None => None,
                };
                match found {
                    Some(w) => {
                        let width = info.starting_window_size.width + x;
                        let height = info.starting_window_size.height + y;
                        let s = Size::new(if width < 1 { 1 } else { width }, if height < 1 { 1 } else { height });
                        self.clients.set_size(&info.window, s);
                        self.emit(Action::ResizeWindow(w, s));
                    },
                    None => {},
                }
            },
            MoveResizeInfo::Idle => {},
        }
    }

    /// Handles a pointer button (see `WmModel::button_event`).
    fn button_event(&mut self, event: &ButtonEvent<u64>)
        requires
            old(self).wf(),
            old(self)@.accepts(WindowEvent::ButtonEvent(*event)),
        ensures
            final(self).wf(),
            final(self)@ == old(self)@.button_event(*event),
            final(self).keybinds == old(self).keybinds,
            final(self).config == old(self).config,
    {
        let ghost w0 = self@;
        match event.state {
            KeyState::Pressed => {
                self.focus_client(event.window, true);
                proof {
                    lemma_focus_keeps_clients(w0, event.window, true);
                }
                match event.keycode {
                    MouseButton::Left | MouseButton::Middle => {
                        let idle = self.move_resize_window == MoveResizeInfo::Idle;
                        let mods = ModifierState::empty().with_mod(self.config.mod_key);
                        if idle && mods == event.modifierstate && self.clients.contains(&event.window) {
                            self.start_move_resize_window(event);
                        }
                    },
                    MouseButton::Right => {
                        self.clients.toggle_floating(&event.window);
                        self.arrange_clients();
                    },
                    _ => {},
                }
            },
            KeyState::Released => {
                if self.move_resize_window != MoveResizeInfo::Idle {
                    self.end_move_resize_window(event);
                }
            },
        }
    }
}

impl WindowManager {
    /// Handles one event from the window server (see `WmModel::handle_event`); the
    /// requests it leads to are queued.
    pub fn handle_event(&mut self, event: WindowEvent<u64>)
        requires
            old(self).wf(),
            old(self)@.accepts(event),
        ensures
            final(self).wf(),
            final(self)@ == old(self)@.handle_event(event),
    {
        let ghost w0 = self@;
        match event {
            WindowEvent::KeyEvent(e) => {
                if e.state == KeyState::Pressed {
                    self.handle_keybinds(&e);
                }
            },
            WindowEvent::ButtonEvent(e) => {
                self.button_event(&e);
            },
            WindowEvent::MapRequestEvent(e) => {
                let window = e.window;
                self.emit(Action::ForwardEvent(WindowEvent::MapRequestEvent(e)));
                if !self.clients.contains(&window) {
                    self.emit(Action::ManageWindow(window));
                }
            },
            WindowEvent::UnmapEvent(e) => {
                self.clients.remove(&e.window);
                self.arrange_clients();
            },
            WindowEvent::EnterEvent(e) => {
                self.focus_client(e.window, false);
            },
            WindowEvent::MotionEvent(e) => {
                self.do_move_resize_window(&e);
            },
            WindowEvent::ConfigureEvent(e) => {
                let window = e.window;
                let found = match self.clients.get(&window).into_option() {
                    Some(c) => Some((c.size, c.position)),
                    None => None,
                };
                match found {
                    Some((size, position)) => {
                        self.emit(Action::ConfigureWindow { window, size: Some(size), position: Some(position), border: None });
                    },
                    None => {
                        self.emit(Action::ForwardEvent(WindowEvent::ConfigureEvent(e)));
                    },
                }
            },
            WindowEvent::FullscreenEvent(e) => {
                let window = e.window;
                let changed = match e.state {
                    FullscreenState::On => self.clients.set_fullscreen(&window, true),
                    FullscreenState::Off => self.clients.set_fullscreen(&window, false),
                    FullscreenState::Toggle => self.clients.toggle_fullscreen(&window),
                };
                if changed {
                    let found = match self.clients.get(&window).into_option() {
                        Some(c) => Some(c.is_fullscreen()),
                        None => None,
                    };
                    match found {
                        Some(fullscreen) => {
                            let border = if fullscreen { 0 } else { self.clients.get_border() };
                            self.emit(Action::ConfigureWindow { window, size: None, position: None, border: Some(border) });
                        },
                        None => {},
                    }
                    self.arrange_clients();
                }
            },
            _ => {},
        }
    }

    /// The event can be handled without leaving `i32` (see `WmModel::accepts`).
    pub fn accepts(&self, event: &WindowEvent<u64>) -> (r: bool)
        requires
            self.wf(),
        ensures
            r == self@.accepts(*event),
    {
        let lo = i32::MIN as i64;
        let hi = i32::MAX as i64;
        match event {
            WindowEvent::MotionEvent(e) => match self.move_resize_window {
                MoveResizeInfo::Move(info) => {
                    let x = e.position.x as i64 - info.starting_cursor_pos.x as i64;
                    let y = e.position.y as i64 - info.starting_cursor_pos.y as i64;
                    let offsets = lo <= x && x <= hi && lo <= y && y <= hi;
                    if !offsets {
                        return false;
                    }
                    if self.clients.contains(&info.window) {
                        let px = info.starting_window_pos.x as i64 + x;
                        let py = info.starting_window_pos.y as i64 + y;
                        lo <= px && px <= hi && lo <= py && py <= hi
                    } else {
                        true
                    }
                },
                MoveResizeInfo::Resize(info) => {
                    let x = e.position.x as i64 - info.starting_cursor_pos.x as i64;
                    let y = e.position.y as i64 - info.starting_cursor_pos.y as i64;
                    let offsets = lo <= x && x <= hi && lo <= y && y <= hi;
                    if !offsets {
                        return false;
                    }
                    if self.clients.contains(&info.window) {
                        let w = info.starting_window_size.width as i64 + x;
                        let h = info.starting_window_size.height as i64 + y;
                        lo <= w && w <= hi && lo <= h && h <= hi
                    } else {
                        true
                    }
                },
                MoveResizeInfo::Idle => true,
            },
            WindowEvent::ButtonEvent(e) => {
                let starts_resize = e.state == KeyState::Pressed && e.keycode == MouseButton::Middle
                    && self.move_resize_window == MoveResizeInfo::Idle && e.modifierstate == ModifierState::empty().with_mod(
                    self.config.mod_key,
                ) && self.clients.contains(&e.window);
                if !starts_resize {
                    return true;
                }
                match self.clients.get(&e.window).into_option() {
                    Some(c) => {
                        let x = c.position.x as i64 + c.size.width as i64;
                        let y = c.position.y as i64 + c.size.height as i64;
                        lo <= x && x <= hi && lo <= y && y <= hi
                    },
                    None => true,
                }
            },
            _ => true,
        }
    }

    /// Whether `window` can be managed (see `WmModel::can_manage`).
    pub fn can_manage(&self, window: u64, info: WindowInfo) -> (r: bool)
        requires
            self.wf(),
        ensures
            r == self@.can_manage(window, info),
    {
        let client = Self::make_client(window, info);
        self.clients.can_insert(&client)
    }

    /// The client made for a new window (see `client_for`).
    fn make_client(window: u64, info: WindowInfo) -> (r: Client)
        ensures
            r == client_for(window, info),
    {
        match info.window_type {
            WindowType::Normal => Client::new_default(window),
            window_type => {
                let size = match info.size {
                    Some(s) => s,
                    None => Size::new(100, 100),
                };
                Client::new_default(window).with_window_type(window_type).with_size(size).with_parent_window(info.parent)
            },
        }
    }

    /// Manages a new window (see `WmModel::new_client`).
    pub fn new_client(&mut self, window: u64, info: WindowInfo)
        requires
            old(self).wf(),
            old(self)@.can_manage(window, info),
        ensures
            final(self).wf(),
            final(self)@ == old(self)@.new_client(window, info),
    {
        let client = Self::make_client(window, info);
        let border = self.clients.get_border();
        self.emit(Action::ConfigureWindow { window, size: None, position: None, border: Some(border) });
        let _ = self.clients.insert(client);
        self.arrange_clients();
        self.focus_client(window, true);
    }

    pub fn contains(&self, window: u64) -> (r: bool)
        ensures
            r == self@.clients.contains(window),
    {
        self.clients.contains(&window)
    }
}

// ---------------------------------------------------------------------------
// Start-up.
// ---------------------------------------------------------------------------

/// The arguments the application launcher is started with.
pub open spec fn dmenu_args() -> Seq<Seq<char>> {
    seq![
        "-m"@,
        "0"@,
        "-fn"@,
        "'New York:size=13'"@,
        "-nb"@,
        "#222222"@,
        "-nf"@,
        "#bbbbbb"@,
        "-sb"@,
        "#dddddd"@,
        "-sf"@,
        "#eeeeee"@,
    ]
}

/// A binding of `key` with modifier `m` (and Shift if `shift`) to `command`.
pub open spec fn binding(key: VirtualKeyCode, m: ModifierKey, shift: bool, command: CommandModel) -> KeyBindingModel {
    KeyBindingModel {
        key: KeyBind {
            key,
            modifiers: if shift { mod_only(m).with_mod_spec(ModifierKey::Shift) } else { mod_only(m) },
        },
        command,
    }
}

/// The bindings the window manager starts with, for modifier key `m`.
pub open spec fn default_keybinds(m: ModifierKey) -> Seq<KeyBindingModel> {
    seq![
        binding(VirtualKeyCode::P, m, false, CommandModel::Spawn("dmenu_run"@, dmenu_args())),
        binding(VirtualKeyCode::M, m, false, CommandModel::SwitchStack),
        binding(VirtualKeyCode::F, m, false, CommandModel::ToggleFloating),
        binding(VirtualKeyCode::Q, m, false, CommandModel::KillClient),
        binding(VirtualKeyCode::Q, m, true, CommandModel::Quit),
        binding(VirtualKeyCode::T, m, true, CommandModel::SpawnTerminal),
        binding(VirtualKeyCode::Return, m, true, CommandModel::SpawnTerminal),
        binding(VirtualKeyCode::J, m, false, CommandModel::MoveFocus(Direction::South(1))),
        binding(VirtualKeyCode::K, m, false, CommandModel::MoveFocus(Direction::North(1))),
        binding(VirtualKeyCode::H, m, false, CommandModel::MoveFocus(Direction::West(1))),
        binding(VirtualKeyCode::L, m, false, CommandModel::MoveFocus(Direction::East(1))),
        binding(VirtualKeyCode::K, m, true, CommandModel::ChangeMasterSize(100i32)),
        binding(VirtualKeyCode::J, m, true, CommandModel::ChangeMasterSize(-100i32)),
    ] + vs_switch_keybinds(m)
}

/// The bindings that change virtual screens, for modifier key `m`.
pub open spec fn vs_switch_keybinds(m: ModifierKey) -> Seq<KeyBindingModel> {
    seq![
        binding(VirtualKeyCode::Left, m, false, CommandModel::RotateVirtualScreen(Direction::West(1))),
        binding(VirtualKeyCode::H, m, true, CommandModel::RotateVirtualScreen(Direction::West(1))),
        binding(VirtualKeyCode::Right, m, false, CommandModel::RotateVirtualScreen(Direction::East(1))),
        binding(VirtualKeyCode::L, m, true, CommandModel::RotateVirtualScreen(Direction::East(1))),
        binding(VirtualKeyCode::Tab, m, false, CommandModel::RotateVirtualScreenBack),
        binding(VirtualKeyCode::One, m, false, CommandModel::GoToNthVirtualScreen(1)),
        binding(VirtualKeyCode::Two, m, false, CommandModel::GoToNthVirtualScreen(2)),
        binding(VirtualKeyCode::Three, m, false, CommandModel::GoToNthVirtualScreen(3)),
        binding(VirtualKeyCode::Four, m, false, CommandModel::GoToNthVirtualScreen(4)),
        binding(VirtualKeyCode::Five, m, false, CommandModel::GoToNthVirtualScreen(5)),
        binding(VirtualKeyCode::Six, m, false, CommandModel::GoToNthVirtualScreen(6)),
        binding(VirtualKeyCode::Seven, m, false, CommandModel::GoToNthVirtualScreen(7)),
        binding(VirtualKeyCode::Eight, m, false, CommandModel::GoToNthVirtualScreen(8)),
        binding(VirtualKeyCode::Nine, m, false, CommandModel::GoToNthVirtualScreen(9)),
        binding(VirtualKeyCode::Zero, m, false, CommandModel::GoToNthVirtualScreen(10)),
    ]
}

/// The grab request of a key binding.
pub open spec fn grab_of(kb: KeyBindingModel) -> ActionModel {
    ActionModel::AddKeybind(KeyOrMouseBind { key: KeyOrButton::Key(kb.key.key), modifiers: kb.key.modifiers })
}

/// The grab request of pointer button `b` with modifier `m`.
pub open spec fn button_grab(b: MouseButton, m: ModifierKey) -> ActionModel {
    ActionModel::AddKeybind(KeyOrMouseBind { key: KeyOrButton::Button(b), modifiers: mod_only(m) })
}

impl WindowManager {
    /// Binds `key` to `command` and asks for the key to be grabbed.
    fn add_keybind(&mut self, key: KeyBind, command: Command)
        requires
            old(self).wf(),
            numbered_from_one(command@),
        ensures
            final(self).wf(),
            final(self)@ == (WmModel {
                keybinds: old(self)@.keybinds.push(KeyBindingModel { key, command: command@ }),
                ..old(self)@.emit(
                    seq![ActionModel::AddKeybind(KeyOrMouseBind { key: KeyOrButton::Key(key.key), modifiers: key.modifiers })],
                )
            }),
            final(self).config == old(self).config,
    {
        let binding = KeyBinding::new(key, command);
        self.emit(Action::AddKeybind(KeyOrMouseBind::from_keybind(&binding.key)));
        let ghost k0 = self.keybinds@;
        self.keybinds.push(binding);
        proof {
            assert(self.keybinds@.map_values(|k: KeyBinding| k@) =~= k0.map_values(|k: KeyBinding| k@).push(
                KeyBindingModel { key, command: command@ },
            ));
            assert forall|i: int| 0 <= i < self@.keybinds.len() implies numbered_from_one(
                #[trigger] self@.keybinds[i].command,
            ) by {
                if i < k0.len() {
                    assert(self@.keybinds[i] == old(self)@.keybinds[i]);
                }
            }
        }
    }

    fn bind(&mut self, key: VirtualKeyCode, shift: bool, command: Command)
        requires
            old(self).wf(),
            numbered_from_one(command@),
        ensures
            final(self).wf(),
            final(self)@ == (WmModel {
                keybinds: old(self)@.keybinds.push(binding(key, old(self).config.mod_key, shift, command@)),
                ..old(self)@.emit(seq![grab_of(binding(key, old(self).config.mod_key, shift, command@))])
            }),
            final(self).config == old(self).config,
    {
        let kb = KeyBind::new(key).with_mod(self.config.mod_key);
        let kb = if shift { kb.with_mod(ModifierKey::Shift) } else { kb };
        self.add_keybind(kb, command);
    }

    /// Binds the keys that change virtual screens.
    fn add_vs_switch_keybinds(&mut self)
        requires
            old(self).wf(),
        ensures
            final(self).wf(),
            final(self)@ == (WmModel {
                keybinds: old(self)@.keybinds + vs_switch_keybinds(old(self).config.mod_key),
                ..old(self)@.emit(vs_switch_keybinds(old(self).config.mod_key).map_values(|kb: KeyBindingModel| grab_of(kb)))
            }),
            final(self).config == old(self).config,
    {
        let ghost w0 = self@;
        let ghost m = self.config.mod_key;
        self.bind(VirtualKeyCode::Left, false, Command::RotateVirtualScreen(Direction::West(1)));
        self.bind(VirtualKeyCode::H, true, Command::RotateVirtualScreen(Direction::West(1)));
        self.bind(VirtualKeyCode::Right, false, Command::RotateVirtualScreen(Direction::East(1)));
        self.bind(VirtualKeyCode::L, true, Command::RotateVirtualScreen(Direction::East(1)));
        self.bind(VirtualKeyCode::Tab, false, Command::RotateVirtualScreenBack);
        self.bind(VirtualKeyCode::One, false, Command::GoToNthVirtualScreen(1));
        self.bind(VirtualKeyCode::Two, false, Command::GoToNthVirtualScreen(2));
        self.bind(VirtualKeyCode::Three, false, Command::GoToNthVirtualScreen(3));
        self.bind(VirtualKeyCode::Four, false, Command::GoToNthVirtualScreen(4));
        self.bind(VirtualKeyCode::Five, false, Command::GoToNthVirtualScreen(5));
        self.bind(VirtualKeyCode::Six, false, Command::GoToNthVirtualScreen(6));
        self.bind(VirtualKeyCode::Seven, false, Command::GoToNthVirtualScreen(7));
        self.bind(VirtualKeyCode::Eight, false, Command::GoToNthVirtualScreen(8));
        self.bind(VirtualKeyCode::Nine, false, Command::GoToNthVirtualScreen(9));
        self.bind(VirtualKeyCode::Zero, false, Command::GoToNthVirtualScreen(10));
        proof {
            assert(self@.keybinds =~= w0.keybinds + vs_switch_keybinds(m));
            assert(self@.actions =~= w0.actions + vs_switch_keybinds(m).map_values(|kb: KeyBindingModel| grab_of(kb)));
        }
    }
}

/// The requests made at start-up for modifier key `m`: grabs of the left, middle and
/// right buttons and of every default binding, then the two border colours.
pub open spec fn init_actions(m: ModifierKey, active: Seq<char>, inactive: Seq<char>) -> Seq<ActionModel> {
    seq![button_grab(MouseButton::Left, m), button_grab(MouseButton::Middle, m), button_grab(MouseButton::Right, m)]
        + default_keybinds(m).map_values(|kb: KeyBindingModel| grab_of(kb)) + seq![
        ActionModel::SetActiveBorderColor(active),
        ActionModel::SetInactiveBorderColor(inactive),
    ]
}

impl WindowManager {
    /// A window manager for a screen of `screen_size` with the settings of `config`: no
    /// clients yet, `num_virtualscreens` empty virtual screens, the gap and border of the
    /// configuration (one pixel each if not set), the default bindings, and the start-up
    /// requests queued. The windows that already exist are handed over afterwards, each
    /// through `new_client`.
    pub fn new(config: WMConfig, screen_size: Size) -> (r: Self)
        requires
            config.wf(),
            -COORD_LIMIT <= screen_size.width <= COORD_LIMIT,
            -COORD_LIMIT <= screen_size.height <= COORD_LIMIT,
        ensures
            r.wf(),
            r@.clients.tiled.len() == 0,
            r@.clients.floating.len() == 0,
            r@.clients.focused is None,
            r@.clients.screens.len() == config.num_virtualscreens,
            forall|i: int|
                0 <= i < config.num_virtualscreens ==> (#[trigger] r@.clients.screens[i]).master.len() == 0
                    && r@.clients.screens[i].aux.len() == 0,
            r@.clients.current == 0,
            r@.clients.last is None,
            r@.clients.gap == match config.gap {
                Some(g) => g,
                None => 1i32,
            },
            r@.clients.border == match config.border_width {
                Some(b) => b,
                None => 1i32,
            },
            r@.clients.screen_size == screen_size,
            r@.clients.master_ratio == 1000,
            r@.move_resize == MoveResizeInfo::Idle,
            r@.keybinds == default_keybinds(config.mod_key),
            r@.mod_key == config.mod_key,
            r@.kill_on_exit == config.kill_clients_on_exit,
            r@.terminal == (config.terminal_command.0@, strings_view(config.terminal_command.1@)),
            r@.actions == init_actions(
                config.mod_key,
                config.active_window_border_color@,
                config.inactive_window_border_color@,
            ),
    {
        let gap = match config.gap {
            Some(g) => g,
            None => 1,
        };
        let border = match config.border_width {
            Some(b) => b,
            None => 1,
        };
        let clients = ClientState::new().with_virtualscreens(config.num_virtualscreens).with_gap(gap).with_border(
            border,
        ).with_screen_size(screen_size);
        let mut wm = WindowManager {
            clients,
            move_resize_window: MoveResizeInfo::Idle,
            keybinds: Vec::new(),
            config,
            actions: Vec::new(),
        };
        proof {
            assert(wm@.keybinds =~= Seq::<KeyBindingModel>::empty());
            assert(wm@.actions =~= Seq::<ActionModel>::empty());
        }
        wm.init();
        wm
    }

    /// Grabs the buttons and keys of the default bindings and sets the border colours.
    fn init(&mut self)
        requires
            old(self).wf(),
            old(self)@.keybinds.len() == 0,
            old(self)@.actions.len() == 0,
        ensures
            final(self).wf(),
            final(self)@ == (WmModel {
                keybinds: default_keybinds(old(self).config.mod_key),
                actions: init_actions(
                    old(self).config.mod_key,
                    old(self).config.active_window_border_color@,
                    old(self).config.inactive_window_border_color@,
                ),
                ..old(self)@
            }),
            final(self).config == old(self).config,
    {
        let ghost w0 = self@;
        let m = self.config.mod_key;
        self.emit(Action::AddKeybind(KeyOrMouseBind::from_mousebind(&MouseBind::new(MouseButton::Left).with_mod(m))));
        self.emit(Action::AddKeybind(KeyOrMouseBind::from_mousebind(&MouseBind::new(MouseButton::Middle).with_mod(m))));
        self.emit(Action::AddKeybind(KeyOrMouseBind::from_mousebind(&MouseBind::new(MouseButton::Right).with_mod(m))));
        let ghost w1 = self@;
        let mut dmenu: Vec<String> = Vec::new();
        dmenu.push("-m".to_owned());
        dmenu.push("0".to_owned());
        dmenu.push("-fn".to_owned());
        dmenu.push("'New York:size=13'".to_owned());
        dmenu.push("-nb".to_owned());
        dmenu.push("#222222".to_owned());
        dmenu.push("-nf".to_owned());
        dmenu.push("#bbbbbb".to_owned());
        dmenu.push("-sb".to_owned());
        dmenu.push("#dddddd".to_owned());
        dmenu.push("-sf".to_owned());
        dmenu.push("#eeeeee".to_owned());
        proof {
            assert(strings_view(dmenu@) =~= dmenu_args());
        }
        self.bind(VirtualKeyCode::P, false, Command::Spawn("dmenu_run".to_owned(), dmenu));
        self.bind(VirtualKeyCode::M, false, Command::SwitchStack);
        self.bind(VirtualKeyCode::F, false, Command::ToggleFloating);
        self.bind(VirtualKeyCode::Q, false, Command::KillClient);
        self.bind(VirtualKeyCode::Q, true, Command::Quit);
        self.bind(VirtualKeyCode::T, true, Command::SpawnTerminal);
        self.bind(VirtualKeyCode::Return, true, Command::SpawnTerminal);
        self.bind(VirtualKeyCode::J, false, Command::MoveFocus(Direction::south()));
        self.bind(VirtualKeyCode::K, false, Command::MoveFocus(Direction::north()));
        self.bind(VirtualKeyCode::H, false, Command::MoveFocus(Direction::west()));
        self.bind(VirtualKeyCode::L, false, Command::MoveFocus(Direction::east()));
        self.bind(VirtualKeyCode::K, true, Command::ChangeMasterSize(100));
        self.bind(VirtualKeyCode::J, true, Command::ChangeMasterSize(-100));
        self.add_vs_switch_keybinds();
        let ghost w2 = self@;
        let active = self.config.active_window_border_color.clone();
        self.emit(Action::SetActiveBorderColor(active));
        let inactive = self.config.inactive_window_border_color.clone();
        self.emit(Action::SetInactiveBorderColor(inactive));
        proof {
            assert(self@.keybinds =~= default_keybinds(m));
            assert(default_keybinds(m).map_values(|kb: KeyBindingModel| grab_of(kb)) =~= w2.actions.subrange(
                3,
                w2.actions.len() as int,
            ));
            assert(self@.actions =~= init_actions(
                m,
                self.config.active_window_border_color@,
                self.config.inactive_window_border_color@,
            ));
        }
    }
}

// ---------------------------------------------------------------------------
// Laws.
// ---------------------------------------------------------------------------

/// A window that is unmapped is no longer managed.
pub proof fn lemma_unmap_forgets(w: WmModel, window: u64)
    requires
        w.wf(),
    ensures
        !w.handle_event(WindowEvent::UnmapEvent(crate::backends::window_event::UnmapEvent { window })).clients.contains(
            window,
        ),
{
    crate::clients::laws::lemma_removed_forgets(w.clients, window);
    lemma_arrange_keeps_clients(w.with_clients(w.clients.removed(window)));
}

/// A new window is managed and has the focus once it was handed to `new_client`.
pub proof fn lemma_new_client_focused(w: WmModel, window: u64, info: WindowInfo)
    requires
        w.wf(),
        w.can_manage(window, info),
    ensures
        w.new_client(window, info).clients.contains(window),
        w.new_client(window, info).clients.focused == Some(window),
{
    let c = client_for(window, info);
    crate::clients::laws::lemma_inserted_manages(w.clients, c);
    let w1 = w.emit(
        seq![ActionModel::ConfigureWindow { window, size: None, position: None, border: Some(w.clients.border as i32) }],
    ).with_clients(w.clients.inserted(c));
    lemma_arrange_keeps_clients(w1);
    reveal(WmModel::focus_client);
}

/// The pointer entering a managed window gives it the focus.
pub proof fn lemma_enter_focuses(w: WmModel, window: u64)
    requires
        w.clients.contains(window),
    ensures
        w.handle_event(WindowEvent::EnterEvent(crate::backends::window_event::EnterEvent { window })).clients.focused
            == Some(window),
{
    reveal(WmModel::focus_client);
}

/// Releasing a button when nothing is dragged changes nothing.
pub proof fn lemma_release_without_drag(w: WmModel, ev: ButtonEvent<u64>)
    requires
        ev.state == KeyState::Released,
        w.move_resize == MoveResizeInfo::Idle,
    ensures
        w.handle_event(WindowEvent::ButtonEvent(ev)) == w,
{
}

/// Releasing the left or middle button ends any drag.
pub proof fn lemma_release_ends_drag(w: WmModel, ev: ButtonEvent<u64>)
    requires
        ev.state == KeyState::Released,
        ev.keycode == MouseButton::Left || ev.keycode == MouseButton::Middle,
    ensures
        w.handle_event(WindowEvent::ButtonEvent(ev)).move_resize == MoveResizeInfo::Idle,
{
}

/// A key that no binding names changes nothing.
pub proof fn lemma_unbound_key(w: WmModel, kbs: Seq<KeyBindingModel>, ev: KeyEvent<u64>, n: int)
    requires
        n <= kbs.len(),
        forall|i: int| 0 <= i < n ==> !(#[trigger] kbs[i].key.key == ev.keycode && kbs[i].key.modifiers == ev.modifierstate),
    ensures
        w.run_keybinds(kbs, ev, n) == w,
    decreases n,
{
    if n > 0 {
        lemma_unbound_key(w, kbs, ev, n - 1);
        assert(!(kbs[n - 1].key.key == ev.keycode && kbs[n - 1].key.modifiers == ev.modifierstate));
    }
}

/// A map request for a managed window only hands the event back to the window server;
/// for a window not yet managed it also asks for the window to be managed.
pub proof fn lemma_map_request(w: WmModel, e: MapEvent<u64>)
    ensures
        w.handle_event(WindowEvent::MapRequestEvent(e)).clients == w.clients,
        w.handle_event(WindowEvent::MapRequestEvent(e)).actions == w.actions + seq![
            ActionModel::ForwardEvent(WindowEvent::MapRequestEvent(e)),
        ] + if w.clients.contains(e.window) {
            Seq::empty()
        } else {
            seq![ActionModel::ManageWindow(e.window)]
        },
{
    let w1 = w.handle_event(WindowEvent::MapRequestEvent(e));
    if w.clients.contains(e.window) {
        assert(w1.actions =~= w.actions + seq![ActionModel::ForwardEvent(WindowEvent::MapRequestEvent(e))] + Seq::<ActionModel>::empty());
    } else {
        assert(w1.actions =~= w.actions + seq![ActionModel::ForwardEvent(WindowEvent::MapRequestEvent(e))] + seq![ActionModel::ManageWindow(e.window)]);
    }
}

/// A mapped window ends up managed: a map request for a managed window keeps it managed;
/// for one not yet managed it asks, as its last request, for the window to be managed,
/// and carrying that out with `new_client` (where `can_manage` allows it) leaves the
/// window managed and focused.
pub proof fn lemma_map_request_manages(w: WmModel, e: MapEvent<u64>, info: WindowInfo)
    requires
        w.wf(),
    ensures
        ({
            let w1 = w.handle_event(WindowEvent::MapRequestEvent(e));
            &&& w.clients.contains(e.window) ==> w1.clients.contains(e.window)
            &&& !w.clients.contains(e.window) ==> w1.actions.last() == ActionModel::ManageWindow(e.window)
            &&& w1.can_manage(e.window, info) ==> w1.new_client(e.window, info).clients.contains(e.window)
                && w1.new_client(e.window, info).clients.focused == Some(e.window)
        }),
{
    lemma_map_request(w, e);
    let w1 = w.handle_event(WindowEvent::MapRequestEvent(e));
    assert(w1.wf());
    if w1.can_manage(e.window, info) {
        lemma_new_client_focused(w1, e.window, info);
    }
}

} // verus!
