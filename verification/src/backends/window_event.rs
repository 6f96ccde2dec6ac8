use vstd::prelude::*;

use super::keycodes::{KeyOrButton, MouseButton, VirtualKeyCode};
use super::structs::WindowType;
use crate::util::{Point, Size};

verus! {

/// An event reported by the window server, in the library's own terms.
#[derive(Debug, Clone)]
pub enum WindowEvent<Window> {
    KeyEvent(KeyEvent<Window>),
    ButtonEvent(ButtonEvent<Window>),
    MotionEvent(MotionEvent<Window>),
    MapRequestEvent(MapEvent<Window>),
    MapEvent(MapEvent<Window>),
    UnmapEvent(UnmapEvent<Window>),
    CreateEvent(CreateEvent<Window>),
    DestroyEvent(DestroyEvent<Window>),
    EnterEvent(EnterEvent<Window>),
    ConfigureEvent(ConfigureEvent<Window>),
    FullscreenEvent(FullscreenEvent<Window>),
    WindowNameEvent(WindowNameEvent<Window>),
    WindowTypeChangedEvent(WindowTypeChangedEvent<Window>),
}

#[derive(Debug, PartialEq, Eq, Copy, Clone, Structural)]
pub enum KeyState {
    Pressed,
    Released,
}

#[derive(Debug, PartialEq, Eq, PartialOrd, Ord, Hash, Clone, Copy, Structural)]
pub enum ModifierKey {
    Shift,
    ShiftLock,
    Control,
    Alt,
    AltGr,
    /// Windows key on most keyboards
    Super,
    NumLock,
}

impl ModifierKey {
    /// The key's position in the declaration order.
    pub fn as_u8(self) -> (r: u8)
        ensures
            r == modifier_index(self),
    {
        match self {
            ModifierKey::Shift => 0,
            ModifierKey::ShiftLock => 1,
            ModifierKey::Control => 2,
            ModifierKey::Alt => 3,
            ModifierKey::AltGr => 4,
            ModifierKey::Super => 5,
            ModifierKey::NumLock => 6,
        }
    }
}

pub open spec fn modifier_index(m: ModifierKey) -> u8 {
    match m {
        ModifierKey::Shift => 0,
        ModifierKey::ShiftLock => 1,
        ModifierKey::Control => 2,
        ModifierKey::Alt => 3,
        ModifierKey::AltGr => 4,
        ModifierKey::Super => 5,
        ModifierKey::NumLock => 6,
    }
}

/// The bit position of each modifier in a `ModifierState`.
pub open spec fn modifier_shift(m: ModifierKey) -> u32 {
    (4 * modifier_index(m)) as u32
}

/// The flag of a modifier in a `ModifierState`.
pub open spec fn modifier_flag(m: ModifierKey) -> u32 {
    1u32 << modifier_shift(m)
}

/// A set of held modifier keys, one bit per key.
#[derive(Debug, PartialEq, Eq, PartialOrd, Ord, Hash, Clone, Copy, Structural)]
pub struct ModifierState {
    pub bits: u32,
}

pub const SHIFT_BIT: u32 = 1u32 << 0u32;
pub const SHIFT_LOCK_BIT: u32 = 1u32 << 4u32;
pub const CONTROL_BIT: u32 = 1u32 << 8u32;
pub const ALT_BIT: u32 = 1u32 << 12u32;
pub const ALT_GR_BIT: u32 = 1u32 << 16u32;
pub const SUPER_BIT: u32 = 1u32 << 20u32;
pub const NUM_LOCK_BIT: u32 = 1u32 << 24u32;
/// The modifiers that count when lock keys are ignored.
pub const IGNORE_LOCK_BITS: u32 = CONTROL_BIT | ALT_BIT | ALT_GR_BIT | SUPER_BIT | SHIFT_BIT;

/// The flags of the listed modifiers, or-ed together.
pub open spec fn mods_bits(mods: Seq<ModifierKey>) -> u32
    decreases mods.len(),
{
    if mods.len() == 0 {
        0
    } else {
        mods_bits(mods.drop_last()) | modifier_flag(mods.last())
    }
}

/// `m` is held in `bits`.
pub open spec fn holds(bits: u32, m: ModifierKey) -> bool {
    bits & modifier_flag(m) != 0
}

proof fn lemma_flag_bits(b: u32, i: u32, j: u32)
    by (bit_vector)
    requires
        i < 32,
        j < 32,
    ensures
        ((b | (1u32 << i)) & (1u32 << j) != 0) == (i == j || b & (1u32 << j) != 0),
        ((b & !(1u32 << i)) & (1u32 << j) != 0) == (i != j && b & (1u32 << j) != 0),
{
}

proof fn lemma_flag_lock(b: u32)
    by (bit_vector)
    ensures
        (b | (1u32 << 4u32)) & (1u32 << 8u32 | 1u32 << 12u32 | 1u32 << 16u32 | 1u32 << 20u32 | 1u32 << 0u32)
            == b & (1u32 << 8u32 | 1u32 << 12u32 | 1u32 << 16u32 | 1u32 << 20u32 | 1u32 << 0u32),
        (b | (1u32 << 24u32)) & (1u32 << 8u32 | 1u32 << 12u32 | 1u32 << 16u32 | 1u32 << 20u32 | 1u32 << 0u32)
            == b & (1u32 << 8u32 | 1u32 << 12u32 | 1u32 << 16u32 | 1u32 << 20u32 | 1u32 << 0u32),
{
}

impl ModifierState {
    /// The set of held modifiers.
    pub open spec fn held(self) -> Set<ModifierKey> {
        Set::new(|m: ModifierKey| holds(self.bits, m))
    }

    /// No modifier held.
    pub fn empty() -> (r: Self)
        ensures
            r.bits == 0,
    {
        ModifierState { bits: 0 }
    }

    pub fn bits(&self) -> (r: u32)
        ensures
            r == self.bits,
    {
        self.bits
    }

    /// The flag that stands for `modifier`.
    pub fn flag(modifier: ModifierKey) -> (r: u32)
        ensures
            r == modifier_flag(modifier),
    {
        match modifier {
            ModifierKey::Shift => SHIFT_BIT,
            ModifierKey::ShiftLock => SHIFT_LOCK_BIT,
            ModifierKey::Control => CONTROL_BIT,
            ModifierKey::Alt => ALT_BIT,
            ModifierKey::AltGr => ALT_GR_BIT,
            ModifierKey::Super => SUPER_BIT,
            ModifierKey::NumLock => NUM_LOCK_BIT,
        }
    }

    /// All flags of `other` are set in `self`.
    pub fn contains(&self, other: Self) -> (r: bool)
        ensures
            r == (self.bits & other.bits == other.bits),
    {
        self.bits & other.bits == other.bits
    }

    /// `modifier` is held.
    pub fn is_held(&self, modifier: ModifierKey) -> (r: bool)
        ensures
            r == holds(self.bits, modifier),
    {
        self.bits & Self::flag(modifier) != 0
    }

    /// Sets or clears all flags of `other`.
    pub fn set(&mut self, other: Self, value: bool)
        ensures
            final(self).bits == if value {
                old(self).bits | other.bits
            } else {
                old(self).bits & !other.bits
            },
    {
        if value {
            self.bits = self.bits | other.bits;
        } else {
            self.bits = self.bits & !other.bits;
        }
    }

    /// Compares the two states on the modifiers that are not lock keys
    /// (Shift, Control, Alt, AltGr and Super).
    pub fn eq_ignore_lock(&self, rhs: &Self) -> (r: bool)
        ensures
            r == (self.bits & IGNORE_LOCK_BITS == rhs.bits & IGNORE_LOCK_BITS),
    {
        let mask = IGNORE_LOCK_BITS;
        self.bits & mask == rhs.bits & mask
    }

    /// The state with `modifier` held as well.
    pub fn with_mod(self, modifier: ModifierKey) -> (r: Self)
        ensures
            r.bits == self.bits | modifier_flag(modifier),
            r.held() == self.held().insert(modifier),
    {
        let mut s = self;
        s.insert_mod(modifier);
        s
    }

    /// Releases `modifier`.
    pub fn unset_mod(&mut self, modifier: ModifierKey)
        ensures
            final(self).bits == old(self).bits & !modifier_flag(modifier),
            final(self).held() == old(self).held().remove(modifier),
    {
        self.set_mod(modifier, false);
    }

    /// Holds or releases `modifier`; the other modifiers keep their state.
    pub fn set_mod(&mut self, modifier: ModifierKey, state: bool)
        ensures
            final(self).bits == if state {
                old(self).bits | modifier_flag(modifier)
            } else {
                old(self).bits & !modifier_flag(modifier)
            },
            final(self).held() == if state {
                old(self).held().insert(modifier)
            } else {
                old(self).held().remove(modifier)
            },
    {
        let ghost b = self.bits;
        let f = Self::flag(modifier);
        self.set(ModifierState { bits: f }, state);
        proof {
            assert forall|m: ModifierKey| #[trigger] holds(self.bits, m) == if state {
                m == modifier || holds(b, m)
            } else {
                m != modifier && holds(b, m)
            } by {
                lemma_flag_bits(b, modifier_shift(modifier), modifier_shift(m));
            }
            if state {
                assert(self.held() =~= old(self).held().insert(modifier));
            } else {
                assert(self.held() =~= old(self).held().remove(modifier));
            }
        }
    }

    /// Holds `modifier`.
    pub fn insert_mod(&mut self, modifier: ModifierKey)
        ensures
            final(self).bits == old(self).bits | modifier_flag(modifier),
            final(self).held() == old(self).held().insert(modifier),
    {
        self.set_mod(modifier, true);
    }

    /// The state in which exactly the listed modifiers are held.
    pub fn from_mods(mods: &[ModifierKey]) -> (r: Self)
        ensures
            r.bits == mods_bits(mods@),
            r.held() == mods@.to_set(),
    {
        let mut state = ModifierState::empty();
        let mut i: usize = 0;
        proof {
            assert(state.held() =~= Set::<ModifierKey>::empty()) by {
                assert forall|m: ModifierKey| !holds(0u32, m) by {
                    lemma_flag_bits(0u32, modifier_shift(m), modifier_shift(m));
                    assert(0u32 & !(1u32 << modifier_shift(m)) == 0u32) by (bit_vector);
                }
            }
        }
        while i < mods.len()
            invariant
                i <= mods@.len(),
                state.bits == mods_bits(mods@.subrange(0, i as int)),
                state.held() == mods@.subrange(0, i as int).to_set(),
            decreases mods@.len() - i,
        {
            state.insert_mod(mods[i]);
            proof {
                assert(mods@.subrange(0, i + 1) =~= mods@.subrange(0, i as int).push(mods@[i as int]));
                assert(mods@.subrange(0, i + 1).drop_last() =~= mods@.subrange(0, i as int));
                mods@.subrange(0, i as int).lemma_push_to_set_commute(mods@[i as int]);
            }
            i = i + 1;
        }
        proof {
            assert(mods@.subrange(0, i as int) =~= mods@);
        }
        state
    }
}

/// The state of a list of modifiers is the empty state with each listed modifier held in
/// turn: for two keys `a` and `b`, `from_mods(&[a, b])` equals
/// `empty().with_mod(a).with_mod(b)`.
pub proof fn lemma_from_mods_holds_in_turn(mods: Seq<ModifierKey>, m: ModifierKey)
    ensures
        mods_bits(Seq::empty()) == 0,
        mods_bits(mods.push(m)) == mods_bits(mods) | modifier_flag(m),
        mods_bits(seq![m]) == 0u32 | modifier_flag(m),
{
    assert(mods.push(m).drop_last() =~= mods);
    assert(seq![m].drop_last() =~= Seq::<ModifierKey>::empty());
    assert(mods_bits(seq![m].drop_last()) == 0);
    assert(seq![m].last() == m);
}

/// Holding a lock key changes no comparison that ignores lock keys.
pub proof fn lemma_lock_keys_ignored(s: ModifierState)
    ensures
        s.with_mod_spec(ModifierKey::ShiftLock).bits & IGNORE_LOCK_BITS == s.bits & IGNORE_LOCK_BITS,
        s.with_mod_spec(ModifierKey::NumLock).bits & IGNORE_LOCK_BITS == s.bits & IGNORE_LOCK_BITS,
{
    lemma_flag_lock(s.bits);
}

impl ModifierState {
    /// `self` with `modifier` held as well.
    pub open spec fn with_mod_spec(self, modifier: ModifierKey) -> Self {
        ModifierState { bits: self.bits | modifier_flag(modifier) }
    }
}

#[derive(Debug, Clone)]
pub struct KeyEvent<Window> {
    pub window: Window,
    pub state: KeyState,
    pub keycode: VirtualKeyCode,
    pub modifierstate: ModifierState,
}

impl<Window> KeyEvent<Window> {
    pub fn new(
        window: Window,
        state: KeyState,
        keycode: VirtualKeyCode,
        modifierstate: ModifierState,
    ) -> (r: Self)
        ensures
            r.window == window,
            r.state == state,
            r.keycode == keycode,
            r.modifierstate == modifierstate,
    {
        Self { window, state, keycode, modifierstate }
    }
}

#[derive(Debug, Clone)]
pub struct ButtonEvent<Window> {
    pub window: Window,
    pub state: KeyState,
    pub keycode: MouseButton,
    pub cursor_position: Point,
    pub modifierstate: ModifierState,
}

impl<Window> ButtonEvent<Window> {
    pub fn new(
        window: Window,
        state: KeyState,
        keycode: MouseButton,
        cursor_position: Point,
        modifierstate: ModifierState,
    ) -> (r: Self)
        ensures
            r.window == window,
            r.state == state,
            r.keycode == keycode,
            r.cursor_position == cursor_position,
            r.modifierstate == modifierstate,
    {
        Self { window, state, keycode, cursor_position, modifierstate }
    }
}

#[derive(Debug, Clone)]
pub struct MotionEvent<Window> {
    pub position: Point,
    pub window: Window,
}

impl<Window> MotionEvent<Window> {
    pub fn new(position: Point, window: Window) -> (r: Self)
        ensures
            r.position == position,
            r.window == window,
    {
        Self { position, window }
    }
}

#[derive(Debug, Clone)]
pub struct MapEvent<Window> {
    pub window: Window,
}

#[derive(Debug, Clone)]
pub struct UnmapEvent<Window> {
    pub window: Window,
}

#[derive(Debug, Clone)]
pub struct EnterEvent<Window> {
    pub window: Window,
}

#[derive(Debug, Clone)]
pub struct DestroyEvent<Window> {
    pub window: Window,
}

impl<Window> DestroyEvent<Window> {
    pub fn new(window: Window) -> (r: Self)
        ensures
            r.window == window,
    {
        Self { window }
    }
}

#[derive(Debug, Clone)]
pub struct CreateEvent<Window> {
    pub window: Window,
    pub position: Point,
    pub size: Size,
}

impl<Window> CreateEvent<Window> {
    pub fn new(window: Window, position: Point, size: Size) -> (r: Self)
        ensures
            r.window == window,
            r.position == position,
            r.size == size,
    {
        Self { window, position, size }
    }
}

#[derive(Debug, Clone)]
pub struct ConfigureEvent<Window> {
    pub window: Window,
    pub position: Point,
    pub size: Size,
}

impl<Window> ConfigureEvent<Window> {
    pub fn new(window: Window, position: Point, size: Size) -> (r: Self)
        ensures
            r.window == window,
            r.position == position,
            r.size == size,
    {
        Self { window, position, size }
    }
}

#[derive(Debug, Clone, Copy, PartialEq, Eq, Structural)]
pub enum FullscreenState {
    On,
    Off,
    Toggle,
}

impl FullscreenState {
    /// `On` for `true`, `Off` for `false`.
    pub fn from_bool(value: bool) -> (r: Self)
        ensures
            r == (if value { FullscreenState::On } else { FullscreenState::Off }),
    {
        if value {
            FullscreenState::On
        } else {
            FullscreenState::Off
        }
    }
}

#[derive(Debug, Clone)]
pub struct FullscreenEvent<Window> {
    pub window: Window,
    pub state: FullscreenState,
}

impl<Window> FullscreenEvent<Window> {
    pub fn new(window: Window, state: FullscreenState) -> (r: Self)
        ensures
            r.window == window,
            r.state == state,
    {
        Self { window, state }
    }
}

#[derive(Debug, Clone)]
pub struct WindowNameEvent<Window> {
    pub window: Window,
    pub name: String,
}

impl<Window> WindowNameEvent<Window> {
    pub fn new(window: Window, name: String) -> (r: Self)
        ensures
            r.window == window,
            r.name@ == name@,
    {
        Self { window, name }
    }
}

#[derive(Debug, Clone)]
pub struct WindowTypeChangedEvent<Window> {
    pub window: Window,
    pub window_type: WindowType,
}

impl<Window> WindowTypeChangedEvent<Window> {
    pub fn new(window: Window, window_type: WindowType) -> (r: Self)
        ensures
            r.window == window,
            r.window_type == window_type,
    {
        Self { window, window_type }
    }
}

#[derive(Debug, Clone, Copy, PartialEq, Eq, PartialOrd, Ord, Structural)]
pub struct KeyBind {
    pub key: VirtualKeyCode,
    pub modifiers: ModifierState,
}

impl KeyBind {
    pub fn new(key: VirtualKeyCode) -> (r: Self)
        ensures
            r.key == key,
            r.modifiers.bits == 0,
    {
        Self { key, modifiers: ModifierState::empty() }
    }

    pub fn with_mod(self, modifier_key: ModifierKey) -> (r: Self)
        ensures
            r.key == self.key,
            r.modifiers == self.modifiers.with_mod_spec(modifier_key),
    {
        let mut s = self;
        s.modifiers.insert_mod(modifier_key);
        s
    }
}

#[derive(Debug, Clone, Copy, PartialEq, Eq, PartialOrd, Ord, Structural)]
pub struct MouseBind {
    pub button: MouseButton,
    pub modifiers: ModifierState,
}

impl MouseBind {
    pub fn new(button: MouseButton) -> (r: Self)
        ensures
            r.button == button,
            r.modifiers.bits == 0,
    {
        Self { button, modifiers: ModifierState::empty() }
    }

    pub fn with_mod(self, modifier_key: ModifierKey) -> (r: Self)
        ensures
            r.button == self.button,
            r.modifiers == self.modifiers.with_mod_spec(modifier_key),
    {
        let mut s = self;
        s.modifiers.insert_mod(modifier_key);
        s
    }
}

#[derive(Debug, Clone, Copy, PartialEq, Eq, PartialOrd, Ord, Structural)]
pub struct KeyOrMouseBind {
    pub key: KeyOrButton,
    pub modifiers: ModifierState,
}

impl KeyOrMouseBind {
    pub fn new(key: KeyOrButton) -> (r: Self)
        ensures
            r.key == key,
            r.modifiers.bits == 0,
    {
        Self { key, modifiers: ModifierState::empty() }
    }

    pub fn with_mod(self, modifier_key: ModifierKey) -> (r: Self)
        ensures
            r.key == self.key,
            r.modifiers == self.modifiers.with_mod_spec(modifier_key),
    {
        let mut s = self;
        s.modifiers.insert_mod(modifier_key);
        s
    }

    /// The binding of a key bind's key, with its modifiers.
    pub fn from_keybind(keybind: &KeyBind) -> (r: Self)
        ensures
            r.key == KeyOrButton::Key(keybind.key),
            r.modifiers == keybind.modifiers,
    {
        Self { key: KeyOrButton::Key(keybind.key), modifiers: keybind.modifiers }
    }

    /// The binding of a mouse bind's button, with its modifiers.
    pub fn from_mousebind(mousebind: &MouseBind) -> (r: Self)
        ensures
            r.key == KeyOrButton::Button(mousebind.button),
            r.modifiers == mousebind.modifiers,
    {
        Self { key: KeyOrButton::Button(mousebind.button), modifiers: mousebind.modifiers }
    }
}

} // verus!
