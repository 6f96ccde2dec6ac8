use vstd::prelude::*;

verus! {

/// A pointer button.
#[derive(Debug, PartialEq, Eq, PartialOrd, Ord, Clone, Copy, Hash, Structural)]
pub enum MouseButton {
    Left,
    Middle,
    Right,
    ScrollUp,
    ScrollDown,
    ScrollLeft,
    ScrollRight,
    Backwards,
    Forwards,
}

/// A key, independent of the keyboard layout's keycodes.
#[derive(Debug, PartialEq, Eq, PartialOrd, Ord, Clone, Copy, Hash, Structural)]
pub enum VirtualKeyCode {
    One,
    Two,
    Three,
    Four,
    Five,
    Six,
    Seven,
    Eight,
    Nine,
    Zero,
    A,
    B,
    C,
    D,
    E,
    F,
    G,
    H,
    I,
    J,
    K,
    L,
    M,
    N,
    O,
    P,
    Q,
    R,
    S,
    T,
    U,
    V,
    W,
    X,
    Y,
    Z,
    Escape,
    Print,
    Back,
    Delete,
    Tab,
    Return,
    Space,
    Left,
    Up,
    Right,
    Down,
}

/// Either a key or a pointer button.
#[derive(Debug, PartialEq, Eq, PartialOrd, Ord, Clone, Copy, Hash, Structural)]
pub enum KeyOrButton {
    Key(VirtualKeyCode),
    Button(MouseButton),
}

} // verus!
