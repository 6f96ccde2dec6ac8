use vstd::prelude::*;

verus! {

/// The role a window announces for itself (`_NET_WM_WINDOW_TYPE`).
#[derive(Debug, PartialEq, Eq, PartialOrd, Ord, Clone, Copy, Hash, Structural)]
pub enum WindowType {
    Splash,
    Dialog,
    Normal,
    Utility,
    Menu,
    Toolbar,
    Dock,
    Desktop,
}

} // verus!
