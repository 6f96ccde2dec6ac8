use vstd::prelude::*;

use crate::backends::structs::WindowType;
use crate::util::{Point, Size};

verus! {

/// An X window id.
pub type Window = u64;

/// A managed window and the geometry the window manager gives it.
#[derive(Clone, Copy, Debug, PartialEq, Eq, Structural)]
pub struct Client {
    pub window: Window,
    pub size: Size,
    pub position: Point,
    pub parent_window: Option<Window>,
    pub window_type: WindowType,
    pub fullscreen: bool,
}

/// The client of `window` with the default geometry: 100x100 at the origin, a normal,
/// non-fullscreen window without a parent.
pub open spec fn default_client(window: Window) -> Client {
    Client {
        window,
        size: Size { width: 100, height: 100 },
        position: Point { x: 0, y: 0 },
        parent_window: None,
        window_type: WindowType::Normal,
        fullscreen: false,
    }
}

impl Default for Client {
    fn default() -> (r: Self)
        ensures
            r == default_client(0),
    {
        Self {
            window: 0,
            size: Size::new(100, 100),
            position: Point::new(0, 0),
            parent_window: None,
            fullscreen: false,
            window_type: WindowType::Normal,
        }
    }
}

impl Client {
    pub fn new(window: Window, size: Size, position: Point) -> (r: Self)
        ensures
            r == (Client { size, position, ..default_client(window) }),
    {
        Self { window, size, position, ..Self::default() }
    }

    /// A dialog centred later over its `transient` parent.
    pub fn new_dialog(window: Window, size: Size, transient: Window) -> (r: Self)
        ensures
            r == (Client { size, parent_window: Some(transient), ..default_client(window) }),
    {
        Self { window, size, parent_window: Some(transient), ..Self::default() }
    }

    pub fn new_default(window: Window) -> (r: Self)
        ensures
            r == default_client(window),
    {
        Self { window, ..Self::default() }
    }

    pub fn with_window_type(self, window_type: WindowType) -> (r: Self)
        ensures
            r == (Client { window_type, ..self }),
    {
        Self { window_type, ..self }
    }

    pub fn with_parent_window(self, parent_window: Option<Window>) -> (r: Self)
        ensures
            r == (Client { parent_window, ..self }),
    {
        Self { parent_window, ..self }
    }

    pub fn with_size(self, size: Size) -> (r: Self)
        ensures
            r == (Client { size, ..self }),
    {
        Self { size, ..self }
    }

    /// Toggles the fullscreen flag; returns `true` if the client is now fullscreen.
    pub fn toggle_fullscreen(&mut self) -> (r: bool)
        ensures
            *final(self) == (Client { fullscreen: !old(self).fullscreen, ..*old(self) }),
            r == final(self).fullscreen,
    {
        self.fullscreen = !self.fullscreen;
        self.is_fullscreen()
    }

    /// Sets the fullscreen flag; returns `true` if it changed.
    pub fn set_fullscreen(&mut self, fullscreen: bool) -> (r: bool)
        ensures
            *final(self) == (Client { fullscreen, ..*old(self) }),
            r == (old(self).fullscreen != fullscreen),
    {
        if self.fullscreen == fullscreen {
            false
        } else {
            self.fullscreen = fullscreen;
            true
        }
    }

    pub fn is_fullscreen(&self) -> (r: bool)
        ensures
            r == self.fullscreen,
    {
        self.fullscreen
    }

    pub fn has_parent_window(&self) -> (r: bool)
        ensures
            r == self.parent_window.is_some(),
    {
        self.parent_window.is_some()
    }
}

/// Anything that names a client: a client itself or its window id.
pub trait ClientKey {
    /// The window id named.
    spec fn client_key(&self) -> u64;

    fn key(&self) -> (k: u64)
        ensures
            k == self.client_key(),
    ;
}

impl ClientKey for Client {
    open spec fn client_key(&self) -> u64 {
        self.window
    }

    fn key(&self) -> (k: u64) {
        self.window
    }
}

impl ClientKey for u64 {
    open spec fn client_key(&self) -> u64 {
        *self
    }

    fn key(&self) -> (k: u64) {
        *self
    }
}

} // verus!
