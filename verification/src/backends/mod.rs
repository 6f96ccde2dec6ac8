pub mod keycodes;
pub mod structs;
pub mod xcb;
pub mod window_event;
pub mod xlib;
