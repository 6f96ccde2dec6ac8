pub mod backends;
pub mod client_logic;
pub mod clients;
pub mod clients2;
pub mod error;
pub mod maps;
pub mod state;
pub mod state_laws;
pub mod util;
pub mod xlib;
