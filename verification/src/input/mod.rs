//! The input router: which session an event goes to, and as which bytes.

pub mod keyboard;
pub mod mouse;
pub mod mouse_mode;
pub mod wire;
