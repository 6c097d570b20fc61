//! A floating, draggable, resizable shell overlay for a terminal session.
//!
//! The owner's session fills the terminal; the tenant's runs in a window on top of it.
//! This library holds what is decided about the two: where the window stands, which
//! session a key or a pointer event is for and as which bytes it gets there, what each
//! session's screen shows, and when the tenant's lease has run out.

pub mod constants;
pub mod geometry;
pub mod input;
pub mod lease;
pub mod owner;
pub mod screen;
pub mod session;
