//! Mirrors a local text field onto a remote display that applies one
//! primitive edit at a time: append a character, backspace, or clear.

pub mod edit;
pub mod diff;
pub mod transmit;
pub mod wire;
pub mod session;
