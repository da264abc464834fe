//! A terminal network scanner's core: frames captured on an interface are
//! dissected into records of five protocols, kept in bounded histories, and
//! shown as a table that can be filtered and exported.
//!
//! The logic is verified with Verus. What needs the terminal, the network,
//! the clock or the file system is asked of whoever runs the library, as
//! plain values.

pub mod action;
pub mod addr;
pub mod components;
pub mod enums;
pub mod interface;
pub mod keys;
pub mod layout;
pub mod mode;
pub mod style;
pub mod text;
pub mod time;
pub mod tui;
pub mod utils;
pub mod wire;
