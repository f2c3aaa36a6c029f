//! Reads the description of an embedded game out of its page, and decides
//! what the shell's shortcut keys do.

pub mod game;
pub mod keys;
pub mod number;
pub mod page;
pub mod text;
