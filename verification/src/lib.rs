//! The core of a small interactive shell: how a line of input becomes a
//! command, what each builtin decides from its arguments, and how a
//! directory listing is ordered, filtered and rendered.

pub mod assoc;
pub mod commands;
pub mod error;
pub mod paths;
pub mod shell;
pub mod style;
pub mod text;
