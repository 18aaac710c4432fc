//! The builtins, one module each.

pub mod cat;
pub mod cd;
pub mod clear;
pub mod cp;
pub mod echo;
pub mod ls;
pub mod mv;
pub mod pwd;
pub mod rm;
