//! The command-line front end, as far as it decides anything.

pub mod cmd;
pub mod command;
pub mod date;
pub mod ssh;
