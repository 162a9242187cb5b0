//! The commands.

pub mod ps;
pub mod reset;
pub mod ssh;
pub mod start;
pub mod stop;
pub mod up;
