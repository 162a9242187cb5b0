//! What the inventory holds.

pub mod drive;
pub mod virtual_machine;
