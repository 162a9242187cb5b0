//! Reading and writing the inventory.

pub mod drive;
pub mod virtual_machine;
