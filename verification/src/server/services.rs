//! The API's operations.

pub mod microvm;
