//! The API's data.

pub mod microvm;
