//! The API as HTTP sees it.

pub mod microvm;
