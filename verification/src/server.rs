//! The HTTP API, as far as it decides anything.

pub mod api;
pub mod services;
pub mod types;
