//! The terminal user interface.

pub mod app;
