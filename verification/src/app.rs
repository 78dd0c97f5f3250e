//! Application state that is persisted or chosen by the user.

pub mod config;
pub mod theme;
