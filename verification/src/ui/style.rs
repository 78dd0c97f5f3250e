//! Theme definitions.

pub mod fusion_theme;
