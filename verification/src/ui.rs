//! User-interface styling.

pub mod style;
