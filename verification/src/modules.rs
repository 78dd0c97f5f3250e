//! Command modules of the drawing editor.

pub mod parametric;
