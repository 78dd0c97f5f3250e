//! Interactive front ends of the geometric constraints: each command is a
//! state machine that the editor feeds with typed keywords, object picks,
//! point picks, Enter and Escape, and that answers with what the editor must
//! do next.
//!
//! The editor measures the geometry (which polyline segment a pick falls on,
//! which ellipse axis is nearer, whether a pick is near a constraint point)
//! and hands the commands a [`reference::PickedEntity`] that holds those
//! answers as plain values; the decisions are made here.

pub mod reference;
pub mod command;
pub mod equal;
pub mod horizontal;
pub mod constraint_bar;
pub mod smooth;
