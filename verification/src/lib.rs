//! Verified core of Open CAD Studio's configuration, themes, platform
//! helpers and geometric-constraint commands: colour palettes and their hex
//! form, theme selection, the saved configuration and its one-time
//! migration, URL percent-encoding, drawing hyperlink filtering, the
//! classification of renderer failures and the decisions of the web error
//! banner, and the state machines of the Equal, Horizontal, Smooth and
//! constraint-bar commands.

mod text;
pub mod sys;
pub mod app;
pub mod ui;
pub mod modules;
