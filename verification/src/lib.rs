//! The decision logic of a game's options menu: which video modes are
//! offered, how widgets map to settings, how an input event rebinds a
//! control, and what must be pushed back to the widgets when the model
//! changes. Building and drawing the widgets is left to the caller; this
//! crate decides, the caller performs.
pub mod controls;
pub mod video;
pub mod menu;
pub mod plan;
pub mod laws;
