//! The window back end of a 2D graphics library: window creation, placement,
//! input translation and the bookkeeping of an event loop that serves several
//! windows.

pub mod app;
pub mod context;
pub mod creation;
pub mod cursor;
pub mod dimen;
pub mod error;
pub mod events;
pub mod guarantees;
pub mod helper;
pub mod icon;
pub mod keyboard;
pub mod laws;
pub mod modal;
pub mod model;
pub mod modifiers;
pub mod options;
pub mod outcomes;
pub mod placement;
pub mod steps;
pub mod window;
