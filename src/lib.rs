//! Capture-to-output core of a screen capture tool: choosing a monitor,
//! clamping a drawn selection to an image, naming output files, and keeping
//! a single global capture shortcut registered.
pub mod text;
pub mod geometry;
pub mod crop;
pub mod shortcut;
pub mod capture;
pub mod output;
pub mod windows;
