//! Map discovery and camera navigation rules for a 2D tile-map scene.
//!
//! The crate decides; the caller acts. Discovery is given what a directory
//! scan found and says which maps to load. Navigation is given the keyboard
//! and the number of cameras and says which steps to apply to the viewport.

pub mod discovery;
pub mod keyboard;
pub mod names;
pub mod navigation;
pub mod startup;

