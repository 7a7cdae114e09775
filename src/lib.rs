//! Enumerating displays and capturing raw pixels from them.
//!
//! The heart of the library is the geometry of an area capture: a rectangle
//! given in a display's own coordinates is clamped to the display's bounds and
//! handed to a platform backend only when what is left is not empty.
pub mod geometry;
pub mod image;
pub mod screen;

pub use geometry::{Area, DisplayInfo};
pub use image::RawImage;
pub use screen::{CaptureBackend, Screen, ScreenError};

