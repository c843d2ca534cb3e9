//! Driver core for the AXS5106L capacitive touch controller.
//!
//! The crate decodes the controller's raw touch frames into up to five
//! 12-bit coordinate pairs, remaps them into display space according to a
//! fixed mounting rotation, and manages the single-bit interrupt latch that
//! bridges an external edge trigger and the polling code.  The byte bus the
//! chip sits on is reached only through the [`bus::TouchBus`] trait, which a
//! platform crate implements for its own I2C peripheral.

pub mod bus;
pub mod touch;
pub mod transform;
pub mod driver;

pub use crate::bus::TouchBus;
pub use crate::driver::Axs5106l;
pub use crate::touch::{Coordinates, TouchData};
pub use crate::transform::Rotation;
