//! Driver core for the SSD1331 96x64 RGB565 OLED controller on a 4-wire SPI bus.
//!
//! The crate is split into a command layer, which knows the controller's
//! register encoding, and a display layer, which owns the framebuffer and
//! the rotation state.
//!
//! The interface keeps a ghost record of every operation it attempts on the
//! transport and the pins, together with the outcome that came back. The
//! contracts are stated over that record: which operations a call attempts,
//! in which order, where it stops, and how its result follows from the
//! outcomes. The record is written by verified code next to each call into
//! the hardware abstraction; that the call made is the one recorded, and
//! what the hardware does with it, is not proved.

pub mod command;
pub mod display;
pub mod displayrotation;
pub mod error;
pub mod interface;
pub mod properties;

pub use crate::command::{AddressIncrementMode, ColorMode, Command, VcomhLevel};
pub use crate::display::{Pixel, Ssd1331};
pub use crate::displayrotation::DisplayRotation;
pub use crate::error::Error;
pub use crate::interface::Interface;
pub use crate::properties::Properties;

use vstd::prelude::*;

verus! {

/// Native panel width in pixels.
pub const DISPLAY_WIDTH: u8 = 96;

/// Native panel height in pixels.
pub const DISPLAY_HEIGHT: u8 = 64;

/// Size of the framebuffer in bytes: two bytes for each of the 96 x 64 pixels.
pub const BUF_SIZE: usize = 12288;

} // verus!
