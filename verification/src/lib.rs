//! Driver for the CST816S capacitive touch controller.
//!
//! The chip exposes a flat space of 8-bit registers over a two-wire,
//! register-addressed bus. This crate turns that space into a typed access
//! layer — a descriptor table consumed by one generic read/write routine —
//! and turns a sequence of register reads into a single semantic touch
//! event: position, gesture and, in the richer variant, two
//! calibration-channel readings.
//!
//! The physical transport, the interrupt and reset lines, and the delay
//! primitive are boundaries: the application supplies them by implementing
//! the port traits in [`ports`].

pub mod bits;
pub mod driver;
pub mod error;
pub mod event;
pub mod gesture;
pub mod interface;
pub mod ports;
pub mod pulse;
pub mod registers;

pub use driver::CST816S;
pub use error::DeviceError;
pub use event::Point;
pub use event::TouchEvent;
pub use event::TouchEventFull;
pub use gesture::Gesture;
pub use pulse::PulseWidth;

use vstd::prelude::*;

verus! {

/// The fixed seven-bit bus address of this peripheral family.
pub const DEFAULT_DEVICE_ADDRESS: u8 = 0x15;

} // verus!
