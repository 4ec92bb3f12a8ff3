//! The semantic touch event handed to the caller.

use vstd::prelude::*;

use crate::gesture::Gesture;

verus! {

/// Where on the panel a touch was registered: a pair of 12-bit
/// device-space coordinates.
pub type Point = (u16, u16);

/// One touch: position and hardware-classified gesture. Created fresh
/// per sampling cycle and never mutated.
#[derive(Clone, Copy, Debug, PartialEq, Eq)]
pub struct TouchEvent {
    /// Where on the screen the touch was registered.
    pub point: Point,
    /// What type of gesture was registered.
    pub gesture: Gesture,
}

/// One touch in the richer variant: position, gesture, and the two
/// 16-bit calibration-channel readings.
#[derive(Clone, Copy, Debug, PartialEq, Eq)]
pub struct TouchEventFull {
    /// Where on the screen the touch was registered.
    pub point: Point,
    /// What type of gesture was registered.
    pub gesture: Gesture,
    /// Calibration channel 0.
    pub bpc0: u16,
    /// Calibration channel 1.
    pub bpc1: u16,
}

} // verus!
