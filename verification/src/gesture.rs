//! The hardware-classified gesture and its byte encoding.
//!
//! The chip reports one of a closed set of gesture codes in the
//! gesture-id register. Decoding an unknown code is rejected, never
//! silently coerced to [`Gesture::NoGesture`].

use vstd::prelude::*;

use crate::error::DeviceError;

verus! {

/// A touch interaction classified by the hardware itself.
#[derive(Clone, Copy, Debug, PartialEq, Eq, Structural)]
pub enum Gesture {
    NoGesture,
    SlideUp,
    SlideDown,
    SlideLeft,
    SlideRight,
    SingleClick,
    DoubleClick,
    LongPress,
}

/// The byte code the hardware uses for a gesture.
pub open spec fn gesture_code(g: Gesture) -> u8 {
    match g {
        Gesture::NoGesture => 0x00,
        Gesture::SlideUp => 0x01,
        Gesture::SlideDown => 0x02,
        Gesture::SlideLeft => 0x03,
        Gesture::SlideRight => 0x04,
        Gesture::SingleClick => 0x05,
        Gesture::DoubleClick => 0x0b,
        Gesture::LongPress => 0x0c,
    }
}

/// The gesture a raw byte stands for, if the byte is in the declared set.
pub open spec fn gesture_from_code(raw: u8) -> Option<Gesture> {
    if raw == 0x00 {
        Some(Gesture::NoGesture)
    } else if raw == 0x01 {
        Some(Gesture::SlideUp)
    } else if raw == 0x02 {
        Some(Gesture::SlideDown)
    } else if raw == 0x03 {
        Some(Gesture::SlideLeft)
    } else if raw == 0x04 {
        Some(Gesture::SlideRight)
    } else if raw == 0x05 {
        Some(Gesture::SingleClick)
    } else if raw == 0x0b {
        Some(Gesture::DoubleClick)
    } else if raw == 0x0c {
        Some(Gesture::LongPress)
    } else {
        None
    }
}

/// Whether a raw byte is one of the declared gesture codes.
pub open spec fn declared_gesture_code(raw: u8) -> bool {
    gesture_from_code(raw) is Some
}

/// Decode the raw gesture-id byte, rejecting any code outside the
/// declared set.
pub fn decode_gesture(raw: u8) -> (r: Result<Gesture, DeviceError>)
    ensures
        r matches Ok(g) ==> gesture_from_code(raw) == Some(g),
        r is Ok <==> declared_gesture_code(raw),
        !declared_gesture_code(raw) ==> r == Err::<Gesture, DeviceError>(
            DeviceError::Decode(raw as u16),
        ),
{
    match raw {
        0x00 => Ok(Gesture::NoGesture),
        0x01 => Ok(Gesture::SlideUp),
        0x02 => Ok(Gesture::SlideDown),
        0x03 => Ok(Gesture::SlideLeft),
        0x04 => Ok(Gesture::SlideRight),
        0x05 => Ok(Gesture::SingleClick),
        0x0b => Ok(Gesture::DoubleClick),
        0x0c => Ok(Gesture::LongPress),
        _ => Err(DeviceError::Decode(raw as u16)),
    }
}

/// Encoding a gesture and decoding the code again yields the same
/// gesture: the declared set and the encoding are in exact
/// correspondence.
pub proof fn lemma_gesture_code_round_trip(g: Gesture)
    ensures
        gesture_from_code(gesture_code(g)) == Some(g),
        declared_gesture_code(gesture_code(g)),
{
}

/// A raw byte outside the declared set decodes to nothing at all — in
/// particular, never to [`Gesture::NoGesture`].
pub proof fn lemma_gesture_unknown_rejected(raw: u8)
    requires
        forall|g: Gesture| gesture_code(g) != raw,
    ensures
        gesture_from_code(raw) is None,
{
    assert(gesture_code(Gesture::NoGesture) != raw);
    assert(gesture_code(Gesture::SlideUp) != raw);
    assert(gesture_code(Gesture::SlideDown) != raw);
    assert(gesture_code(Gesture::SlideLeft) != raw);
    assert(gesture_code(Gesture::SlideRight) != raw);
    assert(gesture_code(Gesture::SingleClick) != raw);
    assert(gesture_code(Gesture::DoubleClick) != raw);
    assert(gesture_code(Gesture::LongPress) != raw);
}

} // verus!
