//! Driver-level error taxonomy.

use vstd::prelude::*;

verus! {

/// Everything that can go wrong between the caller and the peripheral.
///
/// A transport failure is propagated verbatim and never retried here; a
/// decode failure names the raw value that matched no declared variant;
/// a validation failure names a caller-constructed value that was
/// rejected before any bus traffic occurred.
#[derive(Clone, Copy, Debug, PartialEq, Eq, Structural)]
pub enum DeviceError {
    /// The underlying bus signaled a failure; the code carried here is
    /// whatever the transport reported, untouched.
    Transport(u32),
    /// A register's raw value matched no declared enum variant.
    Decode(u16),
    /// A caller-constructed value lies outside its declared domain.
    Validation(u8),
}

impl From<u32> for DeviceError {
    /// Wrap the code a failed transport reported, untouched.
    fn from(code: u32) -> (r: DeviceError) {
        DeviceError::Transport(code)
    }
}

impl vstd::std_specs::convert::FromSpecImpl<u32> for DeviceError {
    open spec fn obeys_from_spec() -> bool {
        true
    }

    open spec fn from_spec(code: u32) -> DeviceError {
        DeviceError::Transport(code)
    }
}

} // verus!
