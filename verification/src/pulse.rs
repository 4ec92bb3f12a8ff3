//! The validated interrupt low-pulse width.
//!
//! The irq-pulse-width register takes a value in units of 0.1 ms with a
//! declared range of 1 to 200. This is the one register value with a
//! non-trivial domain constraint, so it is enforced at the type level:
//! construction rejects anything outside the range, before any bus
//! traffic occurs.

use vstd::prelude::*;

use crate::error::DeviceError;

verus! {

/// Whether a raw byte lies in the declared pulse-width range.
pub open spec fn pulse_width_valid(value: u8) -> bool {
    1 <= value <= 200
}

/// An interrupt low-pulse duration, known to lie in the declared range.
#[derive(Clone, Copy, Debug, PartialEq, Eq, Structural)]
pub struct PulseWidth {
    value: u8,
}

impl PulseWidth {
    /// The stored byte, exactly as it is encoded into the register.
    pub closed spec fn spec_value(self) -> u8 {
        self.value
    }

    /// Every constructed value lies in the declared range: the type
    /// invariant, enforced at every construction, so a pulse width
    /// holding a byte outside it can never exist.
    #[verifier::type_invariant]
    pub open spec fn wf(self) -> bool {
        pulse_width_valid(self.spec_value())
    }

    /// What construction from a raw byte yields.
    pub closed spec fn spec_new(value: u8) -> Result<PulseWidth, DeviceError> {
        if pulse_width_valid(value) {
            Ok(PulseWidth { value })
        } else {
            Err(DeviceError::Validation(value))
        }
    }

    /// Validate a raw byte and wrap it; values outside 1 to 200 are
    /// rejected.
    pub fn new(value: u8) -> (r: Result<PulseWidth, DeviceError>)
        ensures
            r == Self::spec_new(value),
            r is Ok <==> pulse_width_valid(value),
            r matches Ok(p) ==> p.spec_value() == value && p.wf(),
            !pulse_width_valid(value) ==> r == Err::<PulseWidth, DeviceError>(
                DeviceError::Validation(value),
            ),
    {
        if 1 <= value && value <= 200 {
            Ok(PulseWidth { value })
        } else {
            Err(DeviceError::Validation(value))
        }
    }

    /// The byte this pulse width encodes to: always in the declared
    /// range, by the type invariant.
    pub fn get(&self) -> (r: u8)
        ensures
            r == self.spec_value(),
            pulse_width_valid(r),
    {
        proof {
            use_type_invariant(self);
        }
        self.value
    }
}

impl From<PulseWidth> for u8 {
    /// The register encoding of a pulse width is its stored byte.
    fn from(value: PulseWidth) -> (r: u8) {
        value.value
    }
}

impl vstd::std_specs::convert::FromSpecImpl<PulseWidth> for u8 {
    open spec fn obeys_from_spec() -> bool {
        true
    }

    open spec fn from_spec(value: PulseWidth) -> u8 {
        value.spec_value()
    }
}

/// Construction accepts every byte in the declared range, and encoding
/// the stored byte then constructing from it again returns the same
/// value: the pulse width round-trips through its register byte.
pub proof fn lemma_pulse_width_round_trip(value: u8)
    requires
        pulse_width_valid(value),
    ensures
        PulseWidth::spec_new(value) matches Ok(p) && p.spec_value() == value
            && PulseWidth::spec_new(p.spec_value()) == Ok::<PulseWidth, DeviceError>(p),
{
}

/// Construction rejects every byte outside the declared range.
pub proof fn lemma_pulse_width_rejected(value: u8)
    requires
        !pulse_width_valid(value),
    ensures
        PulseWidth::spec_new(value) == Err::<PulseWidth, DeviceError>(
            DeviceError::Validation(value),
        ),
{
}

} // verus!
