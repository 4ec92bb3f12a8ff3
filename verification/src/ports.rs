//! The boundaries this driver consumes, as port traits the application
//! implements: the two-wire bus transport, the interrupt-sense input,
//! and the reset output with the blocking delay that paces it.
//!
//! Each port carries a small abstract model. The bus keeps a ghost
//! history of the transactions issued through it, so that contracts can
//! state exactly which transactions an operation performs — including
//! that the idle fast path performs none. Nothing is assumed about the
//! bytes a read brings back: the peripheral updates its registers
//! asynchronously, and every contract downstream holds for every
//! outcome. The reset port keeps a ghost trace of its edges and holds,
//! so that the reset contract can demand the low-then-high pulse with
//! its hold times, in order.

use vstd::prelude::*;

verus! {

/// One physical bus transaction, as the ghost history records it: what
/// was put on the wire, what came back, and whether the transport
/// succeeded.
pub enum BusOp {
    /// An address phase followed by a data-write phase, issued as one
    /// transaction: the seven-bit device address, every byte put on
    /// the wire (the register address byte first), and the transport's
    /// outcome.
    Write { device_address: u8, bytes: Seq<u8>, result: Result<(), u32> },
    /// An address-write followed by a data-read, issued as one
    /// transaction: the seven-bit device address, the register address
    /// byte, the bytes that came back, and the transport's outcome.
    WriteRead { device_address: u8, address_byte: u8, data: Seq<u8>, result: Result<(), u32> },
}

/// The two-wire transport. A failed transaction still counts as issued:
/// the history records attempts, and a failure reports the transport's
/// own error code, which the driver wraps and propagates untouched.
pub trait BusPort: Sized {
    /// The history of transactions issued on this bus. Each
    /// implementation gives this its own meaning; the default stands
    /// for an arbitrary history so that unverified implementations
    /// need not name one.
    open spec fn log(&self) -> Seq<BusOp> {
        arbitrary()
    }

    /// Issue one write transaction carrying `bytes`.
    fn bus_write(&mut self, device_address: u8, bytes: &Vec<u8>) -> (r: Result<(), u32>)
        ensures
            final(self).log() == old(self).log().push(
                BusOp::Write { device_address, bytes: bytes@, result: r },
            ),
    ;

    /// Issue one write-read transaction: write `address_byte`, then
    /// read exactly `out.len()` bytes back into `out`.
    fn bus_write_read(&mut self, device_address: u8, address_byte: u8, out: &mut Vec<u8>) -> (r:
        Result<(), u32>)
        ensures
            final(out)@.len() == old(out)@.len(),
            final(self).log() == old(self).log().push(
                BusOp::WriteRead { device_address, address_byte, data: final(out)@, result: r },
            ),
    ;
}

/// The interrupt-sense input. The line is polled by level; low means a
/// touch event is pending (active-low, per the datasheet polarity).
pub trait InterruptInput: Sized {
    /// The level the most recent poll observed: true when the line was
    /// low, that is, asserted.
    open spec fn low(&self) -> bool {
        arbitrary()
    }

    /// Poll the line once.
    fn is_low(&mut self) -> (r: bool)
        ensures
            final(self).low() == r,
    ;
}

/// One step on the reset line's timeline, as its ghost trace records
/// it: an edge driven, or a blocking hold at the current level.
#[derive(Clone, Copy, Debug, PartialEq, Eq, Structural)]
pub enum ResetEvent {
    /// The line driven low: the device is held in reset.
    SetLow,
    /// The line driven high: the device is released to run.
    SetHigh,
    /// A blocking wait of at least the given milliseconds with the
    /// line held as it stands.
    Hold(u32),
}

/// The reset output line, together with the millisecond-granularity
/// blocking delay that paces its edges. The two travel as one port so
/// that the ghost trace captures the order of edges and holds — which
/// is exactly what a reset pulse is.
pub trait ResetOutput: Sized {
    /// The timeline of edges and holds driven on this line.
    open spec fn trace(&self) -> Seq<ResetEvent> {
        arbitrary()
    }

    /// Whether the line is currently driven high (the device runs) or
    /// low (the device is held in reset).
    open spec fn driven_high(&self) -> bool {
        arbitrary()
    }

    /// Drive the line low.
    fn set_low(&mut self)
        ensures
            !final(self).driven_high(),
            final(self).trace() == old(self).trace().push(ResetEvent::SetLow),
    ;

    /// Drive the line high.
    fn set_high(&mut self)
        ensures
            final(self).driven_high(),
            final(self).trace() == old(self).trace().push(ResetEvent::SetHigh),
    ;

    /// Block for at least `ms` milliseconds, holding the line at its
    /// current level.
    fn hold_ms(&mut self, ms: u32)
        ensures
            final(self).driven_high() == old(self).driven_high(),
            final(self).trace() == old(self).trace().push(ResetEvent::Hold(ms)),
    ;
}

} // verus!
