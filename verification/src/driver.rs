//! The high-level façade and the touch sampling protocol.
//!
//! The façade owns the bus handle, the interrupt-sense input and the
//! reset output for the lifetime of the session. Sampling is a complete
//! attempt per call: if the interrupt line is not asserted the call
//! yields no event and touches the bus not at all; if it is asserted,
//! the required registers are read in order and the outcome is
//! assembled by a pure routine that never surfaces partial data — any
//! failed read, or a gesture code outside the declared set, drops the
//! whole sample.
//!
//! Every contract here is stated over the ghost transaction history of
//! the bus port: what a call returns is pinned down as a function of
//! the transactions it issued and the bytes they brought back.

use vstd::prelude::*;

use crate::error::DeviceError;
use crate::event::{TouchEvent, TouchEventFull};
use crate::gesture::{declared_gesture_code, decode_gesture, gesture_from_code};
use crate::interface::{read_outcome, reads_register, write_outcome, writes_register, DeviceInterface};
use crate::ports::{BusOp, BusPort, InterruptInput, ResetEvent, ResetOutput};
use crate::pulse::PulseWidth;
use crate::registers::{
    irq_ctl_byte, motion_mask_byte, spec_irq_ctl_byte, spec_motion_mask_byte, RegisterId,
};

verus! {

/// Whether a gesture-register read outcome carries a declared gesture
/// code: the read succeeded and its value is one of the known bytes.
pub open spec fn gesture_read_valid(gesture: Result<u16, DeviceError>) -> bool {
    gesture matches Ok(g) && g < 256 && declared_gesture_code(g as u8)
}

/// What one minimal sampling attempt assembles from its three read
/// outcomes: an event exactly when every read succeeded and the
/// gesture code is declared, and nothing otherwise.
pub open spec fn spec_assemble_event(
    x: Result<u16, DeviceError>,
    y: Result<u16, DeviceError>,
    gesture: Result<u16, DeviceError>,
) -> Option<TouchEvent> {
    if x is Ok && y is Ok && gesture_read_valid(gesture) {
        Some(
            TouchEvent {
                point: (x->Ok_0, y->Ok_0),
                gesture: gesture_from_code(gesture->Ok_0 as u8)->Some_0,
            },
        )
    } else {
        None
    }
}

/// What one full sampling attempt assembles from its five read
/// outcomes.
pub open spec fn spec_assemble_event_full(
    x: Result<u16, DeviceError>,
    y: Result<u16, DeviceError>,
    gesture: Result<u16, DeviceError>,
    bpc0: Result<u16, DeviceError>,
    bpc1: Result<u16, DeviceError>,
) -> Option<TouchEventFull> {
    if x is Ok && y is Ok && bpc0 is Ok && bpc1 is Ok && gesture_read_valid(gesture) {
        Some(
            TouchEventFull {
                point: (x->Ok_0, y->Ok_0),
                gesture: gesture_from_code(gesture->Ok_0 as u8)->Some_0,
                bpc0: bpc0->Ok_0,
                bpc1: bpc1->Ok_0,
            },
        )
    } else {
        None
    }
}

/// Assemble the minimal event from the three read outcomes of one
/// sampling attempt. Partial or inconsistent data is never surfaced.
pub fn assemble_event(
    x: Result<u16, DeviceError>,
    y: Result<u16, DeviceError>,
    gesture: Result<u16, DeviceError>,
) -> (r: Option<TouchEvent>)
    ensures
        r == spec_assemble_event(x, y, gesture),
        r is Some <==> x is Ok && y is Ok && gesture_read_valid(gesture),
        r matches Some(e) ==> {
            &&& x matches Ok(xv) && e.point.0 == xv
            &&& y matches Ok(yv) && e.point.1 == yv
            &&& gesture matches Ok(g) && gesture_from_code(g as u8) == Some(e.gesture)
        },
{
    let xv = match x {
        Ok(v) => v,
        Err(_) => {
            return None;
        },
    };
    let yv = match y {
        Ok(v) => v,
        Err(_) => {
            return None;
        },
    };
    let g = match gesture {
        Ok(v) => v,
        Err(_) => {
            return None;
        },
    };
    if g > 255 {
        return None;
    }
    match decode_gesture(g as u8) {
        Ok(ges) => Some(TouchEvent { point: (xv, yv), gesture: ges }),
        Err(_) => None,
    }
}

/// Assemble the full event — position, gesture and both calibration
/// channels — from the five read outcomes of one sampling attempt.
/// Partial or inconsistent data is never surfaced.
pub fn assemble_event_full(
    x: Result<u16, DeviceError>,
    y: Result<u16, DeviceError>,
    gesture: Result<u16, DeviceError>,
    bpc0: Result<u16, DeviceError>,
    bpc1: Result<u16, DeviceError>,
) -> (r: Option<TouchEventFull>)
    ensures
        r == spec_assemble_event_full(x, y, gesture, bpc0, bpc1),
        r is Some <==> x is Ok && y is Ok && bpc0 is Ok && bpc1 is Ok && gesture_read_valid(
            gesture,
        ),
        r matches Some(e) ==> {
            &&& x matches Ok(xv) && e.point.0 == xv
            &&& y matches Ok(yv) && e.point.1 == yv
            &&& gesture matches Ok(g) && gesture_from_code(g as u8) == Some(e.gesture)
            &&& bpc0 matches Ok(b0) && e.bpc0 == b0
            &&& bpc1 matches Ok(b1) && e.bpc1 == b1
        },
{
    let xv = match x {
        Ok(v) => v,
        Err(_) => {
            return None;
        },
    };
    let yv = match y {
        Ok(v) => v,
        Err(_) => {
            return None;
        },
    };
    let g = match gesture {
        Ok(v) => v,
        Err(_) => {
            return None;
        },
    };
    let b0 = match bpc0 {
        Ok(v) => v,
        Err(_) => {
            return None;
        },
    };
    let b1 = match bpc1 {
        Ok(v) => v,
        Err(_) => {
            return None;
        },
    };
    if g > 255 {
        return None;
    }
    match decode_gesture(g as u8) {
        Ok(ges) => Some(TouchEventFull { point: (xv, yv), gesture: ges, bpc0: b0, bpc1: b1 }),
        Err(_) => None,
    }
}

/// Whether `l` extends `o` by exactly the three reads of a minimal
/// sampling attempt: x position, y position, gesture, in that order.
pub open spec fn sample_reads_minimal(o: Seq<BusOp>, l: Seq<BusOp>, device_address: u8) -> bool {
    &&& l.len() == o.len() + 3
    &&& l.subrange(0, o.len() as int) == o
    &&& reads_register(l[o.len() as int], device_address, RegisterId::Xpos)
    &&& reads_register(l[o.len() as int + 1], device_address, RegisterId::Ypos)
    &&& reads_register(l[o.len() as int + 2], device_address, RegisterId::GestureId)
}

/// What a minimal sampling attempt yields, as a function of the three
/// logged reads.
pub open spec fn sampled_event_minimal(o: Seq<BusOp>, l: Seq<BusOp>) -> Option<TouchEvent> {
    spec_assemble_event(
        read_outcome(RegisterId::Xpos, l[o.len() as int]),
        read_outcome(RegisterId::Ypos, l[o.len() as int + 1]),
        read_outcome(RegisterId::GestureId, l[o.len() as int + 2]),
    )
}

/// Whether `l` extends `o` by exactly the five reads of a full
/// sampling attempt: x position, y position, gesture, then the two
/// calibration channels, in that order.
pub open spec fn sample_reads_full(o: Seq<BusOp>, l: Seq<BusOp>, device_address: u8) -> bool {
    &&& l.len() == o.len() + 5
    &&& l.subrange(0, o.len() as int) == o
    &&& reads_register(l[o.len() as int], device_address, RegisterId::Xpos)
    &&& reads_register(l[o.len() as int + 1], device_address, RegisterId::Ypos)
    &&& reads_register(l[o.len() as int + 2], device_address, RegisterId::GestureId)
    &&& reads_register(l[o.len() as int + 3], device_address, RegisterId::Bpc0)
    &&& reads_register(l[o.len() as int + 4], device_address, RegisterId::Bpc1)
}

/// What a full sampling attempt yields, as a function of the five
/// logged reads.
pub open spec fn sampled_event_full(o: Seq<BusOp>, l: Seq<BusOp>) -> Option<TouchEventFull> {
    spec_assemble_event_full(
        read_outcome(RegisterId::Xpos, l[o.len() as int]),
        read_outcome(RegisterId::Ypos, l[o.len() as int + 1]),
        read_outcome(RegisterId::GestureId, l[o.len() as int + 2]),
        read_outcome(RegisterId::Bpc0, l[o.len() as int + 3]),
        read_outcome(RegisterId::Bpc1, l[o.len() as int + 4]),
    )
}

/// When every required read of a full sampling attempt succeeded and
/// the gesture code is declared, the attempt surfaces an event whose
/// point is the two decoded coordinates, whose gesture is the decoded
/// gesture byte, and whose calibration readings are the two decoded
/// channels.
pub proof fn lemma_sample_success(
    x: Result<u16, DeviceError>,
    y: Result<u16, DeviceError>,
    gesture: Result<u16, DeviceError>,
    bpc0: Result<u16, DeviceError>,
    bpc1: Result<u16, DeviceError>,
)
    requires
        x is Ok,
        y is Ok,
        bpc0 is Ok,
        bpc1 is Ok,
        gesture_read_valid(gesture),
    ensures
        spec_assemble_event_full(x, y, gesture, bpc0, bpc1) matches Some(e) && e.point == (
            x->Ok_0,
            y->Ok_0,
        ) && gesture_from_code(gesture->Ok_0 as u8) == Some(e.gesture) && e.bpc0 == bpc0->Ok_0
            && e.bpc1 == bpc1->Ok_0,
        spec_assemble_event(x, y, gesture) matches Some(e) && e.point == (x->Ok_0, y->Ok_0)
            && gesture_from_code(gesture->Ok_0 as u8) == Some(e.gesture),
{
}

/// If any required read of a sampling attempt failed, or the gesture
/// code is outside the declared set, the attempt surfaces no event at
/// all — never a partial one.
pub proof fn lemma_sample_failure(
    x: Result<u16, DeviceError>,
    y: Result<u16, DeviceError>,
    gesture: Result<u16, DeviceError>,
    bpc0: Result<u16, DeviceError>,
    bpc1: Result<u16, DeviceError>,
)
    requires
        x is Err || y is Err || bpc0 is Err || bpc1 is Err || !gesture_read_valid(gesture),
    ensures
        spec_assemble_event_full(x, y, gesture, bpc0, bpc1) is None,
        x is Err || y is Err || !gesture_read_valid(gesture) ==> spec_assemble_event(
            x,
            y,
            gesture,
        ) is None,
{
}

/// The configuration batch, in order: each register written and the
/// complete data byte put in it.
pub open spec fn init_config_writes() -> Seq<(RegisterId, u8)> {
    seq![
        (RegisterId::IrqCtl, spec_irq_ctl_byte(true, true, true, true, false)),
        (RegisterId::MotionMask, spec_motion_mask_byte(true, true, true)),
        (RegisterId::DisAutoSleep, 0xfeu8),
        (RegisterId::IrqPulseWidth, 1u8),
        (RegisterId::NorScanPer, 1u8),
    ]
}

/// Whether `l` extends `o` by the first `l.len() - o.len()` writes of
/// the configuration batch, in order: transaction `j` past `o` carries
/// the batch's `j`-th register address and data byte.
pub open spec fn init_writes_prefix(o: Seq<BusOp>, l: Seq<BusOp>, device_address: u8) -> bool {
    &&& o.len() <= l.len() <= o.len() + init_config_writes().len()
    &&& l.subrange(0, o.len() as int) == o
    &&& forall|j: int|
        0 <= j < l.len() - o.len() ==> writes_register(
            #[trigger] l[o.len() + j],
            device_address,
            init_config_writes()[j].0,
            init_config_writes()[j].1,
        )
}

/// The session handle: owns the bus, the interrupt-sense input and the
/// reset output for the lifetime of the peripheral. No register state
/// is cached; every read reflects the hardware at call time.
pub struct CST816S<B: BusPort, I: InterruptInput, R: ResetOutput> {
    device: DeviceInterface<B>,
    interrupt_pin: I,
    reset_pin: R,
}

impl<B: BusPort, I: InterruptInput, R: ResetOutput> CST816S<B, I, R> {
    /// The history of bus transactions this session has issued.
    pub closed spec fn bus_log(&self) -> Seq<BusOp> {
        self.device.log()
    }

    /// The seven-bit device address of the session.
    pub closed spec fn spec_device_address(&self) -> u8 {
        self.device.spec_device_address()
    }

    /// The interrupt level the most recent poll observed (true = low =
    /// a touch is pending).
    pub closed spec fn interrupt_low(&self) -> bool {
        self.interrupt_pin.low()
    }

    /// Whether the reset line is currently driven high.
    pub closed spec fn reset_high(&self) -> bool {
        self.reset_pin.driven_high()
    }

    /// The timeline of edges and holds driven on the reset line.
    pub closed spec fn reset_trace(&self) -> Seq<ResetEvent> {
        self.reset_pin.trace()
    }

    /// Open a session over a bus handle, a device address, and the two
    /// GPIO lines.
    pub fn new(bus: B, address: u8, interrupt_pin: I, reset_pin: R) -> (r: Self)
        ensures
            r.bus_log() == bus.log(),
            r.spec_device_address() == address,
            r.interrupt_low() == interrupt_pin.low(),
            r.reset_high() == reset_pin.driven_high(),
            r.reset_trace() == reset_pin.trace(),
    {
        CST816S { device: DeviceInterface::new(bus, address), interrupt_pin, reset_pin }
    }

    /// Tear the session down and hand the ports back to the caller.
    pub fn release(self) -> (r: (B, I, R))
        ensures
            r.0.log() == self.bus_log(),
            r.1.low() == self.interrupt_low(),
            r.2.driven_high() == self.reset_high(),
            r.2.trace() == self.reset_trace(),
    {
        let CST816S { device, interrupt_pin, reset_pin } = self;
        (device.release(), interrupt_pin, reset_pin)
    }

    /// Reset the device: drive the reset line low and hold it there
    /// 20 ms, then drive it high and hold 50 ms before the device is
    /// usable — exactly that pulse, in that order, as the contract on
    /// the line's timeline demands. The hold times are the hardware's
    /// timing contract. No bus traffic is issued.
    pub fn reset(&mut self)
        ensures
            final(self).reset_high(),
            final(self).reset_trace() == old(self).reset_trace() + seq![
                ResetEvent::SetLow,
                ResetEvent::Hold(20),
                ResetEvent::SetHigh,
                ResetEvent::Hold(50),
            ],
            final(self).bus_log() == old(self).bus_log(),
            final(self).spec_device_address() == old(self).spec_device_address(),
            final(self).interrupt_low() == old(self).interrupt_low(),
    {
        self.reset_pin.set_low();
        self.reset_pin.hold_ms(20);
        self.reset_pin.set_high();
        self.reset_pin.hold_ms(50);
        proof {
            assert(self.reset_pin.trace() =~= old(self).reset_pin.trace() + seq![
                ResetEvent::SetLow,
                ResetEvent::Hold(20),
                ResetEvent::SetHigh,
                ResetEvent::Hold(50),
            ]);
        }
    }

    /// Read the chip identifier if the device signals availability:
    /// when the interrupt line is not asserted the call returns nothing
    /// and issues no bus transaction at all; when it is asserted it
    /// issues exactly one read and yields the byte that came back, or
    /// nothing if the transport failed.
    pub fn read_chip_id(&mut self) -> (r: Option<u8>)
        ensures
            final(self).spec_device_address() == old(self).spec_device_address(),
            final(self).reset_high() == old(self).reset_high(),
            final(self).reset_trace() == old(self).reset_trace(),
            !final(self).interrupt_low() ==> r is None && final(self).bus_log() == old(
                self,
            ).bus_log(),
            final(self).interrupt_low() ==> {
                let l = final(self).bus_log();
                &&& l == old(self).bus_log().push(l.last())
                &&& reads_register(l.last(), old(self).spec_device_address(), RegisterId::ChipId)
                &&& r == (match read_outcome(RegisterId::ChipId, l.last()) {
                    Ok(v) => Some(v as u8),
                    Err(_) => None::<u8>,
                })
            },
            r is Some ==> final(self).interrupt_low(),
    {
        if self.interrupt_pin.is_low() {
            match self.device.read_register(RegisterId::ChipId) {
                Ok(v) => Some(v as u8),
                Err(_) => None,
            }
        } else {
            None
        }
    }

    /// Sample one full touch event — position, gesture, both
    /// calibration channels.
    ///
    /// When the interrupt line is not asserted this is the idle fast
    /// path: no event, and zero bus transactions. When it is asserted,
    /// exactly the five required reads are issued in order and the
    /// result is what [`spec_assemble_event_full`] makes of their
    /// outcomes: any failed read, or an undeclared gesture code, drops
    /// the whole sample; a surfaced event carries the decoded 12-bit
    /// coordinates, the decoded gesture, and both channel readings.
    pub fn event(&mut self) -> (r: Option<TouchEventFull>)
        ensures
            final(self).spec_device_address() == old(self).spec_device_address(),
            final(self).reset_high() == old(self).reset_high(),
            final(self).reset_trace() == old(self).reset_trace(),
            !final(self).interrupt_low() ==> r is None && final(self).bus_log() == old(
                self,
            ).bus_log(),
            final(self).interrupt_low() ==> sample_reads_full(
                old(self).bus_log(),
                final(self).bus_log(),
                old(self).spec_device_address(),
            ) && r == sampled_event_full(old(self).bus_log(), final(self).bus_log()),
            r matches Some(e) ==> final(self).interrupt_low() && e.point.0 < 4096 && e.point.1
                < 4096,
    {
        if !self.interrupt_pin.is_low() {
            return None;
        }
        let ghost o = self.device.log();
        let x = self.device.read_register(RegisterId::Xpos);
        let y = self.device.read_register(RegisterId::Ypos);
        let gesture = self.device.read_register(RegisterId::GestureId);
        let bpc0 = self.device.read_register(RegisterId::Bpc0);
        let bpc1 = self.device.read_register(RegisterId::Bpc1);
        proof {
            assert(self.device.log().subrange(0, o.len() as int) =~= o);
        }
        assemble_event_full(x, y, gesture, bpc0, bpc1)
    }

    /// Sample one minimal touch event — position and gesture only.
    ///
    /// The same protocol as [`CST816S::event`], issuing only the three
    /// required reads.
    pub fn event_minimal(&mut self) -> (r: Option<TouchEvent>)
        ensures
            final(self).spec_device_address() == old(self).spec_device_address(),
            final(self).reset_high() == old(self).reset_high(),
            final(self).reset_trace() == old(self).reset_trace(),
            !final(self).interrupt_low() ==> r is None && final(self).bus_log() == old(
                self,
            ).bus_log(),
            final(self).interrupt_low() ==> sample_reads_minimal(
                old(self).bus_log(),
                final(self).bus_log(),
                old(self).spec_device_address(),
            ) && r == sampled_event_minimal(old(self).bus_log(), final(self).bus_log()),
            r matches Some(e) ==> final(self).interrupt_low() && e.point.0 < 4096 && e.point.1
                < 4096,
    {
        if !self.interrupt_pin.is_low() {
            return None;
        }
        let ghost o = self.device.log();
        let x = self.device.read_register(RegisterId::Xpos);
        let y = self.device.read_register(RegisterId::Ypos);
        let gesture = self.device.read_register(RegisterId::GestureId);
        proof {
            assert(self.device.log().subrange(0, o.len() as int) =~= o);
        }
        assemble_event(x, y, gesture)
    }

    /// Establish the initial configuration: interrupt-trigger
    /// conditions, enabled gesture classes, auto-sleep disable, pulse
    /// width and scan period, as one best-effort batch of five writes.
    /// The first failure aborts the batch and surfaces that write's
    /// error; earlier writes are not rolled back.
    pub fn init_config(&mut self) -> (r: Result<(), DeviceError>)
        ensures
            final(self).spec_device_address() == old(self).spec_device_address(),
            final(self).reset_high() == old(self).reset_high(),
            final(self).reset_trace() == old(self).reset_trace(),
            final(self).interrupt_low() == old(self).interrupt_low(),
            r is Ok ==> {
                let o = old(self).bus_log();
                let l = final(self).bus_log();
                &&& l.len() == o.len() + 5
                &&& init_writes_prefix(o, l, old(self).spec_device_address())
                &&& forall|j: int|
                    o.len() <= j < l.len() ==> #[trigger] write_outcome(l[j]) == Ok::<
                        (),
                        DeviceError,
                    >(())
            },
            r matches Err(e) ==> {
                let o = old(self).bus_log();
                let l = final(self).bus_log();
                &&& e matches DeviceError::Transport(_)
                &&& o.len() < l.len() <= o.len() + 5
                &&& init_writes_prefix(o, l, old(self).spec_device_address())
                &&& forall|j: int|
                    o.len() <= j < l.len() - 1 ==> #[trigger] write_outcome(l[j]) == Ok::<
                        (),
                        DeviceError,
                    >(())
                &&& write_outcome(l.last()) == Err::<(), DeviceError>(e)
            },
    {
        let ghost o = self.device.log();
        let irq = irq_ctl_byte(true, true, true, true, false);
        let r1 = self.device.write_register(RegisterId::IrqCtl, irq);
        let ghost l1 = self.device.log();
        proof {
            assert(l1.subrange(0, o.len() as int) =~= o);
            assert(l1[o.len() as int] == l1.last());
        }
        if let Err(e) = r1 {
            return Err(e);
        }
        let mask = motion_mask_byte(true, true, true);
        let r2 = self.device.write_register(RegisterId::MotionMask, mask);
        let ghost l2 = self.device.log();
        proof {
            assert(l2.subrange(0, o.len() as int) =~= o);
            assert(l2[o.len() as int] == l1.last());
            assert(l2[o.len() as int + 1] == l2.last());
        }
        if let Err(e) = r2 {
            return Err(e);
        }
        let r3 = self.device.write_register(RegisterId::DisAutoSleep, 0xfe);
        let ghost l3 = self.device.log();
        proof {
            assert(l3.subrange(0, o.len() as int) =~= o);
            assert(l3[o.len() as int] == l1.last());
            assert(l3[o.len() as int + 1] == l2.last());
            assert(l3[o.len() as int + 2] == l3.last());
        }
        if let Err(e) = r3 {
            return Err(e);
        }
        let pw = match PulseWidth::new(1) {
            Ok(p) => p,
            Err(e) => {
                return Err(e);
            },
        };
        let r4 = self.device.write_register(RegisterId::IrqPulseWidth, pw.get());
        let ghost l4 = self.device.log();
        proof {
            assert(l4.subrange(0, o.len() as int) =~= o);
            assert(l4[o.len() as int] == l1.last());
            assert(l4[o.len() as int + 1] == l2.last());
            assert(l4[o.len() as int + 2] == l3.last());
            assert(l4[o.len() as int + 3] == l4.last());
        }
        if let Err(e) = r4 {
            return Err(e);
        }
        let r5 = self.device.write_register(RegisterId::NorScanPer, 1);
        let ghost l5 = self.device.log();
        proof {
            assert(l5.subrange(0, o.len() as int) =~= o);
            assert(l5[o.len() as int] == l1.last());
            assert(l5[o.len() as int + 1] == l2.last());
            assert(l5[o.len() as int + 2] == l3.last());
            assert(l5[o.len() as int + 3] == l4.last());
            assert(l5[o.len() as int + 4] == l5.last());
        }
        if let Err(e) = r5 {
            return Err(e);
        }
        Ok(())
    }

    /// Set the interrupt low-pulse width register from a validated
    /// pulse width: one write transaction carrying its stored byte.
    pub fn set_irq_pulse_width(&mut self, pulse_width: PulseWidth) -> (r: Result<(), DeviceError>)
        ensures
            final(self).spec_device_address() == old(self).spec_device_address(),
            final(self).reset_high() == old(self).reset_high(),
            final(self).reset_trace() == old(self).reset_trace(),
            final(self).interrupt_low() == old(self).interrupt_low(),
            final(self).bus_log() == old(self).bus_log().push(final(self).bus_log().last()),
            writes_register(
                final(self).bus_log().last(),
                old(self).spec_device_address(),
                RegisterId::IrqPulseWidth,
                pulse_width.spec_value(),
            ),
            r == write_outcome(final(self).bus_log().last()),
    {
        self.device.write_register(RegisterId::IrqPulseWidth, pulse_width.get())
    }
}

} // verus!
