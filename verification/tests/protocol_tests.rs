//! Tests for the register access layer and the sampling protocol,
//! driven through a scripted mock of the port traits.

use cst816s_driver::driver::{assemble_event, assemble_event_full, CST816S};
use cst816s_driver::error::DeviceError;
use cst816s_driver::interface::DeviceInterface;
use cst816s_driver::ports::{BusPort, InterruptInput, ResetEvent, ResetOutput};
use cst816s_driver::registers::RegisterId;
use cst816s_driver::{Gesture, TouchEvent, TouchEventFull};

/// A scripted bus: hands out queued read responses in order and
/// records every transaction issued through it.
struct MockBus {
    /// Queued outcomes for write-read transactions, front first.
    read_script: Vec<Result<Vec<u8>, u32>>,
    /// Queued outcomes for write transactions, front first; an empty
    /// queue answers every write with success.
    write_script: Vec<Result<(), u32>>,
    /// Recorded write transactions: device address and wire bytes.
    writes: Vec<(u8, Vec<u8>)>,
    /// Recorded write-read transactions: device address, register
    /// address byte, read length.
    write_reads: Vec<(u8, u8, usize)>,
}

impl MockBus {
    fn new(read_script: Vec<Result<Vec<u8>, u32>>) -> Self {
        MockBus { read_script, write_script: Vec::new(), writes: Vec::new(), write_reads: Vec::new() }
    }

    fn transactions(&self) -> usize {
        self.writes.len() + self.write_reads.len()
    }
}

impl BusPort for MockBus {
    fn bus_write(&mut self, device_address: u8, bytes: &Vec<u8>) -> Result<(), u32> {
        self.writes.push((device_address, bytes.clone()));
        if self.write_script.is_empty() {
            Ok(())
        } else {
            self.write_script.remove(0)
        }
    }

    fn bus_write_read(
        &mut self,
        device_address: u8,
        address_byte: u8,
        out: &mut Vec<u8>,
    ) -> Result<(), u32> {
        self.write_reads.push((device_address, address_byte, out.len()));
        assert!(!self.read_script.is_empty(), "unexpected bus read");
        match self.read_script.remove(0) {
            Ok(data) => {
                assert_eq!(data.len(), out.len(), "scripted response length");
                for (slot, byte) in out.iter_mut().zip(data.iter()) {
                    *slot = *byte;
                }
                Ok(())
            }
            Err(code) => Err(code),
        }
    }
}

struct MockInterrupt {
    low: bool,
}

impl InterruptInput for MockInterrupt {
    fn is_low(&mut self) -> bool {
        self.low
    }
}

struct MockReset {
    high: bool,
    events: Vec<ResetEvent>,
}

impl ResetOutput for MockReset {
    fn set_low(&mut self) {
        self.high = false;
        self.events.push(ResetEvent::SetLow);
    }

    fn set_high(&mut self) {
        self.high = true;
        self.events.push(ResetEvent::SetHigh);
    }

    fn hold_ms(&mut self, ms: u32) {
        self.events.push(ResetEvent::Hold(ms));
    }
}

fn session(
    read_script: Vec<Result<Vec<u8>, u32>>,
    interrupt_low: bool,
) -> CST816S<MockBus, MockInterrupt, MockReset> {
    session_with(MockBus::new(read_script), interrupt_low)
}

fn session_with(bus: MockBus, interrupt_low: bool) -> CST816S<MockBus, MockInterrupt, MockReset> {
    CST816S::new(
        bus,
        0x15,
        MockInterrupt { low: interrupt_low },
        MockReset { high: true, events: Vec::new() },
    )
}

#[test]
fn device_read_chip_id() {
    let bus = MockBus::new(vec![Ok(vec![0x23])]);
    let mut interface = DeviceInterface::new(bus, 0x15);

    let version = interface.read_register(RegisterId::ChipId).unwrap();

    println!("Version: {version:X}");
    assert_eq!(version, 0x23);
}

#[test]
fn read_xpos() {
    let bus = MockBus::new(vec![Ok(vec![0x01]), Ok(vec![0x02]), Ok(vec![0x01, 0x02])]);
    let mut interface = DeviceInterface::new(bus, 0x15);

    let xh = interface.read_register(RegisterId::XposH).unwrap();
    let xl = interface.read_register(RegisterId::XposL).unwrap();
    let x = interface.read_register(RegisterId::Xpos).unwrap();

    println!("xh: {xh:X}");
    println!("xl: {xl:X}");
    println!("x: {x:X}");
    assert_eq!(xh, 0x01);
    assert_eq!(xl, 0x02);
    assert_eq!(x, 0x0102);
}

#[test]
fn lib_read_chip_id() {
    let bus = MockBus::new(vec![Ok(vec![0x23])]);
    let mut interface = DeviceInterface::new(bus, 0x15);

    let version = interface.read_register(RegisterId::ChipId).unwrap();

    println!("Version: {version:X}");
    assert_eq!(version, 0x23);
}

#[test]
fn typed_gesture_read_decodes_or_rejects() {
    let bus = MockBus::new(vec![Ok(vec![0x04]), Ok(vec![0x07]), Err(11)]);
    let mut interface = DeviceInterface::new(bus, 0x15);
    assert_eq!(interface.read_gesture(), Ok(Gesture::SlideRight));
    assert_eq!(interface.read_gesture(), Err(DeviceError::Decode(7)));
    assert_eq!(interface.read_gesture(), Err(DeviceError::Transport(11)));
    let bus = interface.release();
    assert_eq!(bus.write_reads, vec![(0x15, 0x01, 1), (0x15, 0x01, 1), (0x15, 0x01, 1)]);
}

#[test]
fn transport_error_code_is_wrapped_untouched() {
    assert_eq!(DeviceError::from(5u32), DeviceError::Transport(5));
}

#[test]
fn read_register_addresses_and_lengths() {
    let mut s = session(
        vec![Ok(vec![0x01, 0x02]), Ok(vec![0x03, 0x04]), Ok(vec![0x05]), Ok(vec![0xaa, 0xbb]), Ok(
            vec![0x01, 0xff],
        )],
        true,
    );
    let e = s.event().unwrap();
    assert_eq!(e.point, (0x0102, 0x0304));
    // Every transaction went to the device at 0x15: x then y then
    // gesture then the two calibration channels, composites two bytes
    // wide, single registers one.
    let (bus, _, _) = s.release();
    assert_eq!(
        bus.write_reads,
        vec![
            (0x15, 0x03, 2),
            (0x15, 0x05, 2),
            (0x15, 0x01, 1),
            (0x15, 0xb0, 2),
            (0x15, 0xb2, 2),
        ]
    );
}

#[test]
fn sampling_idle_line_touches_no_bus() {
    let mut s = session(vec![], false);
    assert_eq!(s.event(), None);
    assert_eq!(s.event_minimal(), None);
    assert_eq!(s.read_chip_id(), None);
    let (bus, _, _) = s.release();
    assert_eq!(bus.transactions(), 0);
}

#[test]
fn sampling_success_yields_the_decoded_event() {
    let mut s = session(
        vec![Ok(vec![0x01, 0x02]), Ok(vec![0x03, 0x04]), Ok(vec![0x05]), Ok(vec![0xaa, 0xbb]), Ok(
            vec![0x01, 0xff],
        )],
        true,
    );
    let e = s.event();
    assert_eq!(
        e,
        Some(TouchEventFull {
            point: (0x0102, 0x0304),
            gesture: Gesture::SingleClick,
            bpc0: 0xaabb,
            bpc1: 0x01ff,
        })
    );
}

#[test]
fn sampling_minimal_success_yields_the_decoded_event() {
    let mut s = session(vec![Ok(vec![0x00, 0x10]), Ok(vec![0x0f, 0xff]), Ok(vec![0x0c])], true);
    let e = s.event_minimal();
    assert_eq!(e, Some(TouchEvent { point: (0x0010, 0x0fff), gesture: Gesture::LongPress }));
    let (bus, _, _) = s.release();
    assert_eq!(bus.transactions(), 3);
}

#[test]
fn sampling_with_one_failed_read_yields_no_event() {
    let mut s = session(
        vec![Ok(vec![0x01, 0x02]), Err(7), Ok(vec![0x05]), Ok(vec![0xaa, 0xbb]), Ok(vec![
            0x01, 0xff,
        ])],
        true,
    );
    assert_eq!(s.event(), None);
}

#[test]
fn sampling_with_undeclared_gesture_yields_no_event() {
    let mut s = session(
        vec![Ok(vec![0x01, 0x02]), Ok(vec![0x03, 0x04]), Ok(vec![0x06]), Ok(vec![0xaa, 0xbb]), Ok(
            vec![0x01, 0xff],
        )],
        true,
    );
    assert_eq!(s.event(), None);
}

#[test]
fn assemble_never_surfaces_partial_data() {
    assert_eq!(assemble_event(Err(DeviceError::Transport(1)), Ok(2), Ok(0)), None);
    assert_eq!(assemble_event(Ok(1), Err(DeviceError::Transport(2)), Ok(0)), None);
    assert_eq!(assemble_event(Ok(1), Ok(2), Err(DeviceError::Transport(3))), None);
    assert_eq!(assemble_event(Ok(1), Ok(2), Ok(0x06)), None);
    assert_eq!(
        assemble_event(Ok(1), Ok(2), Ok(0x03)),
        Some(TouchEvent { point: (1, 2), gesture: Gesture::SlideLeft })
    );
    assert_eq!(
        assemble_event_full(Ok(1), Ok(2), Ok(0x00), Err(DeviceError::Transport(4)), Ok(5)),
        None
    );
}

#[test]
fn chip_id_read_gated_by_interrupt_line() {
    let mut asserted = session(vec![Ok(vec![0x23])], true);
    assert_eq!(asserted.read_chip_id(), Some(0x23));
    let (bus, _, _) = asserted.release();
    assert_eq!(bus.write_reads, vec![(0x15, 0xa7, 1)]);

    let mut idle = session(vec![], false);
    assert_eq!(idle.read_chip_id(), None);
    let (bus, _, _) = idle.release();
    assert_eq!(bus.transactions(), 0);
}

#[test]
fn chip_id_read_folds_transport_failure() {
    let mut s = session(vec![Err(42)], true);
    assert_eq!(s.read_chip_id(), None);
}

#[test]
fn reset_pulses_the_line_and_waits() {
    let mut s = session(vec![], false);
    s.reset();
    let (bus, _, reset) = s.release();
    assert_eq!(bus.transactions(), 0);
    assert!(reset.high);
    assert_eq!(
        reset.events,
        vec![ResetEvent::SetLow, ResetEvent::Hold(20), ResetEvent::SetHigh, ResetEvent::Hold(50)]
    );
}

#[test]
fn init_config_writes_the_batch_in_order() {
    let mut s = session(vec![], false);
    assert_eq!(s.init_config(), Ok(()));
    let (bus, _, _) = s.release();
    assert_eq!(
        bus.writes,
        vec![
            (0x15, vec![0xfa, 0x71]),
            (0x15, vec![0xec, 0x07]),
            (0x15, vec![0xfe, 0xfe]),
            (0x15, vec![0xed, 0x01]),
            (0x15, vec![0xee, 0x01]),
        ]
    );
}

#[test]
fn init_config_aborts_on_first_failure() {
    let mut bus = MockBus::new(vec![]);
    bus.write_script = vec![Err(9)];
    let mut s = session_with(bus, false);
    assert_eq!(s.init_config(), Err(DeviceError::Transport(9)));
    let (bus, _, _) = s.release();
    assert_eq!(bus.writes.len(), 1);
    assert_eq!(bus.writes[0], (0x15, vec![0xfa, 0x71]));

    // A mid-batch failure surfaces after exactly the attempted prefix,
    // in the prescribed order.
    let mut bus = MockBus::new(vec![]);
    bus.write_script = vec![Ok(()), Ok(()), Err(4)];
    let mut s = session_with(bus, false);
    assert_eq!(s.init_config(), Err(DeviceError::Transport(4)));
    let (bus, _, _) = s.release();
    assert_eq!(
        bus.writes,
        vec![(0x15, vec![0xfa, 0x71]), (0x15, vec![0xec, 0x07]), (0x15, vec![0xfe, 0xfe])]
    );
}

#[test]
fn set_irq_pulse_width_writes_the_stored_byte() {
    let mut s = session(vec![], false);
    let pw = cst816s_driver::PulseWidth::new(10).unwrap();
    assert_eq!(s.set_irq_pulse_width(pw), Ok(()));
    let (bus, _, _) = s.release();
    assert_eq!(bus.writes, vec![(0x15, vec![0xed, 10])]);
}

#[test]
fn write_rejected_transport_error_is_wrapped_verbatim() {
    let mut bus = MockBus::new(vec![]);
    bus.write_script = vec![Err(0xdead)];
    let mut s = session_with(bus, false);
    let pw = cst816s_driver::PulseWidth::new(1).unwrap();
    assert_eq!(s.set_irq_pulse_width(pw), Err(DeviceError::Transport(0xdead)));
}
