//! Tests for the pure codec layer: pulse-width validation, gesture
//! decoding, bit-field extraction and the descriptor table.

use cst816s_driver::bits::{decode_be, extract_field};
use cst816s_driver::error::DeviceError;
use cst816s_driver::gesture::decode_gesture;
use cst816s_driver::pulse::PulseWidth;
use cst816s_driver::registers::{
    descriptor, io_ctl_byte, irq_ctl_byte, motion_mask_byte, Access, RegisterId,
};
use cst816s_driver::Gesture;

#[test]
fn pulse_width_round_trips_over_declared_range() {
    for v in 1u8..=200u8 {
        let p = PulseWidth::new(v).expect("in-range pulse width accepted");
        assert_eq!(p.get(), v);
        let again = PulseWidth::new(p.get()).expect("stored byte accepted again");
        assert_eq!(again.get(), v);
        assert_eq!(u8::from(again), v);
    }
}

#[test]
fn pulse_width_rejected_outside_declared_range() {
    assert_eq!(PulseWidth::new(0), Err(DeviceError::Validation(0)));
    for v in 201u8..=255u8 {
        assert_eq!(PulseWidth::new(v), Err(DeviceError::Validation(v)));
    }
}

#[test]
fn gesture_codes_decode_to_their_variants() {
    assert_eq!(decode_gesture(0x00), Ok(Gesture::NoGesture));
    assert_eq!(decode_gesture(0x01), Ok(Gesture::SlideUp));
    assert_eq!(decode_gesture(0x02), Ok(Gesture::SlideDown));
    assert_eq!(decode_gesture(0x03), Ok(Gesture::SlideLeft));
    assert_eq!(decode_gesture(0x04), Ok(Gesture::SlideRight));
    assert_eq!(decode_gesture(0x05), Ok(Gesture::SingleClick));
    assert_eq!(decode_gesture(0x0b), Ok(Gesture::DoubleClick));
    assert_eq!(decode_gesture(0x0c), Ok(Gesture::LongPress));
}

#[test]
fn unknown_gesture_codes_are_rejected_never_defaulted() {
    for raw in 0u8..=255u8 {
        let declared = matches!(raw, 0x00..=0x05 | 0x0b | 0x0c);
        let r = decode_gesture(raw);
        if declared {
            assert!(r.is_ok());
        } else {
            assert_eq!(r, Err(DeviceError::Decode(raw as u16)));
            assert_ne!(r, Ok(Gesture::NoGesture));
        }
    }
}

#[test]
fn composite_assembly_agrees_with_constituents() {
    // The two-byte big-endian read of [0x01, 0x02] is 0x0102, and its
    // 12-bit value field keeps it; the same two bytes read as single
    // registers give the high nibble 0x01 and the low byte 0x02.
    let word = decode_be(0x01, 0x02);
    assert_eq!(word, 0x0102);
    assert_eq!(extract_field(word, 0, 12), 0x0102);
    assert_eq!(extract_field(0x01u16, 0, 4), 0x01);
    assert_eq!(extract_field(0x02u16, 0, 8), 0x02);
    // Overlapping bit ranges agree bit for bit.
    assert_eq!(extract_field(word, 0, 12) >> 8, extract_field(0x01u16, 0, 4));
    assert_eq!(extract_field(word, 0, 12) & 0xff, extract_field(0x02u16, 0, 8));
}

#[test]
fn field_extraction_masks_and_shifts() {
    assert_eq!(decode_be(0xab, 0xcd), 0xabcd);
    assert_eq!(extract_field(0xabcd, 0, 12), 0x0bcd);
    assert_eq!(extract_field(0xff, 0, 1), 1);
    assert_eq!(extract_field(0xf4, 0, 3), 4);
    assert_eq!(extract_field(0b1010, 1, 2), 0b01);
}

#[test]
fn descriptor_table_matches_the_address_map() {
    let g = descriptor(RegisterId::GestureId);
    assert_eq!(g.address, 0x01);
    assert_eq!(g.access, Access::ReadOnly);

    let x = descriptor(RegisterId::Xpos);
    assert_eq!(x.address, 0x03);
    assert_eq!(x.size_bits, 16);
    assert_eq!(x.value_width, 12);

    let xl = descriptor(RegisterId::XposL);
    assert_eq!(xl.address, 0x04);

    let y = descriptor(RegisterId::Ypos);
    assert_eq!(y.address, 0x05);

    let chip = descriptor(RegisterId::ChipId);
    assert_eq!(chip.address, 0xa7);
    assert_eq!(chip.access, Access::ReadOnly);

    let pw = descriptor(RegisterId::IrqPulseWidth);
    assert_eq!(pw.address, 0xed);
    assert_eq!(pw.access, Access::ReadWrite);
    assert_eq!(pw.reset_value, Some(10));

    let ds = descriptor(RegisterId::DeepSleep);
    assert_eq!(ds.address, 0xe5);
    assert_eq!(ds.reset_value, Some(0x03));
    assert!(ds.provisional);

    let nsp = descriptor(RegisterId::NorScanPer);
    assert_eq!(nsp.address, 0xee);
    assert_eq!(nsp.reset_value, Some(1));

    let bpc1 = descriptor(RegisterId::Bpc1);
    assert_eq!(bpc1.address, 0xb2);
    assert_eq!(bpc1.size_bits, 16);
    assert_eq!(bpc1.value_width, 16);

    let das = descriptor(RegisterId::DisAutoSleep);
    assert_eq!(das.address, 0xfe);
}

#[test]
fn flag_bytes_assemble_declared_bits_only() {
    assert_eq!(motion_mask_byte(false, false, false), 0);
    assert_eq!(motion_mask_byte(true, false, false), 0b001);
    assert_eq!(motion_mask_byte(false, true, false), 0b010);
    assert_eq!(motion_mask_byte(false, false, true), 0b100);
    assert_eq!(motion_mask_byte(true, true, true), 0b111);

    assert_eq!(irq_ctl_byte(false, false, false, false, false), 0);
    assert_eq!(irq_ctl_byte(true, false, false, false, false), 0x01);
    assert_eq!(irq_ctl_byte(false, true, false, false, false), 0x10);
    assert_eq!(irq_ctl_byte(false, false, true, false, false), 0x20);
    assert_eq!(irq_ctl_byte(false, false, false, true, false), 0x40);
    assert_eq!(irq_ctl_byte(false, false, false, false, true), 0x80);
    assert_eq!(irq_ctl_byte(true, true, true, true, false), 0x71);

    assert_eq!(io_ctl_byte(true, false, false), 0b001);
    assert_eq!(io_ctl_byte(false, true, false), 0b010);
    assert_eq!(io_ctl_byte(false, false, true), 0b100);
}
