//! The bus transaction adapter and the generic register access layer.
//!
//! One routine reads any register of the descriptor table: it issues a
//! single write-read transaction covering the register's whole byte
//! span, assembles the bytes big-endian when the span is two bytes
//! wide, and masks the declared value field out. One routine writes any
//! writable register: it issues a single transaction carrying the
//! register address byte and the complete data byte. No register state
//! is cached, no retry is attempted here, and a transport failure is
//! wrapped and handed on untouched.

use vstd::prelude::*;

use crate::bits::{be16, decode_be, extract_field, field_value, width_max};
use crate::error::DeviceError;
use crate::gesture::{declared_gesture_code, decode_gesture, gesture_from_code, Gesture};
use crate::ports::{BusOp, BusPort};
use crate::registers::{
    descriptor, lemma_descriptor_wf, spec_byte_len, spec_descriptor, spec_writable, RegisterId,
};

verus! {

/// The raw register word carried by a read transaction's returned
/// bytes: the single byte, or the two bytes assembled big-endian.
pub open spec fn spec_raw_word(reg: RegisterId, data: Seq<u8>) -> u16
    recommends
        data.len() == spec_byte_len(reg),
{
    if spec_byte_len(reg) == 2 {
        be16(data[0], data[1])
    } else {
        data[0] as u16
    }
}

/// The declared value field of a register, as decoded from the bytes a
/// read transaction brought back.
pub open spec fn spec_register_value(reg: RegisterId, data: Seq<u8>) -> u16 {
    if spec_descriptor(reg).value_width == 16 {
        spec_raw_word(reg, data)
    } else {
        field_value(spec_raw_word(reg, data), 0, spec_descriptor(reg).value_width)
    }
}

/// Whether a logged transaction is the one read of `reg` that the
/// access layer issues: a write-read to the right device, starting at
/// the register's address, spanning its whole byte length.
pub open spec fn reads_register(op: BusOp, device_address: u8, reg: RegisterId) -> bool {
    op matches BusOp::WriteRead { device_address: d, address_byte, data, result } && d
        == device_address && address_byte == spec_descriptor(reg).address && data.len()
        == spec_byte_len(reg)
}

/// Whether a logged transaction is the one write of `value` to `reg`
/// that the access layer issues.
pub open spec fn writes_register(op: BusOp, device_address: u8, reg: RegisterId, value: u8) -> bool {
    op matches BusOp::Write { device_address: d, bytes, result } && d == device_address && bytes
        == seq![spec_descriptor(reg).address, value]
}

/// What a register read yields, given the logged transaction it
/// issued: the decoded value field on success, the transport's code
/// wrapped on failure.
pub open spec fn read_outcome(reg: RegisterId, op: BusOp) -> Result<u16, DeviceError>
    recommends
        op is WriteRead,
{
    match op {
        BusOp::WriteRead { data, result, .. } => match result {
            Ok(()) => Ok(spec_register_value(reg, data)),
            Err(code) => Err(DeviceError::Transport(code)),
        },
        BusOp::Write { .. } => Err(DeviceError::Transport(0)),
    }
}

/// What a register write yields, given the logged transaction it
/// issued.
pub open spec fn write_outcome(op: BusOp) -> Result<(), DeviceError>
    recommends
        op is Write,
{
    match op {
        BusOp::Write { result, .. } => match result {
            Ok(()) => Ok(()),
            Err(code) => Err(DeviceError::Transport(code)),
        },
        BusOp::WriteRead { .. } => Err(DeviceError::Transport(0)),
    }
}

/// What the typed gesture read yields from the raw read outcome: the
/// declared variant for a declared code, a decode error naming the raw
/// value otherwise, and the transport error passed through.
pub open spec fn spec_gesture_outcome(raw: Result<u16, DeviceError>) -> Result<
    Gesture,
    DeviceError,
> {
    match raw {
        Err(e) => Err(e),
        Ok(v) => if v < 256 && declared_gesture_code(v as u8) {
            Ok(gesture_from_code(v as u8)->Some_0)
        } else {
            Err(DeviceError::Decode(v))
        },
    }
}

/// Reading a composite register and reading its two constituents
/// decode the same two bytes the same way: the composite's 12-bit
/// value is the high register's nibble in its upper four bits and the
/// low register's byte in its lower eight, and a 16-bit composite is
/// the two full constituent bytes. Both paths agree bit for bit on
/// every overlapping bit range, whatever the bytes are.
pub proof fn lemma_composite_read_agreement(data: Seq<u8>)
    requires
        data.len() == 2,
    ensures
        spec_register_value(RegisterId::Xpos, data) == spec_register_value(
            RegisterId::XposH,
            seq![data[0]],
        ) * 256 + spec_register_value(RegisterId::XposL, seq![data[1]]),
        spec_register_value(RegisterId::Ypos, data) == spec_register_value(
            RegisterId::YposH,
            seq![data[0]],
        ) * 256 + spec_register_value(RegisterId::YposL, seq![data[1]]),
        spec_register_value(RegisterId::Bpc0, data) == spec_register_value(
            RegisterId::Bpc0H,
            seq![data[0]],
        ) * 256 + spec_register_value(RegisterId::Bpc0L, seq![data[1]]),
        spec_register_value(RegisterId::Bpc1, data) == spec_register_value(
            RegisterId::Bpc1H,
            seq![data[0]],
        ) * 256 + spec_register_value(RegisterId::Bpc1L, seq![data[1]]),
{
    let hi = data[0];
    let lo = data[1];
    crate::bits::lemma_composite_field_agreement(hi, lo);
    crate::bits::lemma_be16_exact(hi, lo);
    assert(field_value(hi as u16, 0, 8) == hi && field_value(lo as u16, 0, 8) == lo)
        by (bit_vector);
    assert(be16(hi, lo) == field_value(hi as u16, 0, 8) * 256 + field_value(lo as u16, 0, 8));
}

/// Owns the bus handle and the device address for the session, and
/// turns register operations into bus transactions.
pub struct DeviceInterface<B: BusPort> {
    bus: B,
    device_address: u8,
}

impl<B: BusPort> DeviceInterface<B> {
    /// The history of transactions this interface has issued.
    pub closed spec fn log(&self) -> Seq<BusOp> {
        self.bus.log()
    }

    /// The seven-bit device address every transaction is sent to.
    pub closed spec fn spec_device_address(&self) -> u8 {
        self.device_address
    }

    /// Wrap a bus handle and the address of the peripheral behind it.
    pub fn new(bus: B, device_address: u8) -> (r: Self)
        ensures
            r.log() == bus.log(),
            r.spec_device_address() == device_address,
    {
        DeviceInterface { bus, device_address }
    }

    /// Give the bus handle back, ending the session.
    pub fn release(self) -> (r: B)
        ensures
            r.log() == self.log(),
    {
        self.bus
    }

    /// Read one register: a single write-read transaction spanning the
    /// register's one or two bytes, big-endian assembly, and extraction
    /// of the declared value field. The value is always within the
    /// declared field width; any transport failure is passed through.
    pub fn read_register(&mut self, reg: RegisterId) -> (r: Result<u16, DeviceError>)
        ensures
            final(self).spec_device_address() == old(self).spec_device_address(),
            final(self).log() == old(self).log().push(final(self).log().last()),
            reads_register(final(self).log().last(), old(self).spec_device_address(), reg),
            r == read_outcome(reg, final(self).log().last()),
            r matches Ok(v) ==> v < width_max(spec_descriptor(reg).value_width),
            r matches Err(e) ==> e matches DeviceError::Transport(_),
    {
        proof {
            lemma_descriptor_wf(reg);
        }
        let d = descriptor(reg);
        let two_bytes: bool = d.size_bits > 8;
        let mut out: Vec<u8> = if two_bytes {
            vec![0u8, 0u8]
        } else {
            vec![0u8]
        };
        match self.bus.bus_write_read(self.device_address, d.address, &mut out) {
            Err(code) => Err(DeviceError::from(code)),
            Ok(()) => {
                let raw: u16 = if two_bytes {
                    decode_be(out[0], out[1])
                } else {
                    out[0] as u16
                };
                if d.value_width == 16 {
                    Ok(raw)
                } else {
                    Ok(extract_field(raw, 0, d.value_width))
                }
            },
        }
    }

    /// Typed read of the gesture-id register: the declared enum
    /// decoding applied to the extracted value, failing with a decode
    /// error — never a silent default — when the raw value matches no
    /// declared variant.
    pub fn read_gesture(&mut self) -> (r: Result<Gesture, DeviceError>)
        ensures
            final(self).spec_device_address() == old(self).spec_device_address(),
            final(self).log() == old(self).log().push(final(self).log().last()),
            reads_register(
                final(self).log().last(),
                old(self).spec_device_address(),
                RegisterId::GestureId,
            ),
            r == spec_gesture_outcome(
                read_outcome(RegisterId::GestureId, final(self).log().last()),
            ),
    {
        match self.read_register(RegisterId::GestureId) {
            Err(e) => Err(e),
            Ok(v) => decode_gesture(v as u8),
        }
    }

    /// Write one writable register: a single transaction carrying the
    /// register address byte and the complete data byte assembled from
    /// the declared fields. Any transport failure is passed through.
    pub fn write_register(&mut self, reg: RegisterId, value: u8) -> (r: Result<(), DeviceError>)
        requires
            spec_writable(reg),
            value < width_max(spec_descriptor(reg).size_bits),
        ensures
            final(self).spec_device_address() == old(self).spec_device_address(),
            final(self).log() == old(self).log().push(final(self).log().last()),
            writes_register(
                final(self).log().last(),
                old(self).spec_device_address(),
                reg,
                value,
            ),
            r == write_outcome(final(self).log().last()),
            r matches Err(e) ==> e matches DeviceError::Transport(_),
    {
        let d = descriptor(reg);
        let mut bytes: Vec<u8> = Vec::new();
        bytes.push(d.address);
        bytes.push(value);
        proof {
            assert(bytes@ =~= seq![spec_descriptor(reg).address, value]);
        }
        match self.bus.bus_write(self.device_address, &bytes) {
            Err(code) => Err(DeviceError::from(code)),
            Ok(()) => Ok(()),
        }
    }
}

} // verus!
