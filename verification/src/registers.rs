//! The register descriptor set: one entry per hardware register, the
//! single source of truth for its address, width, access mode, declared
//! bit layout and reset value.
//!
//! Two kinds of entry are special. Composite (virtual) registers span
//! two physically adjacent byte registers and are read in one two-byte
//! bus transaction; they declare their address overlap with their
//! constituents as intentional. Provisional entries come from vendor or
//! community sources rather than the datasheet and are flagged
//! distinctly so the confidence levels are not conflated.

use vstd::prelude::*;

verus! {

/// Whether the host may write a register or only read it.
#[derive(Clone, Copy, Debug, PartialEq, Eq, Structural)]
pub enum Access {
    ReadOnly,
    ReadWrite,
}

/// Every register the driver knows, physical and composite.
#[derive(Clone, Copy, Debug, PartialEq, Eq, Structural)]
pub enum RegisterId {
    /// Gesture classified by the hardware (read-only).
    GestureId,
    /// Number of fingers, zero or one (read-only).
    FingerNum,
    /// High nibble of the 12-bit x position (read-only).
    XposH,
    /// Low byte of the 12-bit x position (read-only).
    XposL,
    /// Composite 12-bit x position spanning `XposH` and `XposL`.
    Xpos,
    /// High nibble of the 12-bit y position (read-only).
    YposH,
    /// Low byte of the 12-bit y position (read-only).
    YposL,
    /// Composite 12-bit y position spanning `YposH` and `YposL`.
    Ypos,
    /// High byte of the 16-bit BPC0 calibration channel (read-only).
    Bpc0H,
    /// Low byte of the 16-bit BPC0 calibration channel (read-only).
    Bpc0L,
    /// Composite 16-bit BPC0 value spanning `Bpc0H` and `Bpc0L`.
    Bpc0,
    /// High byte of the 16-bit BPC1 calibration channel (read-only).
    Bpc1H,
    /// Low byte of the 16-bit BPC1 calibration channel (read-only).
    Bpc1L,
    /// Composite 16-bit BPC1 value spanning `Bpc1H` and `Bpc1L`.
    Bpc1,
    /// Chip identifier (read-only).
    ChipId,
    /// Project identifier (read-only).
    ProjId,
    /// Firmware version (read-only).
    FwVersion,
    /// Deep-sleep command register; community-sourced, not in the
    /// datasheet.
    DeepSleep,
    /// Which motion actions are enabled (bit flags).
    MotionMask,
    /// Interrupt low-pulse output width, unit 0.1 ms, range 1 to 200.
    IrqPulseWidth,
    /// Normal quick-scanning period, unit 10 ms, range 1 to 30.
    NorScanPer,
    /// Gesture-detection sliding-area angle control.
    MotionSlAngle,
    /// High byte of the low-power scanning channel 1 reference.
    LpScanRaw1H,
    /// Low byte of the low-power scanning channel 1 reference.
    LpScanRaw1L,
    /// High byte of the low-power scanning channel 2 reference.
    LpScanRaw2H,
    /// Low byte of the low-power scanning channel 2 reference.
    LpScanRaw2L,
    /// Automatic recalibration period in low-power mode, unit 1 minute.
    LpAutoWakeTime,
    /// Low-power scanning wake-up threshold.
    LpScanTh,
    /// Low-power scanning range.
    LpScanWin,
    /// Low-power scanning frequency.
    LpScanFreq,
    /// Low-power scanning current.
    LpScanIdac,
    /// Seconds without touch before entering low-power mode.
    AutoSleepTime,
    /// When to pulse the interrupt pin low (bit flags).
    IrqCtl,
    /// Seconds of touch without valid gesture before automatic reset.
    AutoReset,
    /// Seconds of long press before automatic reset.
    LongPressTime,
    /// IO control (bit flags).
    IoCtl,
    /// Non-zero disables automatic entry into low-power mode.
    DisAutoSleep,
}

/// One declared bit sub-field: its bit offset, width, and whether it is
/// read as a boolean flag.
#[derive(Clone, Copy, Debug, PartialEq, Eq, Structural)]
pub struct FieldSpec {
    pub offset: u16,
    pub width: u16,
    pub boolean: bool,
}

/// Static metadata for one register.
#[derive(Clone, Copy, Debug, PartialEq, Eq, Structural)]
pub struct RegisterDescriptor {
    /// Address of the first (or only) byte of the register.
    pub address: u8,
    /// Total bits of the byte span read or written on the bus: 8 or 16.
    pub size_bits: u16,
    /// Width of the declared value span, starting at bit 0.
    pub value_width: u16,
    /// Whether the host may write this register.
    pub access: Access,
    /// The value the register holds after reset, where documented.
    pub reset_value: Option<u8>,
    /// Whether this entry deliberately shares addresses with another
    /// (a composite register, or one of its constituents).
    pub overlapping: bool,
    /// Whether the entry is vendor- or community-sourced rather than
    /// datasheet-confirmed.
    pub provisional: bool,
}

/// The descriptor table itself: the single source of truth per register.
pub open spec fn spec_descriptor(reg: RegisterId) -> RegisterDescriptor {
    match reg {
        RegisterId::GestureId => RegisterDescriptor {
            address: 0x01,
            size_bits: 8,
            value_width: 8,
            access: Access::ReadOnly,
            reset_value: None,
            overlapping: false,
            provisional: false,
        },
        RegisterId::FingerNum => RegisterDescriptor {
            address: 0x02,
            size_bits: 8,
            value_width: 1,
            access: Access::ReadOnly,
            reset_value: None,
            overlapping: false,
            provisional: false,
        },
        RegisterId::XposH => RegisterDescriptor {
            address: 0x03,
            size_bits: 8,
            value_width: 4,
            access: Access::ReadOnly,
            reset_value: None,
            overlapping: true,
            provisional: false,
        },
        RegisterId::XposL => RegisterDescriptor {
            address: 0x04,
            size_bits: 8,
            value_width: 8,
            access: Access::ReadOnly,
            reset_value: None,
            overlapping: true,
            provisional: false,
        },
        RegisterId::Xpos => RegisterDescriptor {
            address: 0x03,
            size_bits: 16,
            value_width: 12,
            access: Access::ReadOnly,
            reset_value: None,
            overlapping: true,
            provisional: false,
        },
        RegisterId::YposH => RegisterDescriptor {
            address: 0x05,
            size_bits: 8,
            value_width: 4,
            access: Access::ReadOnly,
            reset_value: None,
            overlapping: true,
            provisional: false,
        },
        RegisterId::YposL => RegisterDescriptor {
            address: 0x06,
            size_bits: 8,
            value_width: 8,
            access: Access::ReadOnly,
            reset_value: None,
            overlapping: true,
            provisional: false,
        },
        RegisterId::Ypos => RegisterDescriptor {
            address: 0x05,
            size_bits: 16,
            value_width: 12,
            access: Access::ReadOnly,
            reset_value: None,
            overlapping: true,
            provisional: false,
        },
        RegisterId::Bpc0H => RegisterDescriptor {
            address: 0xb0,
            size_bits: 8,
            value_width: 8,
            access: Access::ReadOnly,
            reset_value: None,
            overlapping: true,
            provisional: false,
        },
        RegisterId::Bpc0L => RegisterDescriptor {
            address: 0xb1,
            size_bits: 8,
            value_width: 8,
            access: Access::ReadOnly,
            reset_value: None,
            overlapping: true,
            provisional: false,
        },
        RegisterId::Bpc0 => RegisterDescriptor {
            address: 0xb0,
            size_bits: 16,
            value_width: 16,
            access: Access::ReadOnly,
            reset_value: None,
            overlapping: true,
            provisional: false,
        },
        RegisterId::Bpc1H => RegisterDescriptor {
            address: 0xb2,
            size_bits: 8,
            value_width: 8,
            access: Access::ReadOnly,
            reset_value: None,
            overlapping: true,
            provisional: false,
        },
        RegisterId::Bpc1L => RegisterDescriptor {
            address: 0xb3,
            size_bits: 8,
            value_width: 8,
            access: Access::ReadOnly,
            reset_value: None,
            overlapping: true,
            provisional: false,
        },
        RegisterId::Bpc1 => RegisterDescriptor {
            address: 0xb2,
            size_bits: 16,
            value_width: 16,
            access: Access::ReadOnly,
            reset_value: None,
            overlapping: true,
            provisional: false,
        },
        RegisterId::ChipId => RegisterDescriptor {
            address: 0xa7,
            size_bits: 8,
            value_width: 8,
            access: Access::ReadOnly,
            reset_value: None,
            overlapping: false,
            provisional: false,
        },
        RegisterId::ProjId => RegisterDescriptor {
            address: 0xa8,
            size_bits: 8,
            value_width: 8,
            access: Access::ReadOnly,
            reset_value: None,
            overlapping: false,
            provisional: false,
        },
        RegisterId::FwVersion => RegisterDescriptor {
            address: 0xa9,
            size_bits: 8,
            value_width: 8,
            access: Access::ReadOnly,
            reset_value: None,
            overlapping: false,
            provisional: false,
        },
        RegisterId::DeepSleep => RegisterDescriptor {
            address: 0xe5,
            size_bits: 8,
            value_width: 8,
            access: Access::ReadWrite,
            reset_value: Some(0x03),
            overlapping: false,
            provisional: true,
        },
        RegisterId::MotionMask => RegisterDescriptor {
            address: 0xec,
            size_bits: 3,
            value_width: 3,
            access: Access::ReadWrite,
            reset_value: None,
            overlapping: false,
            provisional: false,
        },
        RegisterId::IrqPulseWidth => RegisterDescriptor {
            address: 0xed,
            size_bits: 8,
            value_width: 8,
            access: Access::ReadWrite,
            reset_value: Some(10),
            overlapping: false,
            provisional: false,
        },
        RegisterId::NorScanPer => RegisterDescriptor {
            address: 0xee,
            size_bits: 8,
            value_width: 8,
            access: Access::ReadWrite,
            reset_value: Some(1),
            overlapping: false,
            provisional: false,
        },
        RegisterId::MotionSlAngle => RegisterDescriptor {
            address: 0xef,
            size_bits: 8,
            value_width: 8,
            access: Access::ReadWrite,
            reset_value: None,
            overlapping: false,
            provisional: false,
        },
        RegisterId::LpScanRaw1H => RegisterDescriptor {
            address: 0xf0,
            size_bits: 8,
            value_width: 8,
            access: Access::ReadWrite,
            reset_value: None,
            overlapping: false,
            provisional: false,
        },
        RegisterId::LpScanRaw1L => RegisterDescriptor {
            address: 0xf1,
            size_bits: 8,
            value_width: 8,
            access: Access::ReadWrite,
            reset_value: None,
            overlapping: false,
            provisional: false,
        },
        RegisterId::LpScanRaw2H => RegisterDescriptor {
            address: 0xf2,
            size_bits: 8,
            value_width: 8,
            access: Access::ReadWrite,
            reset_value: None,
            overlapping: false,
            provisional: false,
        },
        RegisterId::LpScanRaw2L => RegisterDescriptor {
            address: 0xf3,
            size_bits: 8,
            value_width: 8,
            access: Access::ReadWrite,
            reset_value: None,
            overlapping: false,
            provisional: false,
        },
        RegisterId::LpAutoWakeTime => RegisterDescriptor {
            address: 0xf4,
            size_bits: 3,
            value_width: 3,
            access: Access::ReadWrite,
            reset_value: Some(5),
            overlapping: false,
            provisional: false,
        },
        RegisterId::LpScanTh => RegisterDescriptor {
            address: 0xf5,
            size_bits: 8,
            value_width: 8,
            access: Access::ReadWrite,
            reset_value: Some(48),
            overlapping: false,
            provisional: false,
        },
        RegisterId::LpScanWin => RegisterDescriptor {
            address: 0xf6,
            size_bits: 2,
            value_width: 2,
            access: Access::ReadWrite,
            reset_value: Some(3),
            overlapping: false,
            provisional: false,
        },
        RegisterId::LpScanFreq => RegisterDescriptor {
            address: 0xf7,
            size_bits: 8,
            value_width: 8,
            access: Access::ReadWrite,
            reset_value: Some(7),
            overlapping: false,
            provisional: false,
        },
        RegisterId::LpScanIdac => RegisterDescriptor {
            address: 0xf8,
            size_bits: 8,
            value_width: 8,
            access: Access::ReadWrite,
            reset_value: None,
            overlapping: false,
            provisional: false,
        },
        RegisterId::AutoSleepTime => RegisterDescriptor {
            address: 0xf9,
            size_bits: 8,
            value_width: 8,
            access: Access::ReadWrite,
            reset_value: Some(2),
            overlapping: false,
            provisional: false,
        },
        RegisterId::IrqCtl => RegisterDescriptor {
            address: 0xfa,
            size_bits: 8,
            value_width: 8,
            access: Access::ReadWrite,
            reset_value: None,
            overlapping: false,
            provisional: false,
        },
        RegisterId::AutoReset => RegisterDescriptor {
            address: 0xfb,
            size_bits: 8,
            value_width: 8,
            access: Access::ReadWrite,
            reset_value: Some(0),
            overlapping: false,
            provisional: false,
        },
        RegisterId::LongPressTime => RegisterDescriptor {
            address: 0xfc,
            size_bits: 8,
            value_width: 8,
            access: Access::ReadWrite,
            reset_value: Some(10),
            overlapping: false,
            provisional: false,
        },
        RegisterId::IoCtl => RegisterDescriptor {
            address: 0xfd,
            size_bits: 3,
            value_width: 3,
            access: Access::ReadWrite,
            reset_value: None,
            overlapping: false,
            provisional: false,
        },
        RegisterId::DisAutoSleep => RegisterDescriptor {
            address: 0xfe,
            size_bits: 8,
            value_width: 8,
            access: Access::ReadWrite,
            reset_value: Some(0),
            overlapping: false,
            provisional: false,
        },
    }
}

/// The declared bit sub-fields of a register, lowest offset first.
/// Most registers declare one integer value span starting at bit 0; the
/// three flag registers declare named boolean bits instead.
pub open spec fn register_fields(reg: RegisterId) -> Seq<FieldSpec> {
    match reg {
        RegisterId::MotionMask => seq![
            // EnDClick, EnConUD, EnConLR
            FieldSpec { offset: 0, width: 1, boolean: true },
            FieldSpec { offset: 1, width: 1, boolean: true },
            FieldSpec { offset: 2, width: 1, boolean: true },
        ],
        RegisterId::IrqCtl => seq![
            // OnceWLP, EnMotion, EnChange, EnTouch, EnTest
            FieldSpec { offset: 0, width: 1, boolean: true },
            FieldSpec { offset: 4, width: 1, boolean: true },
            FieldSpec { offset: 5, width: 1, boolean: true },
            FieldSpec { offset: 6, width: 1, boolean: true },
            FieldSpec { offset: 7, width: 1, boolean: true },
        ],
        RegisterId::IoCtl => seq![
            // En1v8, IicOd, SoftRst
            FieldSpec { offset: 0, width: 1, boolean: true },
            FieldSpec { offset: 1, width: 1, boolean: true },
            FieldSpec { offset: 2, width: 1, boolean: true },
        ],
        _ => seq![
            FieldSpec { offset: 0, width: spec_descriptor(reg).value_width, boolean: false },
        ],
    }
}

/// Sub-field bit ranges within one descriptor never overlap.
pub open spec fn fields_disjoint(fs: Seq<FieldSpec>) -> bool {
    forall|i: int, j: int|
        0 <= i < j < fs.len() ==> #[trigger] fs[i].offset + fs[i].width <= #[trigger] fs[j].offset
}

/// Every sub-field lies inside the register's declared span.
pub open spec fn fields_fit(fs: Seq<FieldSpec>, size_bits: u16) -> bool {
    forall|i: int| 0 <= i < fs.len() ==> #[trigger] fs[i].offset + fs[i].width <= size_bits
}

/// How many bytes a register's span occupies on the bus.
pub open spec fn spec_byte_len(reg: RegisterId) -> u16 {
    ((spec_descriptor(reg).size_bits + 7) / 8) as u16
}

/// Whether the host may write the register.
pub open spec fn spec_writable(reg: RegisterId) -> bool {
    spec_descriptor(reg).access == Access::ReadWrite
}

/// What it means for one table entry to be well formed: the declared
/// value span is non-empty and inside the byte span, storage is
/// byte-aligned at one or two bytes, the span stays inside the 8-bit
/// address space, writable registers are single bytes, and the declared
/// sub-fields neither overlap nor spill past the span.
pub open spec fn descriptor_wf(reg: RegisterId) -> bool {
    let d = spec_descriptor(reg);
    &&& 1 <= d.value_width <= 16
    &&& d.value_width <= d.size_bits
    &&& 1 <= d.size_bits <= 16
    &&& (spec_byte_len(reg) == 1 || spec_byte_len(reg) == 2)
    &&& d.address + spec_byte_len(reg) <= 256
    &&& (spec_writable(reg) ==> spec_byte_len(reg) == 1)
    &&& fields_disjoint(register_fields(reg))
    &&& fields_fit(register_fields(reg), d.size_bits)
}

/// Every entry of the descriptor table is well formed.
pub proof fn lemma_descriptor_wf(reg: RegisterId)
    ensures
        descriptor_wf(reg),
{
    let fs = register_fields(reg);
    match reg {
        RegisterId::MotionMask => {
            assert(fs.len() == 3);
            assert(fields_disjoint(fs));
            assert(fields_fit(fs, 3));
        },
        RegisterId::IrqCtl => {
            assert(fs.len() == 5);
            assert(fields_disjoint(fs));
            assert(fields_fit(fs, 8));
        },
        RegisterId::IoCtl => {
            assert(fs.len() == 3);
            assert(fields_disjoint(fs));
            assert(fields_fit(fs, 3));
        },
        _ => {
            assert(fs.len() == 1);
            assert(fields_disjoint(fs));
            assert(fields_fit(fs, spec_descriptor(reg).size_bits));
        },
    }
}

/// A composite register reuses the address of its high-order
/// constituent, spans exactly the two adjacent bytes, and its declared
/// value is as wide as the two constituent value spans together.
pub proof fn lemma_composite_descriptors()
    ensures
        spec_descriptor(RegisterId::Xpos).address == spec_descriptor(RegisterId::XposH).address,
        spec_descriptor(RegisterId::XposL).address == spec_descriptor(RegisterId::XposH).address
            + 1,
        spec_byte_len(RegisterId::Xpos) == 2,
        spec_descriptor(RegisterId::Xpos).value_width == spec_descriptor(
            RegisterId::XposH,
        ).value_width + spec_descriptor(RegisterId::XposL).value_width,
        spec_descriptor(RegisterId::Ypos).address == spec_descriptor(RegisterId::YposH).address,
        spec_descriptor(RegisterId::YposL).address == spec_descriptor(RegisterId::YposH).address
            + 1,
        spec_byte_len(RegisterId::Ypos) == 2,
        spec_descriptor(RegisterId::Ypos).value_width == spec_descriptor(
            RegisterId::YposH,
        ).value_width + spec_descriptor(RegisterId::YposL).value_width,
        spec_descriptor(RegisterId::Bpc0).address == spec_descriptor(RegisterId::Bpc0H).address,
        spec_descriptor(RegisterId::Bpc0L).address == spec_descriptor(RegisterId::Bpc0H).address
            + 1,
        spec_byte_len(RegisterId::Bpc0) == 2,
        spec_descriptor(RegisterId::Bpc1).address == spec_descriptor(RegisterId::Bpc1H).address,
        spec_descriptor(RegisterId::Bpc1L).address == spec_descriptor(RegisterId::Bpc1H).address
            + 1,
        spec_byte_len(RegisterId::Bpc1) == 2,
        spec_descriptor(RegisterId::Xpos).overlapping && spec_descriptor(
            RegisterId::XposH,
        ).overlapping && spec_descriptor(RegisterId::XposL).overlapping,
        spec_descriptor(RegisterId::Ypos).overlapping && spec_descriptor(
            RegisterId::YposH,
        ).overlapping && spec_descriptor(RegisterId::YposL).overlapping,
{
}

/// The complete motion-mask byte assembled from its declared flags:
/// double-click at bit 0, continuous up-down scrolling at bit 1,
/// continuous left-right scrolling at bit 2.
pub open spec fn spec_motion_mask_byte(en_d_click: bool, en_con_ud: bool, en_con_lr: bool) -> u8 {
    ((if en_d_click {
        1int
    } else {
        0int
    }) + (if en_con_ud {
        2int
    } else {
        0int
    }) + (if en_con_lr {
        4int
    } else {
        0int
    })) as u8
}

/// The complete interrupt-control byte assembled from its declared
/// flags: one-pulse-per-long-press at bit 0, motion at bit 4, change at
/// bit 5, touch at bit 6, test at bit 7.
pub open spec fn spec_irq_ctl_byte(
    once_wlp: bool,
    en_motion: bool,
    en_change: bool,
    en_touch: bool,
    en_test: bool,
) -> u8 {
    ((if once_wlp {
        1int
    } else {
        0int
    }) + (if en_motion {
        16int
    } else {
        0int
    }) + (if en_change {
        32int
    } else {
        0int
    }) + (if en_touch {
        64int
    } else {
        0int
    }) + (if en_test {
        128int
    } else {
        0int
    })) as u8
}

/// The complete io-control byte assembled from its declared flags:
/// 1.8 V level select at bit 0, open-drain mode at bit 1, soft reset at
/// bit 2.
pub open spec fn spec_io_ctl_byte(en_1v8: bool, iic_od: bool, soft_rst: bool) -> u8 {
    ((if en_1v8 {
        1int
    } else {
        0int
    }) + (if iic_od {
        2int
    } else {
        0int
    }) + (if soft_rst {
        4int
    } else {
        0int
    })) as u8
}

/// Bit layout of a byte assembled from three single-bit flags at
/// offsets 0, 1 and 2: each declared bit reads back as its flag, and
/// every undeclared bit is zero.
proof fn lemma_three_flag_bits(b0: u8, b1: u8, b2: u8)
    by (bit_vector)
    requires
        b0 <= 1,
        b1 <= 1,
        b2 <= 1,
    ensures
        ((b0 + b1 * 2 + b2 * 4) as u8) < 8,
        (((b0 + b1 * 2 + b2 * 4) as u8) >> 0) & 1 == b0,
        (((b0 + b1 * 2 + b2 * 4) as u8) >> 1) & 1 == b1,
        (((b0 + b1 * 2 + b2 * 4) as u8) >> 2) & 1 == b2,
{
}

/// Bit layout of the interrupt-control byte: each declared bit reads
/// back as its flag, and the undeclared bits 1 to 3 are zero.
proof fn lemma_irq_ctl_bits(b0: u8, b4: u8, b5: u8, b6: u8, b7: u8)
    by (bit_vector)
    requires
        b0 <= 1,
        b4 <= 1,
        b5 <= 1,
        b6 <= 1,
        b7 <= 1,
    ensures
        (((b0 + b4 * 16 + b5 * 32 + b6 * 64 + b7 * 128) as u8) >> 0) & 1 == b0,
        (((b0 + b4 * 16 + b5 * 32 + b6 * 64 + b7 * 128) as u8) >> 4) & 1 == b4,
        (((b0 + b4 * 16 + b5 * 32 + b6 * 64 + b7 * 128) as u8) >> 5) & 1 == b5,
        (((b0 + b4 * 16 + b5 * 32 + b6 * 64 + b7 * 128) as u8) >> 6) & 1 == b6,
        (((b0 + b4 * 16 + b5 * 32 + b6 * 64 + b7 * 128) as u8) >> 7) & 1 == b7,
        (((b0 + b4 * 16 + b5 * 32 + b6 * 64 + b7 * 128) as u8) >> 1) & 7 == 0,
{
}

/// Assemble the motion-mask byte from the flags the caller wants; all
/// undeclared bits are zero, as the write contract of the register
/// demands.
pub fn motion_mask_byte(en_d_click: bool, en_con_ud: bool, en_con_lr: bool) -> (r: u8)
    ensures
        r == spec_motion_mask_byte(en_d_click, en_con_ud, en_con_lr),
        r < 8,
        (r >> 0) & 1 == (if en_d_click {
            1u8
        } else {
            0u8
        }),
        (r >> 1) & 1 == (if en_con_ud {
            1u8
        } else {
            0u8
        }),
        (r >> 2) & 1 == (if en_con_lr {
            1u8
        } else {
            0u8
        }),
{
    let b0: u8 = if en_d_click {
        1
    } else {
        0
    };
    let b1: u8 = if en_con_ud {
        1
    } else {
        0
    };
    let b2: u8 = if en_con_lr {
        1
    } else {
        0
    };
    proof {
        lemma_three_flag_bits(b0, b1, b2);
    }
    b0 + b1 * 2 + b2 * 4
}

/// Assemble the interrupt-control byte from the flags the caller
/// wants; the undeclared bits 1 to 3 are zero, as the write contract of
/// the register demands.
pub fn irq_ctl_byte(
    once_wlp: bool,
    en_motion: bool,
    en_change: bool,
    en_touch: bool,
    en_test: bool,
) -> (r: u8)
    ensures
        r == spec_irq_ctl_byte(once_wlp, en_motion, en_change, en_touch, en_test),
        (r >> 0) & 1 == (if once_wlp {
            1u8
        } else {
            0u8
        }),
        (r >> 4) & 1 == (if en_motion {
            1u8
        } else {
            0u8
        }),
        (r >> 5) & 1 == (if en_change {
            1u8
        } else {
            0u8
        }),
        (r >> 6) & 1 == (if en_touch {
            1u8
        } else {
            0u8
        }),
        (r >> 7) & 1 == (if en_test {
            1u8
        } else {
            0u8
        }),
        (r >> 1) & 7 == 0,
{
    let b0: u8 = if once_wlp {
        1
    } else {
        0
    };
    let b4: u8 = if en_motion {
        1
    } else {
        0
    };
    let b5: u8 = if en_change {
        1
    } else {
        0
    };
    let b6: u8 = if en_touch {
        1
    } else {
        0
    };
    let b7: u8 = if en_test {
        1
    } else {
        0
    };
    proof {
        lemma_irq_ctl_bits(b0, b4, b5, b6, b7);
    }
    b0 + b4 * 16 + b5 * 32 + b6 * 64 + b7 * 128
}

/// Assemble the io-control byte from the flags the caller wants; all
/// undeclared bits are zero, as the write contract of the register
/// demands.
pub fn io_ctl_byte(en_1v8: bool, iic_od: bool, soft_rst: bool) -> (r: u8)
    ensures
        r == spec_io_ctl_byte(en_1v8, iic_od, soft_rst),
        r < 8,
        (r >> 0) & 1 == (if en_1v8 {
            1u8
        } else {
            0u8
        }),
        (r >> 1) & 1 == (if iic_od {
            1u8
        } else {
            0u8
        }),
        (r >> 2) & 1 == (if soft_rst {
            1u8
        } else {
            0u8
        }),
{
    let b0: u8 = if en_1v8 {
        1
    } else {
        0
    };
    let b1: u8 = if iic_od {
        1
    } else {
        0
    };
    let b2: u8 = if soft_rst {
        1
    } else {
        0
    };
    proof {
        lemma_three_flag_bits(b0, b1, b2);
    }
    b0 + b1 * 2 + b2 * 4
}

/// Look up the descriptor of a register.
pub fn descriptor(reg: RegisterId) -> (d: RegisterDescriptor)
    ensures
        d == spec_descriptor(reg),
{
    match reg {
        RegisterId::GestureId => RegisterDescriptor {
            address: 0x01,
            size_bits: 8,
            value_width: 8,
            access: Access::ReadOnly,
            reset_value: None,
            overlapping: false,
            provisional: false,
        },
        RegisterId::FingerNum => RegisterDescriptor {
            address: 0x02,
            size_bits: 8,
            value_width: 1,
            access: Access::ReadOnly,
            reset_value: None,
            overlapping: false,
            provisional: false,
        },
        RegisterId::XposH => RegisterDescriptor {
            address: 0x03,
            size_bits: 8,
            value_width: 4,
            access: Access::ReadOnly,
            reset_value: None,
            overlapping: true,
            provisional: false,
        },
        RegisterId::XposL => RegisterDescriptor {
            address: 0x04,
            size_bits: 8,
            value_width: 8,
            access: Access::ReadOnly,
            reset_value: None,
            overlapping: true,
            provisional: false,
        },
        RegisterId::Xpos => RegisterDescriptor {
            address: 0x03,
            size_bits: 16,
            value_width: 12,
            access: Access::ReadOnly,
            reset_value: None,
            overlapping: true,
            provisional: false,
        },
        RegisterId::YposH => RegisterDescriptor {
            address: 0x05,
            size_bits: 8,
            value_width: 4,
            access: Access::ReadOnly,
            reset_value: None,
            overlapping: true,
            provisional: false,
        },
        RegisterId::YposL => RegisterDescriptor {
            address: 0x06,
            size_bits: 8,
            value_width: 8,
            access: Access::ReadOnly,
            reset_value: None,
            overlapping: true,
            provisional: false,
        },
        RegisterId::Ypos => RegisterDescriptor {
            address: 0x05,
            size_bits: 16,
            value_width: 12,
            access: Access::ReadOnly,
            reset_value: None,
            overlapping: true,
            provisional: false,
        },
        RegisterId::Bpc0H => RegisterDescriptor {
            address: 0xb0,
            size_bits: 8,
            value_width: 8,
            access: Access::ReadOnly,
            reset_value: None,
            overlapping: true,
            provisional: false,
        },
        RegisterId::Bpc0L => RegisterDescriptor {
            address: 0xb1,
            size_bits: 8,
            value_width: 8,
            access: Access::ReadOnly,
            reset_value: None,
            overlapping: true,
            provisional: false,
        },
        RegisterId::Bpc0 => RegisterDescriptor {
            address: 0xb0,
            size_bits: 16,
            value_width: 16,
            access: Access::ReadOnly,
            reset_value: None,
            overlapping: true,
            provisional: false,
        },
        RegisterId::Bpc1H => RegisterDescriptor {
            address: 0xb2,
            size_bits: 8,
            value_width: 8,
            access: Access::ReadOnly,
            reset_value: None,
            overlapping: true,
            provisional: false,
        },
        RegisterId::Bpc1L => RegisterDescriptor {
            address: 0xb3,
            size_bits: 8,
            value_width: 8,
            access: Access::ReadOnly,
            reset_value: None,
            overlapping: true,
            provisional: false,
        },
        RegisterId::Bpc1 => RegisterDescriptor {
            address: 0xb2,
            size_bits: 16,
            value_width: 16,
            access: Access::ReadOnly,
            reset_value: None,
            overlapping: true,
            provisional: false,
        },
        RegisterId::ChipId => RegisterDescriptor {
            address: 0xa7,
            size_bits: 8,
            value_width: 8,
            access: Access::ReadOnly,
            reset_value: None,
            overlapping: false,
            provisional: false,
        },
        RegisterId::ProjId => RegisterDescriptor {
            address: 0xa8,
            size_bits: 8,
            value_width: 8,
            access: Access::ReadOnly,
            reset_value: None,
            overlapping: false,
            provisional: false,
        },
        RegisterId::FwVersion => RegisterDescriptor {
            address: 0xa9,
            size_bits: 8,
            value_width: 8,
            access: Access::ReadOnly,
            reset_value: None,
            overlapping: false,
            provisional: false,
        },
        RegisterId::DeepSleep => RegisterDescriptor {
            address: 0xe5,
            size_bits: 8,
            value_width: 8,
            access: Access::ReadWrite,
            reset_value: Some(0x03),
            overlapping: false,
            provisional: true,
        },
        RegisterId::MotionMask => RegisterDescriptor {
            address: 0xec,
            size_bits: 3,
            value_width: 3,
            access: Access::ReadWrite,
            reset_value: None,
            overlapping: false,
            provisional: false,
        },
        RegisterId::IrqPulseWidth => RegisterDescriptor {
            address: 0xed,
            size_bits: 8,
            value_width: 8,
            access: Access::ReadWrite,
            reset_value: Some(10),
            overlapping: false,
            provisional: false,
        },
        RegisterId::NorScanPer => RegisterDescriptor {
            address: 0xee,
            size_bits: 8,
            value_width: 8,
            access: Access::ReadWrite,
            reset_value: Some(1),
            overlapping: false,
            provisional: false,
        },
        RegisterId::MotionSlAngle => RegisterDescriptor {
            address: 0xef,
            size_bits: 8,
            value_width: 8,
            access: Access::ReadWrite,
            reset_value: None,
            overlapping: false,
            provisional: false,
        },
        RegisterId::LpScanRaw1H => RegisterDescriptor {
            address: 0xf0,
            size_bits: 8,
            value_width: 8,
            access: Access::ReadWrite,
            reset_value: None,
            overlapping: false,
            provisional: false,
        },
        RegisterId::LpScanRaw1L => RegisterDescriptor {
            address: 0xf1,
            size_bits: 8,
            value_width: 8,
            access: Access::ReadWrite,
            reset_value: None,
            overlapping: false,
            provisional: false,
        },
        RegisterId::LpScanRaw2H => RegisterDescriptor {
            address: 0xf2,
            size_bits: 8,
            value_width: 8,
            access: Access::ReadWrite,
            reset_value: None,
            overlapping: false,
            provisional: false,
        },
        RegisterId::LpScanRaw2L => RegisterDescriptor {
            address: 0xf3,
            size_bits: 8,
            value_width: 8,
            access: Access::ReadWrite,
            reset_value: None,
            overlapping: false,
            provisional: false,
        },
        RegisterId::LpAutoWakeTime => RegisterDescriptor {
            address: 0xf4,
            size_bits: 3,
            value_width: 3,
            access: Access::ReadWrite,
            reset_value: Some(5),
            overlapping: false,
            provisional: false,
        },
        RegisterId::LpScanTh => RegisterDescriptor {
            address: 0xf5,
            size_bits: 8,
            value_width: 8,
            access: Access::ReadWrite,
            reset_value: Some(48),
            overlapping: false,
            provisional: false,
        },
        RegisterId::LpScanWin => RegisterDescriptor {
            address: 0xf6,
            size_bits: 2,
            value_width: 2,
            access: Access::ReadWrite,
            reset_value: Some(3),
            overlapping: false,
            provisional: false,
        },
        RegisterId::LpScanFreq => RegisterDescriptor {
            address: 0xf7,
            size_bits: 8,
            value_width: 8,
            access: Access::ReadWrite,
            reset_value: Some(7),
            overlapping: false,
            provisional: false,
        },
        RegisterId::LpScanIdac => RegisterDescriptor {
            address: 0xf8,
            size_bits: 8,
            value_width: 8,
            access: Access::ReadWrite,
            reset_value: None,
            overlapping: false,
            provisional: false,
        },
        RegisterId::AutoSleepTime => RegisterDescriptor {
            address: 0xf9,
            size_bits: 8,
            value_width: 8,
            access: Access::ReadWrite,
            reset_value: Some(2),
            overlapping: false,
            provisional: false,
        },
        RegisterId::IrqCtl => RegisterDescriptor {
            address: 0xfa,
            size_bits: 8,
            value_width: 8,
            access: Access::ReadWrite,
            reset_value: None,
            overlapping: false,
            provisional: false,
        },
        RegisterId::AutoReset => RegisterDescriptor {
            address: 0xfb,
            size_bits: 8,
            value_width: 8,
            access: Access::ReadWrite,
            reset_value: Some(0),
            overlapping: false,
            provisional: false,
        },
        RegisterId::LongPressTime => RegisterDescriptor {
            address: 0xfc,
            size_bits: 8,
            value_width: 8,
            access: Access::ReadWrite,
            reset_value: Some(10),
            overlapping: false,
            provisional: false,
        },
        RegisterId::IoCtl => RegisterDescriptor {
            address: 0xfd,
            size_bits: 3,
            value_width: 3,
            access: Access::ReadWrite,
            reset_value: None,
            overlapping: false,
            provisional: false,
        },
        RegisterId::DisAutoSleep => RegisterDescriptor {
            address: 0xfe,
            size_bits: 8,
            value_width: 8,
            access: Access::ReadWrite,
            reset_value: Some(0),
            overlapping: false,
            provisional: false,
        },
    }
}

} // verus!
