//! Bit-level codec for register values.
//!
//! A register's byte span is interpreted big-endian when it covers two
//! adjacent addresses, and declared bit sub-fields are extracted by
//! shifting and masking. The lemmas at the bottom pin down how a
//! composite two-byte value relates to its constituent single-byte
//! registers.

use vstd::prelude::*;

verus! {

/// The value of two adjacent register bytes read as one big-endian word.
pub open spec fn be16(hi: u8, lo: u8) -> u16 {
    (hi * 256 + lo) as u16
}

/// Mask selecting the low `width` bits of a 16-bit word.
pub open spec fn field_mask(width: u16) -> u16
    recommends
        width <= 15,
{
    ((1u16 << width) - 1) as u16
}

/// The declared sub-field of `raw` that starts at bit `offset` and is
/// `width` bits wide.
pub open spec fn field_value(raw: u16, offset: u16, width: u16) -> u16 {
    (raw >> offset) & field_mask(width)
}

/// One more than the largest value a field of `width` bits can hold,
/// written out so the prover can evaluate it directly.
pub open spec fn width_max(width: u16) -> int {
    if width == 0 {
        1
    } else if width == 1 {
        2
    } else if width == 2 {
        4
    } else if width == 3 {
        8
    } else if width == 4 {
        0x10
    } else if width == 5 {
        0x20
    } else if width == 6 {
        0x40
    } else if width == 7 {
        0x80
    } else if width == 8 {
        0x100
    } else if width == 9 {
        0x200
    } else if width == 10 {
        0x400
    } else if width == 11 {
        0x800
    } else if width == 12 {
        0x1000
    } else if width == 13 {
        0x2000
    } else if width == 14 {
        0x4000
    } else if width == 15 {
        0x8000
    } else {
        0x10000
    }
}

/// For widths below sixteen, the table agrees with the shifted mask
/// bound.
pub proof fn lemma_width_max_shift(width: u16)
    requires
        width <= 15,
    ensures
        width_max(width) == (1u16 << width) as int,
{
    assert(width <= 15 ==> (1u16 << width) as int == (if width == 0 {
        1int
    } else if width == 1 {
        2int
    } else if width == 2 {
        4int
    } else if width == 3 {
        8int
    } else if width == 4 {
        0x10int
    } else if width == 5 {
        0x20int
    } else if width == 6 {
        0x40int
    } else if width == 7 {
        0x80int
    } else if width == 8 {
        0x100int
    } else if width == 9 {
        0x200int
    } else if width == 10 {
        0x400int
    } else if width == 11 {
        0x800int
    } else if width == 12 {
        0x1000int
    } else if width == 13 {
        0x2000int
    } else if width == 14 {
        0x4000int
    } else {
        0x8000int
    })) by (bit_vector);
}

/// Assemble one big-endian word from two adjacent register bytes.
pub fn decode_be(hi: u8, lo: u8) -> (r: u16)
    ensures
        r == be16(hi, lo),
        r == hi * 256 + lo,
{
    proof {
        lemma_be16_exact(hi, lo);
    }
    ((hi as u16) << 8) | (lo as u16)
}

/// Extract a declared bit sub-field from a raw register word.
pub fn extract_field(raw: u16, offset: u16, width: u16) -> (r: u16)
    requires
        offset + width <= 16,
        1 <= width <= 15,
    ensures
        r == field_value(raw, offset, width),
        r < (1u16 << width),
        r < width_max(width),
{
    proof {
        lemma_field_value_bound(raw, offset, width);
        lemma_width_max_shift(width);
    }
    (raw >> offset) & ((1u16 << width) - 1)
}

/// Big-endian assembly never truncates: the word equals `hi * 256 + lo`.
pub proof fn lemma_be16_exact(hi: u8, lo: u8)
    ensures
        be16(hi, lo) == hi * 256 + lo,
        ((hi as u16) << 8) | (lo as u16) == be16(hi, lo),
{
    assert((hi * 256 + lo) as u16 == hi * 256 + lo) by (bit_vector);
    assert(((hi as u16) << 8) | (lo as u16) == (hi * 256 + lo) as u16) by (bit_vector);
}

/// A field of `width` bits is bounded by its mask.
pub proof fn lemma_field_value_bound(raw: u16, offset: u16, width: u16)
    requires
        width <= 15,
    ensures
        field_value(raw, offset, width) <= field_mask(width),
        field_mask(width) < (1u16 << width),
{
    assert((raw >> offset) & (((1u16 << width) - 1) as u16) <= ((1u16 << width) - 1) as u16)
        by (bit_vector);
    assert(width <= 15 ==> (((1u16 << width) - 1) as u16) < (1u16 << width)) by (bit_vector);
}

/// A composite register spans two adjacent byte registers: its declared
/// value field (bits 0 to 12 of the big-endian word) agrees bit-for-bit
/// with the two constituents — the high register's low nibble and the
/// whole low register.
pub proof fn lemma_composite_field_agreement(hi: u8, lo: u8)
    ensures
        field_value(be16(hi, lo), 0, 12) == field_value(hi as u16, 0, 4) * 256 + field_value(
            lo as u16,
            0,
            8,
        ),
        field_value(be16(hi, lo), 0, 12) / 256 == field_value(hi as u16, 0, 4),
        field_value(be16(hi, lo), 0, 12) % 256 == field_value(lo as u16, 0, 8),
{
    assert(((hi * 256 + lo) as u16 >> 0) & 0xfffu16 == ((hi as u16 >> 0) & 0xfu16) * 256 + ((
    lo as u16 >> 0) & 0xffu16)) by (bit_vector);
    assert((((hi * 256 + lo) as u16 >> 0) & 0xfffu16) / 256 == (hi as u16 >> 0) & 0xfu16)
        by (bit_vector);
    assert((((hi * 256 + lo) as u16 >> 0) & 0xfffu16) % 256 == (lo as u16 >> 0) & 0xffu16)
        by (bit_vector);
    assert(field_mask(12) == 0xfffu16) by (bit_vector);
    assert(field_mask(4) == 0xfu16) by (bit_vector);
    assert(field_mask(8) == 0xffu16) by (bit_vector);
}

} // verus!
