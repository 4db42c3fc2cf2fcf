//! Bit fields of a register byte: where a field sits, what it holds, and
//! what the byte becomes when the field is rewritten.
//!
//! A field is given by the `offset` of its lowest bit (bit 0 is the least
//! significant) and by a `width_mask`, the all-ones pattern of the field's
//! width before it is moved into place.

use vstd::prelude::*;

verus! {

/// The bits of the byte that a field occupies: `width_mask` moved up to
/// `offset`.
pub open spec fn field_mask(offset: u8, width_mask: u8) -> u8 {
    width_mask << offset
}

/// What the field at `offset` holds in `byte`.
pub open spec fn field_bits(byte: u8, offset: u8, width_mask: u8) -> u8 {
    (byte >> offset) & width_mask
}

/// `byte` with the field at `offset` cleared and `pattern` put in its place.
pub open spec fn with_field(byte: u8, offset: u8, width_mask: u8, pattern: u8) -> u8 {
    (byte & !field_mask(offset, width_mask)) | (pattern << offset)
}

/// The field lies inside the byte: no bit of `width_mask` is pushed out when
/// it is moved up to `offset`.
pub open spec fn field_fits(offset: u8, width_mask: u8) -> bool {
    offset < 8 && field_mask(offset, width_mask) >> offset == width_mask
}

/// `pattern` has no bit outside the field's width.
pub open spec fn pattern_fits(width_mask: u8, pattern: u8) -> bool {
    pattern & !width_mask == 0
}

/// The pattern that a one-bit field holds for `on`.
pub open spec fn bit_pattern(on: bool) -> u8 {
    if on {
        1
    } else {
        0
    }
}

/// Whether the one-bit field at `offset` is set in `byte`.
pub open spec fn bit_is_set(byte: u8, offset: u8) -> bool {
    field_bits(byte, offset, 1) != 0
}

/// `byte` with the one-bit field at `offset` set or cleared.
pub open spec fn with_bit(byte: u8, offset: u8, on: bool) -> u8 {
    with_field(byte, offset, 1, bit_pattern(on))
}

/// Reads the field at `offset` out of `byte`.
pub fn read_field(byte: u8, offset: u8, width_mask: u8) -> (bits: u8)
    requires
        offset < 8,
    ensures
        bits == field_bits(byte, offset, width_mask),
{
    (byte >> offset) & width_mask
}

/// Rewrites the field at `offset` of `byte` to `pattern`, leaving the rest
/// of the byte as it was.
pub fn write_field(byte: u8, offset: u8, width_mask: u8, pattern: u8) -> (updated: u8)
    requires
        offset < 8,
    ensures
        updated == with_field(byte, offset, width_mask, pattern),
{
    (byte & !(width_mask << offset)) | (pattern << offset)
}

/// Reads the one-bit field at `offset` out of `byte`.
pub fn read_bit(byte: u8, offset: u8) -> (on: bool)
    requires
        offset < 8,
    ensures
        on == bit_is_set(byte, offset),
{
    read_field(byte, offset, 1) != 0
}

/// Sets or clears the one-bit field at `offset` of `byte`.
pub fn write_bit(byte: u8, offset: u8, on: bool) -> (updated: u8)
    requires
        offset < 8,
    ensures
        updated == with_bit(byte, offset, on),
{
    let pattern: u8 = if on {
        1
    } else {
        0
    };
    write_field(byte, offset, 1, pattern)
}

/// A field reads back what was written to it.
pub proof fn lemma_field_reads_back(byte: u8, offset: u8, width_mask: u8, pattern: u8)
    requires
        field_fits(offset, width_mask),
        pattern_fits(width_mask, pattern),
    ensures
        field_bits(with_field(byte, offset, width_mask, pattern), offset, width_mask) == pattern,
{
    assert(((((byte & !(width_mask << offset)) | (pattern << offset)) >> offset) & width_mask)
        == pattern) by (bit_vector)
        requires
            offset < 8,
            (width_mask << offset) >> offset == width_mask,
            pattern & !width_mask == 0,
    ;
}

/// Writing a field changes no bit outside the field's mask.
pub proof fn lemma_write_keeps_other_bits(byte: u8, offset: u8, width_mask: u8, pattern: u8)
    requires
        field_fits(offset, width_mask),
        pattern_fits(width_mask, pattern),
    ensures
        with_field(byte, offset, width_mask, pattern) & !field_mask(offset, width_mask) == byte
            & !field_mask(offset, width_mask),
{
    assert(((byte & !(width_mask << offset)) | (pattern << offset)) & !(width_mask << offset)
        == byte & !(width_mask << offset)) by (bit_vector)
        requires
            offset < 8,
            pattern & !width_mask == 0,
    ;
}

/// Writing one field leaves every field that shares no bit with it holding
/// what it held.
pub proof fn lemma_write_keeps_other_field(
    byte: u8,
    offset: u8,
    width_mask: u8,
    pattern: u8,
    other_offset: u8,
    other_width_mask: u8,
)
    requires
        field_fits(offset, width_mask),
        pattern_fits(width_mask, pattern),
        field_fits(other_offset, other_width_mask),
        field_mask(offset, width_mask) & field_mask(other_offset, other_width_mask) == 0,
    ensures
        field_bits(
            with_field(byte, offset, width_mask, pattern),
            other_offset,
            other_width_mask,
        ) == field_bits(byte, other_offset, other_width_mask),
{
    assert(((((byte & !(width_mask << offset)) | (pattern << offset)) >> other_offset)
        & other_width_mask) == ((byte >> other_offset) & other_width_mask)) by (bit_vector)
        requires
            offset < 8,
            other_offset < 8,
            pattern & !width_mask == 0,
            (other_width_mask << other_offset) >> other_offset == other_width_mask,
            (width_mask << offset) & (other_width_mask << other_offset) == 0,
    ;
}

} // verus!
