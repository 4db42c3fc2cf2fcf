//! The CTRL8_XL register: accelerometer high-pass and low-pass filter
//! configuration.
//!
//! | Field             | Bits | Meaning                                        |
//! |-------------------|------|------------------------------------------------|
//! | LOW_PASS_ON_6D    | 0    | LPF2 output, not ODR/2 data, feeds 6D function |
//! | HP_SLOPE_XL_EN    | 2    | slope / high-pass filter path                  |
//! | FASTSETTL_MODE_XL | 3    | fast settling when leaving power-down          |
//! | HP_REF_MODE_XL    | 4    | high-pass filter reference mode                |
//! | HPCF_XL           | 5-7  | cutoff selector                                |
//!
//! Bit 1 belongs to no field and is carried along untouched.

use vstd::prelude::*;
use crate::bits::{
    bit_is_set, bit_pattern, field_bits, field_fits, field_mask, lemma_field_reads_back,
    lemma_write_keeps_other_bits, lemma_write_keeps_other_field, pattern_fits, read_bit,
    read_field, with_bit, with_field, write_bit, write_field,
};
use crate::cutoff::HPCF_Xl;

verus! {

/// Sub-address of the register.
pub const ADDR: u8 = 0x17u8;

/// LPF2 on 6D function selection: 0 sends ODR/2 low-pass filtered data to
/// the 6D interrupt function, 1 sends the LPF2 output.
pub const LOW_PASS_ON_6D: u8 = 0;

/// Accelerometer slope filter / high-pass filter selection.
pub const HP_SLOPE_XL_EN: u8 = 2;

/// Accelerometer LPF2 and HPF fast-settling mode: the filter settles on the
/// second sample after this bit is written. Active only while the device
/// leaves power-down mode.
pub const FASTSETTL_MODE_XL: u8 = 3;

/// Accelerometer high-pass filter reference mode; takes effect on the
/// high-pass path, that is with HP_SLOPE_XL_EN set.
pub const HP_REF_MODE_XL: u8 = 4;

/// Width of the cutoff selector, as a mask before it is moved into place.
pub const HPCF_XL_MASK: u8 = 0b111;

/// Lowest bit of the cutoff selector.
pub const HPCF_XL_OFFSET: u8 = 5;

/// What a mirror holds: the device's address on the bus and the byte last
/// put into the register.
pub struct Ctrl8XlView {
    pub address: u8,
    pub value: u8,
}

/// The fields of the register, decoded.
pub struct Fields {
    pub low_pass_on_6d: bool,
    pub hp_slope_xl_en: bool,
    pub fastsettl_mode_xl: bool,
    pub hp_ref_mode_xl: bool,
    pub hpcf_xl: HPCF_Xl,
}

/// The cutoff that the selector bits of `value` stand for. The selector has
/// three bits and eight cutoffs, so every byte decodes.
pub open spec fn cutoff_of(value: u8) -> HPCF_Xl {
    HPCF_Xl::spec_from_bits(field_bits(value, HPCF_XL_OFFSET, HPCF_XL_MASK)).unwrap()
}

/// What each field holds when the register byte is `value`.
pub open spec fn fields_of(value: u8) -> Fields {
    Fields {
        low_pass_on_6d: bit_is_set(value, LOW_PASS_ON_6D),
        hp_slope_xl_en: bit_is_set(value, HP_SLOPE_XL_EN),
        fastsettl_mode_xl: bit_is_set(value, FASTSETTL_MODE_XL),
        hp_ref_mode_xl: bit_is_set(value, HP_REF_MODE_XL),
        hpcf_xl: cutoff_of(value),
    }
}

/// `value` with the cutoff selector rewritten to select `cutoff`.
pub open spec fn with_hpcf(value: u8, cutoff: HPCF_Xl) -> u8 {
    with_field(value, HPCF_XL_OFFSET, HPCF_XL_MASK, cutoff.spec_bits())
}

/// `offset` and `width_mask` are those of one of the register's five fields.
pub open spec fn is_field(offset: u8, width_mask: u8) -> bool {
    ||| offset == LOW_PASS_ON_6D && width_mask == 1
    ||| offset == HP_SLOPE_XL_EN && width_mask == 1
    ||| offset == FASTSETTL_MODE_XL && width_mask == 1
    ||| offset == HP_REF_MODE_XL && width_mask == 1
    ||| offset == HPCF_XL_OFFSET && width_mask == HPCF_XL_MASK
}

/// The CTRL8_XL register. Accelerometer control register 8 (r/w).
///
/// Accelerometer high-pass and low-pass filter configuration.
pub struct Ctrl8Xl {
    pub address: u8,
    value: u8,
}

impl View for Ctrl8Xl {
    type V = Ctrl8XlView;

    closed spec fn view(&self) -> Ctrl8XlView {
        Ctrl8XlView { address: self.address, value: self.value }
    }
}

impl Ctrl8Xl {
    /// A mirror of the register of the device at bus address `address`,
    /// holding `value`. Nothing is checked and nothing is sent: `value` is
    /// taken to be what the device's register holds.
    pub fn new(value: u8, address: u8) -> (register: Ctrl8Xl)
        ensures
            register@ == (Ctrl8XlView { address, value }),
    {
        Ctrl8Xl { value, address }
    }

    /// The mirrored byte.
    pub fn value(&self) -> (value: u8)
        ensures
            value == self@.value,
    {
        self.value
    }

    /// Puts `updated` into the mirror, then commits it to the device: one
    /// call of `bus` with the device address, the register's sub-address and
    /// `updated`. What `bus` returns is returned, and the mirror keeps
    /// `updated` either way.
    fn commit<E, B>(&mut self, bus: B, updated: u8) -> (result: Result<(), E>) where
        B: FnOnce(u8, u8, u8) -> Result<(), E>,

        requires
            call_requires(bus, (old(self)@.address, ADDR, updated)),
        ensures
            final(self)@ == (Ctrl8XlView { value: updated, ..old(self)@ }),
            call_ensures(bus, (old(self)@.address, ADDR, updated), result),
    {
        self.value = updated;
        bus(self.address, ADDR, self.value)
    }

    /// The cutoff that the register selects.
    pub fn hpcf_xl(&self) -> (cutoff: HPCF_Xl)
        ensures
            cutoff == fields_of(self@.value).hpcf_xl,
    {
        let bits = read_field(self.value, HPCF_XL_OFFSET, HPCF_XL_MASK);
        proof {
            lemma_cutoff_decodes(self.value);
        }
        HPCF_Xl::from_bits(bits).unwrap()
    }

    /// HP or LPF2 cut-off fraction of ODR: ODR / hpcf.
    pub fn hpcf(&self) -> (divisor: u16)
        ensures
            divisor == fields_of(self@.value).hpcf_xl.spec_ratio(),
    {
        self.hpcf_xl().ratio()
    }

    /// Writes the cutoff selector and commits the register byte to the
    /// device: one call of `bus` with the device address, the register's
    /// sub-address and the new byte. What `bus` returns is returned.
    ///
    /// The mirror takes the new byte before `bus` is called and keeps it
    /// whatever `bus` returns. After an `Err` the mirror may differ from the
    /// device: take the device's state as unknown and read it back.
    pub fn set_hpcf<E, B>(&mut self, bus: B, value: HPCF_Xl) -> (result: Result<(), E>) where
        B: FnOnce(u8, u8, u8) -> Result<(), E>,

        requires
            call_requires(bus, (old(self)@.address, ADDR, with_hpcf(old(self)@.value, value))),
        ensures
            final(self)@.address == old(self)@.address,
            final(self)@.value == with_hpcf(old(self)@.value, value),
            call_ensures(bus, (old(self)@.address, ADDR, final(self)@.value), result),
            fields_of(final(self)@.value) == (Fields {
                hpcf_xl: value,
                ..fields_of(old(self)@.value)
            }),
            final(self)@.value & !field_mask(HPCF_XL_OFFSET, HPCF_XL_MASK) == old(self)@.value
                & !field_mask(HPCF_XL_OFFSET, HPCF_XL_MASK),
    {
        proof {
            lemma_hpcf_written(self.value, value);
        }
        let updated = write_field(self.value, HPCF_XL_OFFSET, HPCF_XL_MASK, value.bits());
        self.commit(bus, updated)
    }

    /// Whether the slope / high-pass filter path is selected
    /// (HP_SLOPE_XL_EN, bit 2). Read from the mirror; the bus is not used.
    pub fn hp_slope_xl_en(&mut self) -> (on: bool)
        ensures
            *final(self) == *old(self),
            on == fields_of(old(self)@.value).hp_slope_xl_en,
    {
        read_bit(self.value, HP_SLOPE_XL_EN)
    }

    /// Writes HP_SLOPE_XL_EN and commits the register byte to the device:
    /// one call of `bus` with the device address, the register's sub-address
    /// and the new byte. What `bus` returns is returned.
    ///
    /// The mirror takes the new byte before `bus` is called and keeps it
    /// whatever `bus` returns. After an `Err` the mirror may differ from the
    /// device: take the device's state as unknown and read it back.
    pub fn set_hp_slope_xl_en<E, B>(&mut self, bus: B, value: bool) -> (result: Result<(), E>) where
        B: FnOnce(u8, u8, u8) -> Result<(), E>,

        requires
            call_requires(
                bus,
                (old(self)@.address, ADDR, with_bit(old(self)@.value, HP_SLOPE_XL_EN, value)),
            ),
        ensures
            final(self)@.address == old(self)@.address,
            final(self)@.value == with_bit(old(self)@.value, HP_SLOPE_XL_EN, value),
            call_ensures(bus, (old(self)@.address, ADDR, final(self)@.value), result),
            fields_of(final(self)@.value) == (Fields {
                hp_slope_xl_en: value,
                ..fields_of(old(self)@.value)
            }),
            final(self)@.value & !field_mask(HP_SLOPE_XL_EN, 1) == old(self)@.value & !field_mask(
                HP_SLOPE_XL_EN,
                1,
            ),
    {
        proof {
            lemma_hp_slope_xl_en_written(self.value, value);
        }
        let updated = write_bit(self.value, HP_SLOPE_XL_EN, value);
        self.commit(bus, updated)
    }

    /// Whether the LPF2 output is what the 6D function is fed
    /// (LOW_PASS_ON_6D, bit 0). Read from the mirror; the bus is not used.
    pub fn low_pass_on_6d(&mut self) -> (on: bool)
        ensures
            *final(self) == *old(self),
            on == fields_of(old(self)@.value).low_pass_on_6d,
    {
        read_bit(self.value, LOW_PASS_ON_6D)
    }

    /// Writes LOW_PASS_ON_6D and commits the register byte to the device:
    /// one call of `bus` with the device address, the register's sub-address
    /// and the new byte. What `bus` returns is returned.
    ///
    /// The mirror takes the new byte before `bus` is called and keeps it
    /// whatever `bus` returns. After an `Err` the mirror may differ from the
    /// device: take the device's state as unknown and read it back.
    pub fn set_low_pass_on_6d<E, B>(&mut self, bus: B, value: bool) -> (result: Result<(), E>) where
        B: FnOnce(u8, u8, u8) -> Result<(), E>,

        requires
            call_requires(
                bus,
                (old(self)@.address, ADDR, with_bit(old(self)@.value, LOW_PASS_ON_6D, value)),
            ),
        ensures
            final(self)@.address == old(self)@.address,
            final(self)@.value == with_bit(old(self)@.value, LOW_PASS_ON_6D, value),
            call_ensures(bus, (old(self)@.address, ADDR, final(self)@.value), result),
            fields_of(final(self)@.value) == (Fields {
                low_pass_on_6d: value,
                ..fields_of(old(self)@.value)
            }),
            final(self)@.value & !field_mask(LOW_PASS_ON_6D, 1) == old(self)@.value & !field_mask(
                LOW_PASS_ON_6D,
                1,
            ),
    {
        proof {
            lemma_low_pass_on_6d_written(self.value, value);
        }
        let updated = write_bit(self.value, LOW_PASS_ON_6D, value);
        self.commit(bus, updated)
    }

    /// Whether fast settling on leaving power-down is enabled
    /// (FASTSETTL_MODE_XL, bit 3). Read from the mirror; the bus is not used.
    pub fn fastsettl_mode(&mut self) -> (on: bool)
        ensures
            *final(self) == *old(self),
            on == fields_of(old(self)@.value).fastsettl_mode_xl,
    {
        read_bit(self.value, FASTSETTL_MODE_XL)
    }

    /// Writes FASTSETTL_MODE_XL and commits the register byte to the device:
    /// one call of `bus` with the device address, the register's sub-address
    /// and the new byte. What `bus` returns is returned.
    ///
    /// The mirror takes the new byte before `bus` is called and keeps it
    /// whatever `bus` returns. After an `Err` the mirror may differ from the
    /// device: take the device's state as unknown and read it back.
    pub fn set_fastsettl_mode<E, B>(&mut self, bus: B, value: bool) -> (result: Result<(), E>) where
        B: FnOnce(u8, u8, u8) -> Result<(), E>,

        requires
            call_requires(
                bus,
                (old(self)@.address, ADDR, with_bit(old(self)@.value, FASTSETTL_MODE_XL, value)),
            ),
        ensures
            final(self)@.address == old(self)@.address,
            final(self)@.value == with_bit(old(self)@.value, FASTSETTL_MODE_XL, value),
            call_ensures(bus, (old(self)@.address, ADDR, final(self)@.value), result),
            fields_of(final(self)@.value) == (Fields {
                fastsettl_mode_xl: value,
                ..fields_of(old(self)@.value)
            }),
            final(self)@.value & !field_mask(FASTSETTL_MODE_XL, 1) == old(self)@.value & !field_mask(
                FASTSETTL_MODE_XL,
                1,
            ),
    {
        proof {
            lemma_fastsettl_mode_written(self.value, value);
        }
        let updated = write_bit(self.value, FASTSETTL_MODE_XL, value);
        self.commit(bus, updated)
    }

    /// Whether the high-pass filter reference mode is enabled
    /// (HP_REF_MODE_XL, bit 4). Read from the mirror; the bus is not used.
    pub fn hp_ref_mode(&mut self) -> (on: bool)
        ensures
            *final(self) == *old(self),
            on == fields_of(old(self)@.value).hp_ref_mode_xl,
    {
        read_bit(self.value, HP_REF_MODE_XL)
    }

    /// Writes HP_REF_MODE_XL and commits the register byte to the device:
    /// one call of `bus` with the device address, the register's sub-address
    /// and the new byte. What `bus` returns is returned.
    ///
    /// The mirror takes the new byte before `bus` is called and keeps it
    /// whatever `bus` returns. After an `Err` the mirror may differ from the
    /// device: take the device's state as unknown and read it back.
    pub fn set_hp_ref_mode<E, B>(&mut self, bus: B, value: bool) -> (result: Result<(), E>) where
        B: FnOnce(u8, u8, u8) -> Result<(), E>,

        requires
            call_requires(
                bus,
                (old(self)@.address, ADDR, with_bit(old(self)@.value, HP_REF_MODE_XL, value)),
            ),
        ensures
            final(self)@.address == old(self)@.address,
            final(self)@.value == with_bit(old(self)@.value, HP_REF_MODE_XL, value),
            call_ensures(bus, (old(self)@.address, ADDR, final(self)@.value), result),
            fields_of(final(self)@.value) == (Fields {
                hp_ref_mode_xl: value,
                ..fields_of(old(self)@.value)
            }),
            final(self)@.value & !field_mask(HP_REF_MODE_XL, 1) == old(self)@.value & !field_mask(
                HP_REF_MODE_XL,
                1,
            ),
    {
        proof {
            lemma_hp_ref_mode_written(self.value, value);
        }
        let updated = write_bit(self.value, HP_REF_MODE_XL, value);
        self.commit(bus, updated)
    }
}

/// Every field of the register lies inside the byte, and two different
/// fields share no bit.
pub proof fn lemma_fields_apart(offset: u8, width_mask: u8, other_offset: u8, other_width_mask: u8)
    requires
        is_field(offset, width_mask),
        is_field(other_offset, other_width_mask),
    ensures
        field_fits(offset, width_mask),
        offset != other_offset ==> field_mask(offset, width_mask) & field_mask(
            other_offset,
            other_width_mask,
        ) == 0,
{
    assert(field_fits(offset, width_mask) && (offset != other_offset ==> (width_mask << offset) & (
    other_width_mask << other_offset) == 0)) by (bit_vector)
        requires
            is_field(offset, width_mask),
            is_field(other_offset, other_width_mask),
    ;
}

/// Writing `pattern` to one field of the register: that field then holds
/// `pattern`, every other field holds what it held, and no bit outside the
/// written field's mask has changed.
pub proof fn lemma_field_written(value: u8, offset: u8, width_mask: u8, pattern: u8)
    requires
        is_field(offset, width_mask),
        pattern_fits(width_mask, pattern),
    ensures
        field_bits(with_field(value, offset, width_mask, pattern), offset, width_mask) == pattern,
        forall|other_offset: u8, other_width_mask: u8|
            is_field(other_offset, other_width_mask) && other_offset != offset ==> #[trigger] field_bits(
                with_field(value, offset, width_mask, pattern),
                other_offset,
                other_width_mask,
            ) == field_bits(value, other_offset, other_width_mask),
        with_field(value, offset, width_mask, pattern) & !field_mask(offset, width_mask) == value
            & !field_mask(offset, width_mask),
{
    lemma_fields_apart(offset, width_mask, offset, width_mask);
    lemma_field_reads_back(value, offset, width_mask, pattern);
    lemma_write_keeps_other_bits(value, offset, width_mask, pattern);
    assert forall|other_offset: u8, other_width_mask: u8|
        is_field(other_offset, other_width_mask) && other_offset != offset implies #[trigger] field_bits(
        with_field(value, offset, width_mask, pattern),
        other_offset,
        other_width_mask,
    ) == field_bits(value, other_offset, other_width_mask) by {
        lemma_fields_apart(offset, width_mask, other_offset, other_width_mask);
        lemma_fields_apart(other_offset, other_width_mask, offset, width_mask);
        lemma_write_keeps_other_field(
            value,
            offset,
            width_mask,
            pattern,
            other_offset,
            other_width_mask,
        );
    }
}

/// Setting or clearing LOW_PASS_ON_6D: the field then reads as written,
/// every other field decodes as before, and only bit 0 can have changed.
pub proof fn lemma_low_pass_on_6d_written(value: u8, on: bool)
    ensures
        fields_of(with_bit(value, LOW_PASS_ON_6D, on)) == (Fields {
            low_pass_on_6d: on,
            ..fields_of(value)
        }),
        with_bit(value, LOW_PASS_ON_6D, on) & !field_mask(LOW_PASS_ON_6D, 1) == value & !field_mask(
            LOW_PASS_ON_6D,
            1,
        ),
{
    lemma_bit_pattern_fits(on);
    lemma_field_written(value, LOW_PASS_ON_6D, 1, bit_pattern(on));
}

/// Setting or clearing HP_SLOPE_XL_EN: the field then reads as written,
/// every other field decodes as before, and only bit 2 can have changed.
pub proof fn lemma_hp_slope_xl_en_written(value: u8, on: bool)
    ensures
        fields_of(with_bit(value, HP_SLOPE_XL_EN, on)) == (Fields {
            hp_slope_xl_en: on,
            ..fields_of(value)
        }),
        with_bit(value, HP_SLOPE_XL_EN, on) & !field_mask(HP_SLOPE_XL_EN, 1) == value & !field_mask(
            HP_SLOPE_XL_EN,
            1,
        ),
{
    lemma_bit_pattern_fits(on);
    lemma_field_written(value, HP_SLOPE_XL_EN, 1, bit_pattern(on));
}

/// Setting or clearing FASTSETTL_MODE_XL: the field then reads as written,
/// every other field decodes as before, and only bit 3 can have changed.
pub proof fn lemma_fastsettl_mode_written(value: u8, on: bool)
    ensures
        fields_of(with_bit(value, FASTSETTL_MODE_XL, on)) == (Fields {
            fastsettl_mode_xl: on,
            ..fields_of(value)
        }),
        with_bit(value, FASTSETTL_MODE_XL, on) & !field_mask(FASTSETTL_MODE_XL, 1) == value
            & !field_mask(FASTSETTL_MODE_XL, 1),
{
    lemma_bit_pattern_fits(on);
    lemma_field_written(value, FASTSETTL_MODE_XL, 1, bit_pattern(on));
}

/// Setting or clearing HP_REF_MODE_XL: the field then reads as written,
/// every other field decodes as before, and only bit 4 can have changed.
pub proof fn lemma_hp_ref_mode_written(value: u8, on: bool)
    ensures
        fields_of(with_bit(value, HP_REF_MODE_XL, on)) == (Fields {
            hp_ref_mode_xl: on,
            ..fields_of(value)
        }),
        with_bit(value, HP_REF_MODE_XL, on) & !field_mask(HP_REF_MODE_XL, 1) == value & !field_mask(
            HP_REF_MODE_XL,
            1,
        ),
{
    lemma_bit_pattern_fits(on);
    lemma_field_written(value, HP_REF_MODE_XL, 1, bit_pattern(on));
}

/// Writing the cutoff selector: it then decodes to the cutoff written,
/// every other field decodes as before, and only bits 5 to 7 can have
/// changed.
pub proof fn lemma_hpcf_written(value: u8, cutoff: HPCF_Xl)
    ensures
        fields_of(with_hpcf(value, cutoff)) == (Fields { hpcf_xl: cutoff, ..fields_of(value) }),
        with_hpcf(value, cutoff) & !field_mask(HPCF_XL_OFFSET, HPCF_XL_MASK) == value & !field_mask(
            HPCF_XL_OFFSET,
            HPCF_XL_MASK,
        ),
{
    let pattern = cutoff.spec_bits();
    HPCF_Xl::lemma_bits_round_trip(cutoff);
    assert(pattern_fits(HPCF_XL_MASK, pattern)) by (bit_vector)
        requires
            pattern <= 7,
    ;
    lemma_field_written(value, HPCF_XL_OFFSET, HPCF_XL_MASK, pattern);
}

/// The pattern of a one-bit field has no bit but the lowest.
proof fn lemma_bit_pattern_fits(on: bool)
    ensures
        pattern_fits(1, bit_pattern(on)),
{
    assert(pattern_fits(1, 0) && pattern_fits(1, 1)) by (bit_vector);
}

/// Every byte's selector bits stand for a cutoff, and that cutoff's bit
/// pattern is what the selector holds.
pub proof fn lemma_cutoff_decodes(value: u8)
    ensures
        HPCF_Xl::spec_from_bits(field_bits(value, HPCF_XL_OFFSET, HPCF_XL_MASK)) == Some(
            cutoff_of(value),
        ),
        cutoff_of(value).spec_bits() == field_bits(value, HPCF_XL_OFFSET, HPCF_XL_MASK),
{
    assert(field_bits(value, HPCF_XL_OFFSET, HPCF_XL_MASK) <= 7) by (bit_vector);
}

} // verus!
