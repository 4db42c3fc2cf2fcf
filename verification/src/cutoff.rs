//! The cutoff selector of the accelerometer's high-pass and second-stage
//! low-pass filters.

use vstd::prelude::*;

verus! {

/// Cutoff of the accelerometer's LPF2 and high-pass filters, as a fraction
/// of the output data rate (ODR).
///
/// The register holds a selector in three bits; each variant stands for one
/// bit pattern, written out in [`HPCF_Xl::spec_bits`].
#[allow(non_camel_case_types)]
#[derive(Copy, Clone, Eq, PartialEq, Structural, Ord, PartialOrd, Hash, Debug)]
pub enum HPCF_Xl {
    ODR_SLOPE_4,
    ODR_10,
    ODR_20,
    ODR_45,
    ODR_100,
    ODR_200,
    ODR_400,
    ODR_800,
}

impl HPCF_Xl {
    /// The bit pattern that selects this cutoff in the register.
    pub open spec fn spec_bits(self) -> u8 {
        match self {
            HPCF_Xl::ODR_SLOPE_4 => 0,
            HPCF_Xl::ODR_10 => 1,
            HPCF_Xl::ODR_20 => 2,
            HPCF_Xl::ODR_45 => 3,
            HPCF_Xl::ODR_100 => 4,
            HPCF_Xl::ODR_200 => 5,
            HPCF_Xl::ODR_400 => 6,
            HPCF_Xl::ODR_800 => 7,
        }
    }

    /// The cutoff that a bit pattern selects, if it selects one: the
    /// patterns 0 to 7 do, nothing else does.
    pub open spec fn spec_from_bits(bits: u8) -> Option<HPCF_Xl> {
        if bits == 0 {
            Some(HPCF_Xl::ODR_SLOPE_4)
        } else if bits == 1 {
            Some(HPCF_Xl::ODR_10)
        } else if bits == 2 {
            Some(HPCF_Xl::ODR_20)
        } else if bits == 3 {
            Some(HPCF_Xl::ODR_45)
        } else if bits == 4 {
            Some(HPCF_Xl::ODR_100)
        } else if bits == 5 {
            Some(HPCF_Xl::ODR_200)
        } else if bits == 6 {
            Some(HPCF_Xl::ODR_400)
        } else if bits == 7 {
            Some(HPCF_Xl::ODR_800)
        } else {
            None
        }
    }

    /// The divisor of the output data rate that gives the cutoff frequency.
    pub open spec fn spec_ratio(self) -> u16 {
        match self {
            HPCF_Xl::ODR_SLOPE_4 => 4,
            HPCF_Xl::ODR_10 => 10,
            HPCF_Xl::ODR_20 => 20,
            HPCF_Xl::ODR_45 => 45,
            HPCF_Xl::ODR_100 => 100,
            HPCF_Xl::ODR_200 => 200,
            HPCF_Xl::ODR_400 => 400,
            HPCF_Xl::ODR_800 => 800,
        }
    }

    /// The bit pattern that selects this cutoff in the register.
    #[verifier::when_used_as_spec(spec_bits)]
    pub fn bits(self) -> (bits: u8)
        ensures
            bits == self.spec_bits(),
            bits <= 7,
    {
        match self {
            HPCF_Xl::ODR_SLOPE_4 => 0,
            HPCF_Xl::ODR_10 => 1,
            HPCF_Xl::ODR_20 => 2,
            HPCF_Xl::ODR_45 => 3,
            HPCF_Xl::ODR_100 => 4,
            HPCF_Xl::ODR_200 => 5,
            HPCF_Xl::ODR_400 => 6,
            HPCF_Xl::ODR_800 => 7,
        }
    }

    /// The cutoff that `bits` selects; `None` for a pattern above 7, which
    /// three bits cannot hold.
    pub fn from_bits(bits: u8) -> (cutoff: Option<HPCF_Xl>)
        ensures
            cutoff == HPCF_Xl::spec_from_bits(bits),
            cutoff is Some <==> bits <= 7,
    {
        match bits {
            0 => Some(HPCF_Xl::ODR_SLOPE_4),
            1 => Some(HPCF_Xl::ODR_10),
            2 => Some(HPCF_Xl::ODR_20),
            3 => Some(HPCF_Xl::ODR_45),
            4 => Some(HPCF_Xl::ODR_100),
            5 => Some(HPCF_Xl::ODR_200),
            6 => Some(HPCF_Xl::ODR_400),
            7 => Some(HPCF_Xl::ODR_800),
            _ => None,
        }
    }

    /// The divisor of the output data rate that gives the cutoff frequency:
    /// the filter cuts off at ODR / `ratio`.
    #[verifier::when_used_as_spec(spec_ratio)]
    pub fn ratio(self) -> (divisor: u16)
        ensures
            divisor == self.spec_ratio(),
    {
        match self {
            HPCF_Xl::ODR_SLOPE_4 => 4,
            HPCF_Xl::ODR_10 => 10,
            HPCF_Xl::ODR_20 => 20,
            HPCF_Xl::ODR_45 => 45,
            HPCF_Xl::ODR_100 => 100,
            HPCF_Xl::ODR_200 => 200,
            HPCF_Xl::ODR_400 => 400,
            HPCF_Xl::ODR_800 => 800,
        }
    }

    /// Every cutoff is found again from its own bit pattern, and that
    /// pattern fits in three bits.
    pub proof fn lemma_bits_round_trip(cutoff: HPCF_Xl)
        ensures
            HPCF_Xl::spec_from_bits(cutoff.spec_bits()) == Some(cutoff),
            cutoff.spec_bits() <= 7,
    {
    }

    /// A bit pattern selects a cutoff exactly when it is at most 7, and the
    /// cutoff it selects has that pattern: no two cutoffs share one.
    pub proof fn lemma_from_bits_inverts(bits: u8)
        ensures
            HPCF_Xl::spec_from_bits(bits) is Some <==> bits <= 7,
            HPCF_Xl::spec_from_bits(bits) matches Some(cutoff) ==> cutoff.spec_bits() == bits,
    {
    }
}

} // verus!
