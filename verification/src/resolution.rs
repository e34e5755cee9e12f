//! The 3-bit sample-resolution field of the VBAN header: eight defined
//! sample formats, so every 3-bit wire value maps to a variant.

use vstd::prelude::*;

verus! {

#[derive(Clone, Copy, Debug, PartialEq, Eq, Structural)]
pub enum VBANResolution {
    U8,
    S16,
    S24,
    S32,
    F32,
    F64,
    S12,
    S10,
}

/// The wire index of a resolution variant: its position in the fixed table,
/// stored in the low three bits of the codec/resolution byte.
pub open spec fn spec_resolution_index(r: VBANResolution) -> u8 {
    match r {
        VBANResolution::U8 => 0,
        VBANResolution::S16 => 1,
        VBANResolution::S24 => 2,
        VBANResolution::S32 => 3,
        VBANResolution::F32 => 4,
        VBANResolution::F64 => 5,
        VBANResolution::S12 => 6,
        VBANResolution::S10 => 7,
    }
}

/// The variant a 3-bit wire value decodes to, or `None` above 7; all eight
/// values that fit in three bits are defined, so a 3-bit field never fails.
pub open spec fn spec_resolution_from_index(b: u8) -> Option<VBANResolution> {
    if b == 0 {
        Some(VBANResolution::U8)
    } else if b == 1 {
        Some(VBANResolution::S16)
    } else if b == 2 {
        Some(VBANResolution::S24)
    } else if b == 3 {
        Some(VBANResolution::S32)
    } else if b == 4 {
        Some(VBANResolution::F32)
    } else if b == 5 {
        Some(VBANResolution::F64)
    } else if b == 6 {
        Some(VBANResolution::S12)
    } else if b == 7 {
        Some(VBANResolution::S10)
    } else {
        None
    }
}

/// Encoding then decoding a resolution index gives the variant back, and a
/// decoded index re-encodes to the same wire value.
pub proof fn lemma_resolution_index_bijective(r: VBANResolution, b: u8)
    ensures
        spec_resolution_index(r) <= 7,
        spec_resolution_from_index(spec_resolution_index(r)) == Some(r),
        spec_resolution_from_index(b) is Some ==> b <= 7 && spec_resolution_index(
            spec_resolution_from_index(b)->Some_0,
        ) == b,
{
}

pub fn resolution_index(r: VBANResolution) -> (b: u8)
    ensures
        b == spec_resolution_index(r),
{
    match r {
        VBANResolution::U8 => 0,
        VBANResolution::S16 => 1,
        VBANResolution::S24 => 2,
        VBANResolution::S32 => 3,
        VBANResolution::F32 => 4,
        VBANResolution::F64 => 5,
        VBANResolution::S12 => 6,
        VBANResolution::S10 => 7,
    }
}

pub fn resolution_from_index(b: u8) -> (r: Option<VBANResolution>)
    ensures
        r == spec_resolution_from_index(b),
{
    match b {
        0 => Some(VBANResolution::U8),
        1 => Some(VBANResolution::S16),
        2 => Some(VBANResolution::S24),
        3 => Some(VBANResolution::S32),
        4 => Some(VBANResolution::F32),
        5 => Some(VBANResolution::F64),
        6 => Some(VBANResolution::S12),
        7 => Some(VBANResolution::S10),
        _ => None,
    }
}

} // verus!
