//! The 5-bit sample-rate field of the VBAN header: 21 defined rates in
//! three families (48 kHz multiples, 64 kHz multiples, 44.1 kHz multiples).

use vstd::prelude::*;

verus! {

#[derive(Clone, Copy, Debug, PartialEq, Eq, Structural)]
pub enum VBANSampleRate {
    Rate6000,
    Rate12000,
    Rate24000,
    Rate48000,
    Rate96000,
    Rate192000,
    Rate384000,
    Rate8000,
    Rate16000,
    Rate32000,
    Rate64000,
    Rate128000,
    Rate256000,
    Rate512000,
    Rate11025,
    Rate22050,
    Rate44100,
    Rate88200,
    Rate176400,
    Rate352800,
    Rate705600,
}

/// The wire index of a sample-rate variant: its position in the fixed table,
/// stored in the low five bits of the packed byte.
pub open spec fn spec_rate_index(r: VBANSampleRate) -> u8 {
    match r {
        VBANSampleRate::Rate6000 => 0,
        VBANSampleRate::Rate12000 => 1,
        VBANSampleRate::Rate24000 => 2,
        VBANSampleRate::Rate48000 => 3,
        VBANSampleRate::Rate96000 => 4,
        VBANSampleRate::Rate192000 => 5,
        VBANSampleRate::Rate384000 => 6,
        VBANSampleRate::Rate8000 => 7,
        VBANSampleRate::Rate16000 => 8,
        VBANSampleRate::Rate32000 => 9,
        VBANSampleRate::Rate64000 => 10,
        VBANSampleRate::Rate128000 => 11,
        VBANSampleRate::Rate256000 => 12,
        VBANSampleRate::Rate512000 => 13,
        VBANSampleRate::Rate11025 => 14,
        VBANSampleRate::Rate22050 => 15,
        VBANSampleRate::Rate44100 => 16,
        VBANSampleRate::Rate88200 => 17,
        VBANSampleRate::Rate176400 => 18,
        VBANSampleRate::Rate352800 => 19,
        VBANSampleRate::Rate705600 => 20,
    }
}

/// The variant a 5-bit wire value decodes to, or `None` for the 11 undefined
/// values (21..=31); values 32 and up never occur in a 5-bit field.
pub open spec fn spec_rate_from_index(b: u8) -> Option<VBANSampleRate> {
    if b == 0 {
        Some(VBANSampleRate::Rate6000)
    } else if b == 1 {
        Some(VBANSampleRate::Rate12000)
    } else if b == 2 {
        Some(VBANSampleRate::Rate24000)
    } else if b == 3 {
        Some(VBANSampleRate::Rate48000)
    } else if b == 4 {
        Some(VBANSampleRate::Rate96000)
    } else if b == 5 {
        Some(VBANSampleRate::Rate192000)
    } else if b == 6 {
        Some(VBANSampleRate::Rate384000)
    } else if b == 7 {
        Some(VBANSampleRate::Rate8000)
    } else if b == 8 {
        Some(VBANSampleRate::Rate16000)
    } else if b == 9 {
        Some(VBANSampleRate::Rate32000)
    } else if b == 10 {
        Some(VBANSampleRate::Rate64000)
    } else if b == 11 {
        Some(VBANSampleRate::Rate128000)
    } else if b == 12 {
        Some(VBANSampleRate::Rate256000)
    } else if b == 13 {
        Some(VBANSampleRate::Rate512000)
    } else if b == 14 {
        Some(VBANSampleRate::Rate11025)
    } else if b == 15 {
        Some(VBANSampleRate::Rate22050)
    } else if b == 16 {
        Some(VBANSampleRate::Rate44100)
    } else if b == 17 {
        Some(VBANSampleRate::Rate88200)
    } else if b == 18 {
        Some(VBANSampleRate::Rate176400)
    } else if b == 19 {
        Some(VBANSampleRate::Rate352800)
    } else if b == 20 {
        Some(VBANSampleRate::Rate705600)
    } else {
        None
    }
}

/// Encoding then decoding a rate index gives the rate back, and a decoded
/// index re-encodes to the same wire value: the table is a bijection between
/// the 21 variants and the wire values 0..=20.
pub proof fn lemma_rate_index_bijective(r: VBANSampleRate, b: u8)
    ensures
        spec_rate_index(r) <= 20,
        spec_rate_from_index(spec_rate_index(r)) == Some(r),
        spec_rate_from_index(b) is Some ==> b <= 20 && spec_rate_index(
            spec_rate_from_index(b)->Some_0,
        ) == b,
{
}

pub fn rate_index(r: VBANSampleRate) -> (b: u8)
    ensures
        b == spec_rate_index(r),
{
    match r {
        VBANSampleRate::Rate6000 => 0,
        VBANSampleRate::Rate12000 => 1,
        VBANSampleRate::Rate24000 => 2,
        VBANSampleRate::Rate48000 => 3,
        VBANSampleRate::Rate96000 => 4,
        VBANSampleRate::Rate192000 => 5,
        VBANSampleRate::Rate384000 => 6,
        VBANSampleRate::Rate8000 => 7,
        VBANSampleRate::Rate16000 => 8,
        VBANSampleRate::Rate32000 => 9,
        VBANSampleRate::Rate64000 => 10,
        VBANSampleRate::Rate128000 => 11,
        VBANSampleRate::Rate256000 => 12,
        VBANSampleRate::Rate512000 => 13,
        VBANSampleRate::Rate11025 => 14,
        VBANSampleRate::Rate22050 => 15,
        VBANSampleRate::Rate44100 => 16,
        VBANSampleRate::Rate88200 => 17,
        VBANSampleRate::Rate176400 => 18,
        VBANSampleRate::Rate352800 => 19,
        VBANSampleRate::Rate705600 => 20,
    }
}

pub fn rate_from_index(b: u8) -> (r: Option<VBANSampleRate>)
    ensures
        r == spec_rate_from_index(b),
{
    match b {
        0 => Some(VBANSampleRate::Rate6000),
        1 => Some(VBANSampleRate::Rate12000),
        2 => Some(VBANSampleRate::Rate24000),
        3 => Some(VBANSampleRate::Rate48000),
        4 => Some(VBANSampleRate::Rate96000),
        5 => Some(VBANSampleRate::Rate192000),
        6 => Some(VBANSampleRate::Rate384000),
        7 => Some(VBANSampleRate::Rate8000),
        8 => Some(VBANSampleRate::Rate16000),
        9 => Some(VBANSampleRate::Rate32000),
        10 => Some(VBANSampleRate::Rate64000),
        11 => Some(VBANSampleRate::Rate128000),
        12 => Some(VBANSampleRate::Rate256000),
        13 => Some(VBANSampleRate::Rate512000),
        14 => Some(VBANSampleRate::Rate11025),
        15 => Some(VBANSampleRate::Rate22050),
        16 => Some(VBANSampleRate::Rate44100),
        17 => Some(VBANSampleRate::Rate88200),
        18 => Some(VBANSampleRate::Rate176400),
        19 => Some(VBANSampleRate::Rate352800),
        20 => Some(VBANSampleRate::Rate705600),
        _ => None,
    }
}

} // verus!
