//! Signed 16-bit PCM samples and their little-endian wire bytes.

use vstd::prelude::*;

verus! {

/// A 16-bit sample as the unsigned value of its two's-complement bits,
/// 0 through 65535.
pub open spec fn spec_sample_unsigned(s: i16) -> int {
    if s >= 0 {
        s as int
    } else {
        s as int + 65536
    }
}

/// The sample whose two's-complement bits have the given unsigned value.
pub open spec fn spec_sample_of_unsigned(u: int) -> i16
    recommends
        0 <= u < 65536,
{
    if u < 32768 {
        u as i16
    } else {
        (u - 65536) as i16
    }
}

/// One sample read from its two little-endian wire bytes.
pub open spec fn spec_sample_of_le(lo: u8, hi: u8) -> i16 {
    spec_sample_of_unsigned(lo + 256 * hi)
}

/// A block of samples as its little-endian wire bytes, two per sample, low
/// byte first.
pub open spec fn spec_sample_bytes(s: Seq<i16>) -> Seq<u8> {
    Seq::new(
        (2 * s.len()) as nat,
        |i: int|
            if i % 2 == 0 {
                (spec_sample_unsigned(s[i / 2]) % 256) as u8
            } else {
                (spec_sample_unsigned(s[i / 2]) / 256) as u8
            },
    )
}

/// The samples read from wire bytes: one per whole byte pair; a trailing
/// odd byte carries no sample and is ignored.
pub open spec fn spec_samples_of_bytes(b: Seq<u8>) -> Seq<i16> {
    Seq::new((b.len() / 2) as nat, |i: int| spec_sample_of_le(b[2 * i], b[2 * i + 1]))
}

/// Writing a sample as bytes and reading it back gives the sample: no value
/// is corrupted on the wire.
pub proof fn lemma_sample_round_trip(s: i16)
    ensures
        spec_sample_of_le(
            (spec_sample_unsigned(s) % 256) as u8,
            (spec_sample_unsigned(s) / 256) as u8,
        ) == s,
{
    let u = spec_sample_unsigned(s);
    assert(u % 256 + 256 * (u / 256) == u) by (nonlinear_arith)
        requires
            0 <= u < 65536,
    ;
}

/// A whole block of samples, written as bytes and read back, is unchanged.
pub proof fn lemma_sample_block_round_trip(s: Seq<i16>)
    ensures
        spec_samples_of_bytes(spec_sample_bytes(s)) == s,
{
    let b = spec_sample_bytes(s);
    assert forall|i: int| 0 <= i < s.len() implies spec_samples_of_bytes(b)[i] == s[i] by {
        assert((2 * i) % 2 == 0 && (2 * i + 1) % 2 == 1 && (2 * i) / 2 == i && (2 * i + 1) / 2
            == i) by (nonlinear_arith);
        lemma_sample_round_trip(s[i]);
    }
    assert(spec_samples_of_bytes(b) =~= s);
}

/// The two little-endian wire bytes of one sample, low byte first.
pub fn sample_to_le(s: i16) -> (r: (u8, u8))
    ensures
        r.0 == (spec_sample_unsigned(s) % 256) as u8,
        r.1 == (spec_sample_unsigned(s) / 256) as u8,
{
    let u: u32 = if s >= 0 {
        s as u32
    } else {
        (s as i32 + 65536) as u32
    };
    ((u % 256) as u8, (u / 256) as u8)
}

/// The sample carried by two little-endian wire bytes.
pub fn sample_from_le(lo: u8, hi: u8) -> (s: i16)
    ensures
        s == spec_sample_of_le(lo, hi),
{
    let u: u32 = lo as u32 + 256 * (hi as u32);
    if u < 32768 {
        u as i16
    } else {
        (u as i32 - 65536) as i16
    }
}

/// Encodes a block of samples as its wire bytes.
pub fn encode_samples(samples: &[i16]) -> (out: Vec<u8>)
    ensures
        out@ == spec_sample_bytes(samples@),
{
    let mut out: Vec<u8> = Vec::new();
    let mut i: usize = 0;
    while i < samples.len()
        invariant
            0 <= i <= samples@.len(),
            out@.len() == 2 * i,
            out@ =~= spec_sample_bytes(samples@).take(2 * i),
        decreases samples@.len() - i,
    {
        let (lo, hi) = sample_to_le(samples[i]);
        out.push(lo);
        out.push(hi);
        proof {
            assert(out@ =~= spec_sample_bytes(samples@).take(2 * (i + 1)));
        }
        i += 1;
    }
    assert(out@ =~= spec_sample_bytes(samples@));
    out
}

/// Decodes the samples carried by a payload, discarding a trailing odd byte.
pub fn decode_samples(payload: &[u8]) -> (out: Vec<i16>)
    ensures
        out@ == spec_samples_of_bytes(payload@),
{
    let plen = payload.len();
    let n = plen / 2;
    let mut out: Vec<i16> = Vec::new();
    let mut i: usize = 0;
    while i < n
        invariant
            0 <= i <= n,
            plen == payload@.len(),
            n == payload@.len() / 2,
            out@.len() == i,
            out@ =~= spec_samples_of_bytes(payload@).take(i as int),
        decreases n - i,
    {
        proof {
            assert(2 * (i as int) + 1 < payload@.len()) by (nonlinear_arith)
                requires
                    0 <= i < payload@.len() / 2,
            ;
        }
        let s = sample_from_le(payload[2 * i], payload[2 * i + 1]);
        out.push(s);
        proof {
            assert(out@ =~= spec_samples_of_bytes(payload@).take(i + 1));
        }
        i += 1;
    }
    assert(out@ =~= spec_samples_of_bytes(payload@));
    out
}

} // verus!
