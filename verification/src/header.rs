//! The fixed 28-byte VBAN wire header: bit-exact encoding and decoding.
//!
//! Layout, in order: the 4-byte magic `"VBAN"`; one packed byte holding the
//! 3-bit sub-protocol (high bits) and the 5-bit sample-rate index (low
//! bits); one byte holding the sample count minus one; one byte holding the
//! channel count minus one; one packed byte holding the 4-bit codec (high
//! bits), one reserved zero bit, and the 3-bit resolution index (low bits);
//! the 16-byte stream name; and the 32-bit little-endian frame counter.

use vstd::prelude::*;
use crate::resolution::{
    VBANResolution, lemma_resolution_index_bijective, resolution_from_index, resolution_index,
    spec_resolution_from_index, spec_resolution_index,
};
use crate::sample_rate::{
    VBANSampleRate, lemma_rate_index_bijective, rate_from_index, rate_index, spec_rate_from_index,
    spec_rate_index,
};
use crate::stream_name::StreamName;

verus! {

/// Size of the fixed wire header in bytes.
pub const HEADER_LEN: usize = 28;

/// A VBAN header with its counts held as actual values (not the wire
/// value, which stores count minus one).
pub struct VBANHeader {
    /// Stream category, 3 bits on the wire; audio is 0.
    pub sub_proto: u8,
    pub rate: VBANSampleRate,
    /// Samples per channel in this packet, 1 through 256.
    pub sample_count: u16,
    /// Channels in this packet, 1 through 256.
    pub channel_count: u16,
    /// Sample codec, 4 bits on the wire; PCM is 0.
    pub codec: u8,
    pub resolution: VBANResolution,
    pub stream_name: StreamName,
    /// Wrapping per-sender packet sequence counter.
    pub frame: u32,
}

/// The abstract content of a header: its fields with the stream name as its
/// 16 wire bytes. Two decoded headers are the same exactly when their models
/// are equal.
#[verifier::ext_equal]
pub ghost struct HeaderModel {
    pub sub_proto: u8,
    pub rate: VBANSampleRate,
    pub sample_count: u16,
    pub channel_count: u16,
    pub codec: u8,
    pub resolution: VBANResolution,
    pub name: Seq<u8>,
    pub frame: u32,
}

/// Why a header could not be encoded.
#[derive(Clone, Copy, Debug, PartialEq, Eq, Structural)]
pub enum EncodeError {
    /// The sample count is 0 or above 256: it cannot be stored as count
    /// minus one in one byte.
    SampleCountOutOfRange,
    /// The channel count is 0 or above 256.
    ChannelCountOutOfRange,
    /// The sub-protocol does not fit in its 3-bit field.
    SubProtoOutOfRange,
    /// The codec does not fit in its 4-bit field.
    CodecOutOfRange,
}

/// Why a byte sequence could not be decoded as a header.
#[derive(Clone, Copy, Debug, PartialEq, Eq, Structural)]
pub enum DecodeError {
    /// Fewer than 28 bytes.
    Truncated,
    /// The first four bytes are not `"VBAN"`.
    MagicMismatch,
    /// The sample-rate or resolution field matches no defined variant.
    UnknownEnumValue,
}

/// The four magic bytes `"VBAN"`.
pub open spec fn spec_magic() -> Seq<u8> {
    seq![0x56u8, 0x42u8, 0x41u8, 0x4eu8]
}

/// A 32-bit value as its four little-endian bytes.
pub open spec fn spec_le32(x: u32) -> Seq<u8> {
    seq![
        (x % 256) as u8,
        ((x / 256) % 256) as u8,
        ((x / 65536) % 256) as u8,
        ((x / 16777216) % 256) as u8,
    ]
}

impl VBANHeader {
    /// Every field fits its wire field, and the name carries its 16 bytes.
    pub open spec fn wf(&self) -> bool {
        &&& self.sub_proto < 8
        &&& 1 <= self.sample_count <= 256
        &&& 1 <= self.channel_count <= 256
        &&& self.codec < 16
        &&& self.stream_name.wf()
    }

    /// The abstract content of this header.
    pub open spec fn model(&self) -> HeaderModel {
        HeaderModel {
            sub_proto: self.sub_proto,
            rate: self.rate,
            sample_count: self.sample_count,
            channel_count: self.channel_count,
            codec: self.codec,
            resolution: self.resolution,
            name: self.stream_name@,
            frame: self.frame,
        }
    }
}

impl HeaderModel {
    /// Every field fits its wire field, and the name is 16 bytes.
    pub open spec fn wf(&self) -> bool {
        &&& self.sub_proto < 8
        &&& 1 <= self.sample_count <= 256
        &&& 1 <= self.channel_count <= 256
        &&& self.codec < 16
        &&& self.name.len() == 16
    }
}

/// The 28 header bytes of a well-formed header, exactly as they go on the
/// wire.
pub open spec fn spec_encode_header(m: HeaderModel) -> Seq<u8>
    recommends
        m.wf(),
{
    spec_magic() + seq![
        (m.sub_proto * 32 + spec_rate_index(m.rate)) as u8,
        (m.sample_count - 1) as u8,
        (m.channel_count - 1) as u8,
        (m.codec * 16 + spec_resolution_index(m.resolution)) as u8,
    ] + m.name + spec_le32(m.frame)
}

/// What a byte sequence decodes to: the header content and the remaining
/// payload bytes, or the first decoding failure. The reserved bit of the
/// codec byte is ignored, as the wire format demands.
pub open spec fn spec_decode_header(bytes: Seq<u8>) -> Result<(HeaderModel, Seq<u8>), DecodeError> {
    if bytes.len() < 28 {
        Err(DecodeError::Truncated)
    } else if bytes.subrange(0, 4) != spec_magic() {
        Err(DecodeError::MagicMismatch)
    } else if spec_rate_from_index((bytes[4] % 32) as u8) is None || spec_resolution_from_index(
        (bytes[7] % 8) as u8,
    ) is None {
        Err(DecodeError::UnknownEnumValue)
    } else {
        Ok(
            (
                HeaderModel {
                    sub_proto: (bytes[4] / 32) as u8,
                    rate: spec_rate_from_index((bytes[4] % 32) as u8)->Some_0,
                    sample_count: (bytes[5] + 1) as u16,
                    channel_count: (bytes[6] + 1) as u16,
                    codec: (bytes[7] / 16) as u8,
                    resolution: spec_resolution_from_index((bytes[7] % 8) as u8)->Some_0,
                    name: bytes.subrange(8, 24),
                    frame: (bytes[24] + bytes[25] * 256 + bytes[26] * 65536 + bytes[27]
                        * 16777216) as u32,
                },
                bytes.skip(28),
            ),
        )
    }
}

/// Header round-trip: a well-formed header, encoded with any payload behind
/// it, decodes back to exactly the same content, with the payload as the
/// remaining bytes.
pub proof fn lemma_header_round_trip(m: HeaderModel, tail: Seq<u8>)
    requires
        m.wf(),
    ensures
        spec_decode_header(spec_encode_header(m) + tail) == Ok::<
            (HeaderModel, Seq<u8>),
            DecodeError,
        >((m, tail)),
{
    let e = spec_encode_header(m) + tail;
    assert(spec_encode_header(m).len() == 28);
    assert(e.subrange(0, 4) =~= spec_magic());
    let b4 = (m.sub_proto * 32 + spec_rate_index(m.rate)) as u8;
    let b7 = (m.codec * 16 + spec_resolution_index(m.resolution)) as u8;
    lemma_rate_index_bijective(m.rate, 0);
    lemma_resolution_index_bijective(m.resolution, 0);
    assert(b4 / 32 == m.sub_proto && b4 % 32 == spec_rate_index(m.rate)) by (nonlinear_arith)
        requires
            m.sub_proto < 8,
            spec_rate_index(m.rate) < 32,
            b4 == m.sub_proto * 32 + spec_rate_index(m.rate),
    ;
    assert(b7 / 16 == m.codec && b7 % 8 == spec_resolution_index(m.resolution))
        by (nonlinear_arith)
        requires
            m.codec < 16,
            spec_resolution_index(m.resolution) < 8,
            b7 == m.codec * 16 + spec_resolution_index(m.resolution),
    ;
    assert(e[4] == b4 && e[5] == (m.sample_count - 1) as u8 && e[6] == (m.channel_count - 1) as u8
        && e[7] == b7);
    let f = m.frame;
    assert(f % 256 + ((f / 256) % 256) * 256 + ((f / 65536) % 256) * 65536 + ((f / 16777216) % 256)
        * 16777216 == f) by (nonlinear_arith)
        requires
            f <= 0xffffffffu32,
    ;
    assert(e.subrange(8, 24) =~= m.name);
    assert(e.skip(28) =~= tail);
    let d = spec_decode_header(e);
    assert(d is Ok);
    assert(d->Ok_0.0 =~= m);
    assert(d->Ok_0 == (m, tail));
}

/// Encodes a header into its 28 wire bytes; refuses any field that does not
/// fit its wire field, naming the first one that fails.
pub fn encode_header(h: &VBANHeader) -> (r: Result<Vec<u8>, EncodeError>)
    requires
        h.stream_name.wf(),
    ensures
        match r {
            Ok(bytes) => h.wf() && bytes@ == spec_encode_header(h.model()),
            Err(e) => !h.wf() && match e {
                EncodeError::SampleCountOutOfRange => !(1 <= h.sample_count <= 256),
                EncodeError::ChannelCountOutOfRange => 1 <= h.sample_count <= 256 && !(1
                    <= h.channel_count <= 256),
                EncodeError::SubProtoOutOfRange => 1 <= h.sample_count <= 256 && 1
                    <= h.channel_count <= 256 && h.sub_proto >= 8,
                EncodeError::CodecOutOfRange => 1 <= h.sample_count <= 256 && 1 <= h.channel_count
                    <= 256 && h.sub_proto < 8 && h.codec >= 16,
            },
        },
{
    if h.sample_count < 1 || h.sample_count > 256 {
        return Err(EncodeError::SampleCountOutOfRange);
    }
    if h.channel_count < 1 || h.channel_count > 256 {
        return Err(EncodeError::ChannelCountOutOfRange);
    }
    if h.sub_proto >= 8 {
        return Err(EncodeError::SubProtoOutOfRange);
    }
    if h.codec >= 16 {
        return Err(EncodeError::CodecOutOfRange);
    }
    let mut out: Vec<u8> = Vec::new();
    out.push(0x56);
    out.push(0x42);
    out.push(0x41);
    out.push(0x4e);
    out.push(h.sub_proto * 32 + rate_index(h.rate));
    out.push((h.sample_count - 1) as u8);
    out.push((h.channel_count - 1) as u8);
    out.push(h.codec * 16 + resolution_index(h.resolution));
    let name = h.stream_name.wire_bytes();
    let mut i: usize = 0;
    while i < name.len()
        invariant
            0 <= i <= name@.len(),
            name@.len() == 16,
            name@ == h.stream_name@,
            out@.len() == 8 + i,
            out@ =~= spec_encode_header(h.model()).take(8 + i),
        decreases name@.len() - i,
    {
        out.push(name[i]);
        i += 1;
    }
    let f = h.frame;
    out.push((f % 256) as u8);
    out.push(((f / 256) % 256) as u8);
    out.push(((f / 65536) % 256) as u8);
    out.push(((f / 16777216) % 256) as u8);
    assert(out@ =~= spec_encode_header(h.model()));
    Ok(out)
}

/// Decodes the fixed header from the front of a datagram; on success hands
/// back the header and the remaining bytes as the payload region. Malformed
/// input is a recoverable error, never a panic.
pub fn decode_header<'a>(buf: &'a [u8]) -> (r: Result<(VBANHeader, &'a [u8]), DecodeError>)
    ensures
        match r {
            Ok(p) => {
                &&& p.0.wf()
                &&& spec_decode_header(buf@) == Ok::<(HeaderModel, Seq<u8>), DecodeError>(
                    (p.0.model(), p.1@),
                )
                &&& p.1@ == buf@.skip(28)
            },
            Err(e) => spec_decode_header(buf@) == Err::<(HeaderModel, Seq<u8>), DecodeError>(e),
        },
{
    if buf.len() < HEADER_LEN {
        return Err(DecodeError::Truncated);
    }
    if buf[0] != 0x56 || buf[1] != 0x42 || buf[2] != 0x41 || buf[3] != 0x4e {
        assert(buf@.subrange(0, 4) != spec_magic());
        return Err(DecodeError::MagicMismatch);
    }
    assert(buf@.subrange(0, 4) =~= spec_magic());
    let b4 = buf[4];
    let rate = match rate_from_index(b4 % 32) {
        Some(rate) => rate,
        None => {
            return Err(DecodeError::UnknownEnumValue);
        },
    };
    let b7 = buf[7];
    let resolution = match resolution_from_index(b7 % 8) {
        Some(resolution) => resolution,
        None => {
            return Err(DecodeError::UnknownEnumValue);
        },
    };
    let name_bytes = vstd::slice::slice_subrange(buf, 8, 24);
    let stream_name = StreamName::from_wire(name_bytes);
    let frame: u32 = buf[24] as u32 + buf[25] as u32 * 256 + buf[26] as u32 * 65536 + buf[27] as u32
        * 16777216;
    let header = VBANHeader {
        sub_proto: b4 / 32,
        rate,
        sample_count: buf[5] as u16 + 1,
        channel_count: buf[6] as u16 + 1,
        codec: b7 / 16,
        resolution,
        stream_name,
        frame,
    };
    let payload = vstd::slice::slice_subrange(buf, HEADER_LEN, buf.len());
    proof {
        assert(payload@ =~= buf@.skip(28));
        assert(header.model() =~= spec_decode_header(buf@)->Ok_0.0);
    }
    Ok((header, payload))
}

} // verus!
