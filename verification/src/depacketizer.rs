//! The receive path's validator: parses an inbound datagram and rejects
//! anything that does not belong to the expected stereo 48 kHz PCM stream.
//! Every rejection is recoverable; the datagram is simply dropped.

use vstd::prelude::*;
use crate::header::{DecodeError, HeaderModel, decode_header, spec_decode_header};
use crate::resolution::VBANResolution;
use crate::sample_rate::VBANSampleRate;
use crate::stream_name::StreamName;

verus! {

/// Why a datagram was dropped. The first failing check, in the order the
/// checks run, names the rejection.
#[derive(Clone, Copy, Debug, PartialEq, Eq, Structural)]
pub enum PacketReject {
    /// The header itself could not be decoded.
    Header(DecodeError),
    /// The header belongs to a different stream.
    StreamNameMismatch,
    /// Not the audio sub-protocol.
    SubProtoMismatch,
    /// Not PCM.
    CodecMismatch,
    /// This receiver plays stereo; any other channel count is refused.
    ChannelCountMismatch,
    /// This receiver plays at 48000 Hz; any other rate is refused.
    SampleRateMismatch,
    /// This receiver plays 16-bit samples; any other format is refused.
    ResolutionMismatch,
}

/// What a datagram must satisfy to be accepted, checked in order: a header
/// that decodes, the expected stream name, audio sub-protocol, PCM codec,
/// two channels, 48000 Hz, 16-bit samples. On success: the frame index, the
/// declared sample count per channel, and the payload bytes.
pub open spec fn spec_validate(expected: Seq<u8>, bytes: Seq<u8>) -> Result<
    (u32, u16, Seq<u8>),
    PacketReject,
> {
    match spec_decode_header(bytes) {
        Err(e) => Err(PacketReject::Header(e)),
        Ok(p) => {
            let m = p.0;
            if m.name != expected {
                Err(PacketReject::StreamNameMismatch)
            } else if m.sub_proto != 0 {
                Err(PacketReject::SubProtoMismatch)
            } else if m.codec != 0 {
                Err(PacketReject::CodecMismatch)
            } else if m.channel_count != 2 {
                Err(PacketReject::ChannelCountMismatch)
            } else if m.rate != VBANSampleRate::Rate48000 {
                Err(PacketReject::SampleRateMismatch)
            } else if m.resolution != VBANResolution::S16 {
                Err(PacketReject::ResolutionMismatch)
            } else {
                Ok((m.frame, m.sample_count, p.1))
            }
        },
    }
}

/// Validates one inbound datagram against the expected stream name; accepts
/// it exactly when every check of `spec_validate` passes, and otherwise
/// names the first failing check.
pub fn validate_datagram<'a>(expected: &StreamName, buf: &'a [u8]) -> (r: Result<
    (u32, u16, &'a [u8]),
    PacketReject,
>)
    requires
        expected.wf(),
    ensures
        match r {
            Ok(t) => spec_validate(expected@, buf@) == Ok::<(u32, u16, Seq<u8>), PacketReject>(
                (t.0, t.1, t.2@),
            ) && 1 <= t.1 <= 256,
            Err(e) => spec_validate(expected@, buf@) == Err::<(u32, u16, Seq<u8>), PacketReject>(
                e,
            ),
        },
{
    let (header, payload) = match decode_header(buf) {
        Ok(p) => p,
        Err(e) => {
            return Err(PacketReject::Header(e));
        },
    };
    if !(&header.stream_name == expected) {
        return Err(PacketReject::StreamNameMismatch);
    }
    if header.sub_proto != 0 {
        return Err(PacketReject::SubProtoMismatch);
    }
    if header.codec != 0 {
        return Err(PacketReject::CodecMismatch);
    }
    if header.channel_count != 2 {
        return Err(PacketReject::ChannelCountMismatch);
    }
    if !matches!(header.rate, VBANSampleRate::Rate48000) {
        return Err(PacketReject::SampleRateMismatch);
    }
    if !matches!(header.resolution, VBANResolution::S16) {
        return Err(PacketReject::ResolutionMismatch);
    }
    Ok((header.frame, header.sample_count, payload))
}

/// Parses an inbound datagram as the receive loop consumes it: the
/// frame index, the actual sample count per channel, and the payload bytes
/// on success, `None` for any rejected datagram.
pub fn try_parse_header<'a>(stream_name: &StreamName, buf: &'a [u8]) -> (r: Option<
    (u32, usize, &'a [u8]),
>)
    requires
        stream_name.wf(),
    ensures
        match r {
            Some(t) => spec_validate(stream_name@, buf@) matches Ok(v) && t.0 == v.0 && t.1
                == v.1 as usize && t.2@ == v.2,
            None => spec_validate(stream_name@, buf@) is Err,
        },
{
    match validate_datagram(stream_name, buf) {
        Ok((frame, count, payload)) => Some((frame, count as usize, payload)),
        Err(_) => None,
    }
}

} // verus!
