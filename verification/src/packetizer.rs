//! The send path: splits a captured block of mono 16-bit samples into
//! MTU-bounded chunks, each carried by one packet with a fresh, wrapping
//! frame index.

use vstd::prelude::*;
use vstd::pervasive::unreached;
use crate::frame::{lemma_wrap_add_assoc, lemma_wrap_add_zero, next_frame, spec_wrap_add};
use crate::header::{HeaderModel, VBANHeader, encode_header, spec_encode_header};
use crate::resolution::VBANResolution;
use crate::sample_rate::VBANSampleRate;
use crate::samples::{encode_samples, spec_sample_bytes};
use crate::stream_name::StreamName;

verus! {

/// Largest payload of one packet in bytes, keeping the whole datagram under
/// a common network MTU after header and IP/UDP overhead.
pub const MAX_PAYLOAD_BYTES: usize = 1436;

/// Bytes per 16-bit sample on the wire.
pub const SAMPLE_BYTE_SIZE: usize = 2;

/// How many packets a block of `n` samples yields: one per 256 samples, the
/// last possibly shorter; an empty block yields none.
pub open spec fn spec_num_chunks(n: int) -> int {
    (n + 255) / 256
}

/// Where chunk `k` of a block of `n` samples ends: after 256 samples, or at
/// the end of the block.
pub open spec fn spec_chunk_end(n: int, k: int) -> int {
    if 256 * (k + 1) <= n {
        256 * (k + 1)
    } else {
        n
    }
}

/// Chunk `k` of a block: samples `256 k` up to the chunk's end.
pub open spec fn spec_chunk(s: Seq<i16>, k: int) -> Seq<i16> {
    s.subrange(256 * k, spec_chunk_end(s.len() as int, k))
}

/// The header content of one send-path packet: audio sub-protocol, the
/// capture rate of 22050 Hz, one channel, PCM, 16-bit samples.
pub open spec fn spec_send_model(name: Seq<u8>, frame: u32, count: u16) -> HeaderModel {
    HeaderModel {
        sub_proto: 0,
        rate: VBANSampleRate::Rate22050,
        sample_count: count,
        channel_count: 1,
        codec: 0,
        resolution: VBANResolution::S16,
        name,
        frame,
    }
}

/// One complete send-path packet: the header, then the chunk's bytes.
pub open spec fn spec_packet(name: Seq<u8>, frame: u32, chunk: Seq<i16>) -> Seq<u8> {
    spec_encode_header(spec_send_model(name, frame, chunk.len() as u16)) + spec_sample_bytes(chunk)
}

/// Builds the wire header of one send-path packet. `sample_count` is the
/// wire value: the actual count minus one.
pub fn write_header(
    stream_name: StreamName,
    frame: u32,
    format_bit: VBANResolution,
    sample_count: u8,
) -> (r: Vec<u8>)
    requires
        stream_name.wf(),
    ensures
        r@ == spec_encode_header(
            HeaderModel {
                sub_proto: 0,
                rate: VBANSampleRate::Rate22050,
                sample_count: (sample_count + 1) as u16,
                channel_count: 1,
                codec: 0,
                resolution: format_bit,
                name: stream_name@,
                frame,
            },
        ),
{
    let header = VBANHeader {
        sub_proto: 0,
        rate: VBANSampleRate::Rate22050,
        sample_count: sample_count as u16 + 1,
        channel_count: 1,
        codec: 0,
        resolution: format_bit,
        stream_name,
        frame,
    };
    match encode_header(&header) {
        Ok(v) => v,
        Err(_) => unreached(),
    }
}

/// The send direction's state: the stream's name and the frame counter,
/// which persists across calls and is owned by the capture context alone.
pub struct SendSession {
    pub stream_name: StreamName,
    pub frame: u32,
}

impl SendSession {
    pub open spec fn wf(&self) -> bool {
        self.stream_name.wf()
    }

    pub fn new(stream_name: StreamName) -> (s: SendSession)
        requires
            stream_name.wf(),
        ensures
            s.wf(),
            s.stream_name@ == stream_name@,
            s.frame == 0,
    {
        SendSession { stream_name, frame: 0 }
    }

    /// Splits a captured block into chunks of at most 256 samples and wraps
    /// each in a packet. Chunk `k` of the block is carried by the packet
    /// with frame index `old frame + k + 1` (wrapping); the counter keeps
    /// the last used index, so it is monotonic across the whole session.
    pub fn packetize(&mut self, samples: &[i16]) -> (packets: Vec<Vec<u8>>)
        requires
            old(self).wf(),
        ensures
            final(self).wf(),
            final(self).stream_name@ == old(self).stream_name@,
            packets@.len() == spec_num_chunks(samples@.len() as int),
            final(self).frame == spec_wrap_add(old(self).frame, packets@.len() as int),
            forall|k: int|
                0 <= k < packets@.len() ==> (#[trigger] packets@[k])@ == spec_packet(
                    old(self).stream_name@,
                    spec_wrap_add(old(self).frame, k + 1),
                    spec_chunk(samples@, k),
                ),
    {
        let ghost f0 = self.frame;
        let ghost name0 = self.stream_name@;
        let ghost len = samples@.len() as int;
        // the sample-count field caps a chunk at 256 samples, tighter here
        // than the MTU bound of 1436 / 2 = 718
        let mtu_cap = MAX_PAYLOAD_BYTES / SAMPLE_BYTE_SIZE;
        let chunk_size = if mtu_cap < 256 {
            mtu_cap
        } else {
            256
        };
        assert(chunk_size == 256);
        let mut packets: Vec<Vec<u8>> = Vec::new();
        let mut start: usize = 0;
        proof {
            lemma_wrap_add_zero(f0);
        }
        while start < samples.len()
            invariant
                chunk_size == 256,
                self.stream_name@ == name0,
                self.stream_name.wf(),
                len == samples@.len(),
                0 <= start <= len,
                start == (if 256 * (packets@.len() as int) <= len {
                    256 * (packets@.len() as int)
                } else {
                    len
                }),
                packets@.len() == 0 || 256 * (packets@.len() - 1) < len,
                self.frame == spec_wrap_add(f0, packets@.len() as int),
                forall|j: int|
                    0 <= j < packets@.len() ==> (#[trigger] packets@[j])@ == spec_packet(
                        name0,
                        spec_wrap_add(f0, j + 1),
                        spec_chunk(samples@, j),
                    ),
            decreases len - start,
        {
            let ghost k = packets@.len() as int;
            assert(256 * k < len);
            let end = if samples.len() - start < chunk_size {
                samples.len()
            } else {
                start + chunk_size
            };
            assert(end == spec_chunk_end(len, k));
            let chunk = vstd::slice::slice_subrange(samples, start, end);
            assert(chunk@ =~= spec_chunk(samples@, k));
            let f = next_frame(self.frame);
            self.frame = f;
            proof {
                lemma_wrap_add_assoc(f0, k);
            }
            let header = VBANHeader {
                sub_proto: 0,
                rate: VBANSampleRate::Rate22050,
                sample_count: (end - start) as u16,
                channel_count: 1,
                codec: 0,
                resolution: VBANResolution::S16,
                stream_name: self.stream_name.duplicate(),
                frame: self.frame,
            };
            let mut pkt = match encode_header(&header) {
                Ok(v) => v,
                Err(_) => unreached(),
            };
            proof {
                assert(header.model() =~= spec_send_model(
                    name0,
                    spec_wrap_add(f0, k + 1),
                    chunk@.len() as u16,
                ));
            }
            let mut body = encode_samples(chunk);
            pkt.append(&mut body);
            assert(pkt@ == spec_packet(name0, spec_wrap_add(f0, k + 1), spec_chunk(samples@, k)));
            packets.push(pkt);
            start = end;
        }
        proof {
            let k = packets@.len() as int;
            if len == 0 {
                assert(k == 0);
                assert(spec_num_chunks(0) == 0);
            } else {
                assert(256 * k >= len);
                assert(k == (len + 255) / 256) by (nonlinear_arith)
                    requires
                        k >= 1,
                        256 * (k - 1) < len <= 256 * k,
                ;
            }
        }
        packets
    }
}

} // verus!
