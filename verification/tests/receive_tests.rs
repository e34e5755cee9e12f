use vban_stream::depacketizer::{PacketReject, try_parse_header, validate_datagram};
use vban_stream::header::{DecodeError, VBANHeader, encode_header};
use vban_stream::resolution::VBANResolution;
use vban_stream::sample_rate::VBANSampleRate;
use vban_stream::session::{IngestOutcome, ReceiveSession};
use vban_stream::stream_name::StreamName;
use vban_stream::tracker::DiscontinuityTracker;

fn name(s: &str) -> StreamName {
    StreamName::try_from(s).unwrap()
}

/// A receiver-acceptable packet: stereo 48 kHz 16-bit PCM audio.
fn stereo_packet(stream: &str, frame: u32, samples_per_channel: u16, payload: &[i16]) -> Vec<u8> {
    let header = VBANHeader {
        sub_proto: 0,
        rate: VBANSampleRate::Rate48000,
        sample_count: samples_per_channel,
        channel_count: 2,
        codec: 0,
        resolution: VBANResolution::S16,
        stream_name: name(stream),
        frame,
    };
    let mut bytes = encode_header(&header).unwrap();
    for s in payload {
        bytes.extend_from_slice(&s.to_le_bytes());
    }
    bytes
}

#[test]
fn tracker_reports_gap_exactly_once() {
    let mut t = DiscontinuityTracker::new();
    assert!(!t.observe(1));
    assert!(!t.observe(2));
    assert!(t.observe(4));
    // resynchronized: 5 is expected next
    assert!(!t.observe(5));
}

#[test]
fn tracker_reports_nothing_in_sequence() {
    let mut t = DiscontinuityTracker::new();
    assert!(!t.observe(1));
    assert!(!t.observe(2));
    assert!(!t.observe(3));
}

#[test]
fn tracker_wraps_with_the_frame_counter() {
    let mut t = DiscontinuityTracker::new();
    assert!(!t.observe(u32::MAX));
    assert_eq!(t.expected, Some(0));
    assert!(!t.observe(0));
    assert_eq!(t.expected, Some(1));
}

#[test]
fn accepts_matching_stereo_packet() {
    let expected = name("Stream1");
    let packet = stereo_packet("Stream1", 9, 2, &[1, 2, 3, 4]);
    let (frame, count, payload) = validate_datagram(&expected, &packet).unwrap();
    assert_eq!(frame, 9);
    assert_eq!(count, 2);
    assert_eq!(payload.len(), 8);
    let parsed = try_parse_header(&expected, &packet).unwrap();
    assert_eq!(parsed.0, 9);
    assert_eq!(parsed.1, 2usize);
}

#[test]
fn rejects_each_mismatch_distinctly() {
    let expected = name("Stream1");
    let good = stereo_packet("Stream1", 1, 2, &[0, 0, 0, 0]);
    assert!(validate_datagram(&expected, &good).is_ok());

    assert_eq!(
        validate_datagram(&expected, &stereo_packet("Other", 1, 2, &[0, 0, 0, 0])),
        Err(PacketReject::StreamNameMismatch)
    );

    let mut bad = good.clone();
    bad[4] = (1 << 5) | 3; // sub-protocol 1, rate still 48 kHz
    assert_eq!(validate_datagram(&expected, &bad), Err(PacketReject::SubProtoMismatch));

    let mut bad = good.clone();
    bad[7] = (1 << 4) | 1; // codec 1, resolution still S16
    assert_eq!(validate_datagram(&expected, &bad), Err(PacketReject::CodecMismatch));

    let mut bad = good.clone();
    bad[6] = 0; // one channel
    assert_eq!(validate_datagram(&expected, &bad), Err(PacketReject::ChannelCountMismatch));

    let mut bad = good.clone();
    bad[4] = 15; // 22050 Hz
    assert_eq!(validate_datagram(&expected, &bad), Err(PacketReject::SampleRateMismatch));

    let mut bad = good.clone();
    bad[7] = 3; // S32
    assert_eq!(validate_datagram(&expected, &bad), Err(PacketReject::ResolutionMismatch));

    let mut bad = good.clone();
    bad[0] = b'X';
    assert_eq!(
        validate_datagram(&expected, &bad),
        Err(PacketReject::Header(DecodeError::MagicMismatch))
    );
    assert_eq!(try_parse_header(&expected, &bad), None);
}

#[test]
fn ingest_fills_the_buffer_in_order() {
    let mut session = ReceiveSession::new(name("Stream1"), 1000);
    let outcome = session.ingest_datagram(&stereo_packet("Stream1", 1, 2, &[10, 20, 30, 40]));
    match outcome {
        IngestOutcome::Accepted(rep) => {
            assert!(!rep.discontinuity);
            assert!(!rep.partial_trailing);
            assert!(!rep.length_mismatch);
            assert_eq!(rep.pushed, 4);
            assert!(!rep.overrun);
        },
        IngestOutcome::Rejected(_) => panic!("datagram should be accepted"),
    }
    assert_eq!(session.tracker.expected, Some(2));
    assert_eq!(session.buffer.occupied(), 4);
    let out = session.buffer.pop(4);
    assert_eq!(out, vec![10, 20, 30, 40]);
}

#[test]
fn mismatched_name_leaves_tracker_untouched() {
    let mut session = ReceiveSession::new(name("Stream1"), 1000);
    let outcome = session.ingest_datagram(&stereo_packet("Other", 1, 2, &[1, 2, 3, 4]));
    assert_eq!(outcome, IngestOutcome::Rejected(PacketReject::StreamNameMismatch));
    assert_eq!(session.tracker.expected, None);
    assert_eq!(session.buffer.occupied(), 0);

    // a later matching packet seeds the tracker as if it were the first
    session.ingest_datagram(&stereo_packet("Stream1", 7, 2, &[1, 2, 3, 4]));
    assert_eq!(session.tracker.expected, Some(8));
}

#[test]
fn ingest_reports_discontinuities_like_the_tracker() {
    let mut session = ReceiveSession::new(name("Stream1"), 1000);
    let frames = [1u32, 2, 4];
    let mut warnings = 0;
    for f in frames {
        match session.ingest_datagram(&stereo_packet("Stream1", f, 1, &[0, 0])) {
            IngestOutcome::Accepted(rep) => {
                if rep.discontinuity {
                    warnings += 1;
                }
            },
            IngestOutcome::Rejected(_) => panic!("datagram should be accepted"),
        }
    }
    assert_eq!(warnings, 1);
}

#[test]
fn ingest_reports_length_violations_but_forwards() {
    let mut session = ReceiveSession::new(name("Stream1"), 1000);
    // declares 3 samples per channel (12 payload bytes) but carries 5 bytes:
    // two whole samples and one trailing partial byte
    let mut packet = stereo_packet("Stream1", 1, 3, &[100, 200]);
    packet.push(0xAB);
    match session.ingest_datagram(&packet) {
        IngestOutcome::Accepted(rep) => {
            assert!(rep.partial_trailing);
            assert!(rep.length_mismatch);
            assert_eq!(rep.pushed, 2);
            assert!(!rep.overrun);
        },
        IngestOutcome::Rejected(_) => panic!("datagram should be accepted"),
    }
    let out = session.buffer.pop(2);
    assert_eq!(out, vec![100, 200]);
}

#[test]
fn ingest_reports_overrun_when_the_buffer_is_full() {
    let mut session = ReceiveSession::new(name("Stream1"), 3);
    match session.ingest_datagram(&stereo_packet("Stream1", 1, 2, &[1, 2, 3, 4])) {
        IngestOutcome::Accepted(rep) => {
            assert_eq!(rep.pushed, 3);
            assert!(rep.overrun);
        },
        IngestOutcome::Rejected(_) => panic!("datagram should be accepted"),
    }
    assert_eq!(session.buffer.occupied(), 3);
}

#[test]
fn sent_payload_bytes_decode_to_the_same_samples() {
    // negative samples survive the wire byte encoding
    let samples: Vec<i16> = vec![-1, i16::MIN, i16::MAX, 0, 12345, -12345];
    let packet = stereo_packet("Stream1", 1, 3, &samples);
    let mut session = ReceiveSession::new(name("Stream1"), 100);
    session.ingest_datagram(&packet);
    let out = session.buffer.pop(6);
    assert_eq!(out, samples);
}
