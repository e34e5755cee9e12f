use vban_stream::header::{DecodeError, EncodeError, VBANHeader, decode_header, encode_header};
use vban_stream::resolution::VBANResolution;
use vban_stream::sample_rate::VBANSampleRate;
use vban_stream::stream_name::StreamName;

fn name(s: &str) -> StreamName {
    StreamName::try_from(s).unwrap()
}

fn header(
    rate: VBANSampleRate,
    sample_count: u16,
    channel_count: u16,
    resolution: VBANResolution,
    frame: u32,
) -> VBANHeader {
    VBANHeader {
        sub_proto: 0,
        rate,
        sample_count,
        channel_count,
        codec: 0,
        resolution,
        stream_name: name("Stream1"),
        frame,
    }
}

fn assert_round_trip(h: &VBANHeader) {
    let bytes = encode_header(h).unwrap();
    assert_eq!(bytes.len(), 28);
    let (h2, rest) = decode_header(&bytes).unwrap();
    assert!(rest.is_empty());
    assert_eq!(h2.sub_proto, h.sub_proto);
    assert_eq!(h2.rate, h.rate);
    assert_eq!(h2.sample_count, h.sample_count);
    assert_eq!(h2.channel_count, h.channel_count);
    assert_eq!(h2.codec, h.codec);
    assert_eq!(h2.resolution, h.resolution);
    assert!(h2.stream_name == h.stream_name);
    assert_eq!(h2.frame, h.frame);
}

#[test]
fn round_trip_all_rates() {
    let rates = [
        VBANSampleRate::Rate6000,
        VBANSampleRate::Rate12000,
        VBANSampleRate::Rate24000,
        VBANSampleRate::Rate48000,
        VBANSampleRate::Rate96000,
        VBANSampleRate::Rate192000,
        VBANSampleRate::Rate384000,
        VBANSampleRate::Rate8000,
        VBANSampleRate::Rate16000,
        VBANSampleRate::Rate32000,
        VBANSampleRate::Rate64000,
        VBANSampleRate::Rate128000,
        VBANSampleRate::Rate256000,
        VBANSampleRate::Rate512000,
        VBANSampleRate::Rate11025,
        VBANSampleRate::Rate22050,
        VBANSampleRate::Rate44100,
        VBANSampleRate::Rate88200,
        VBANSampleRate::Rate176400,
        VBANSampleRate::Rate352800,
        VBANSampleRate::Rate705600,
    ];
    for rate in rates {
        assert_round_trip(&header(rate, 256, 2, VBANResolution::S16, 7));
    }
}

#[test]
fn round_trip_all_resolutions() {
    let resolutions = [
        VBANResolution::U8,
        VBANResolution::S16,
        VBANResolution::S24,
        VBANResolution::S32,
        VBANResolution::F32,
        VBANResolution::F64,
        VBANResolution::S12,
        VBANResolution::S10,
    ];
    for resolution in resolutions {
        assert_round_trip(&header(VBANSampleRate::Rate48000, 1, 1, resolution, 0));
    }
}

#[test]
fn round_trip_count_and_frame_extremes() {
    assert_round_trip(&header(VBANSampleRate::Rate48000, 1, 1, VBANResolution::S16, 0));
    assert_round_trip(&header(VBANSampleRate::Rate48000, 256, 256, VBANResolution::S16, u32::MAX));
    let mut h = header(VBANSampleRate::Rate44100, 100, 2, VBANResolution::S24, 0x01020304);
    h.sub_proto = 7;
    h.codec = 15;
    assert_round_trip(&h);
}

#[test]
fn wire_layout_is_bit_exact() {
    let h = header(VBANSampleRate::Rate22050, 256, 1, VBANResolution::S16, 0x01020304);
    let bytes = encode_header(&h).unwrap();
    assert_eq!(&bytes[0..4], b"VBAN");
    // sub_proto 0 in the high 3 bits, rate index 15 (22050 Hz) in the low 5
    assert_eq!(bytes[4], 15);
    // counts are stored as actual minus one
    assert_eq!(bytes[5], 255);
    assert_eq!(bytes[6], 0);
    // codec 0 in the high 4 bits, reserved 0, resolution index 1 in the low 3
    assert_eq!(bytes[7], 1);
    assert_eq!(&bytes[8..15], b"Stream1");
    assert_eq!(&bytes[15..24], &[0u8; 9]);
    // the frame counter is little-endian
    assert_eq!(&bytes[24..28], &[0x04, 0x03, 0x02, 0x01]);
}

#[test]
fn decode_returns_payload_region() {
    let h = header(VBANSampleRate::Rate48000, 2, 2, VBANResolution::S16, 1);
    let mut bytes = encode_header(&h).unwrap();
    bytes.extend_from_slice(&[9, 9, 9]);
    let (h2, rest) = decode_header(&bytes).unwrap();
    assert_eq!(h2.sample_count, 2);
    assert_eq!(rest, &[9, 9, 9]);
}

#[test]
fn decode_rejects_unknown_rate_value() {
    let h = header(VBANSampleRate::Rate48000, 64, 2, VBANResolution::S16, 5);
    let mut bytes = encode_header(&h).unwrap();
    for bad in 21u8..=31 {
        bytes[4] = bad;
        assert_eq!(decode_header(&bytes).err(), Some(DecodeError::UnknownEnumValue));
    }
    // every 5-bit value up to 20 is a defined rate
    bytes[4] = 20;
    assert!(decode_header(&bytes).is_ok());
}

#[test]
fn decode_rejects_bad_magic() {
    let h = header(VBANSampleRate::Rate48000, 64, 2, VBANResolution::S16, 5);
    let mut bytes = encode_header(&h).unwrap();
    bytes[0] = b'W';
    assert_eq!(decode_header(&bytes).err(), Some(DecodeError::MagicMismatch));
}

#[test]
fn decode_rejects_truncated_buffer() {
    let h = header(VBANSampleRate::Rate48000, 64, 2, VBANResolution::S16, 5);
    let bytes = encode_header(&h).unwrap();
    for len in 0..28 {
        assert_eq!(decode_header(&bytes[..len]).err(), Some(DecodeError::Truncated));
    }
}

#[test]
fn decode_ignores_reserved_bit() {
    let h = header(VBANSampleRate::Rate48000, 64, 2, VBANResolution::S16, 5);
    let mut bytes = encode_header(&h).unwrap();
    bytes[7] |= 0b0000_1000;
    let (h2, _) = decode_header(&bytes).unwrap();
    assert_eq!(h2.codec, 0);
    assert_eq!(h2.resolution, VBANResolution::S16);
}

#[test]
fn encode_rejects_out_of_range_fields() {
    let mut h = header(VBANSampleRate::Rate48000, 0, 2, VBANResolution::S16, 0);
    assert_eq!(encode_header(&h), Err(EncodeError::SampleCountOutOfRange));
    h.sample_count = 257;
    assert_eq!(encode_header(&h), Err(EncodeError::SampleCountOutOfRange));
    h.sample_count = 16;
    h.channel_count = 0;
    assert_eq!(encode_header(&h), Err(EncodeError::ChannelCountOutOfRange));
    h.channel_count = 300;
    assert_eq!(encode_header(&h), Err(EncodeError::ChannelCountOutOfRange));
    h.channel_count = 2;
    h.sub_proto = 8;
    assert_eq!(encode_header(&h), Err(EncodeError::SubProtoOutOfRange));
    h.sub_proto = 0;
    h.codec = 16;
    assert_eq!(encode_header(&h), Err(EncodeError::CodecOutOfRange));
}
