//! VBAN audio streaming core: wire-header codec, packetization,
//! receive-side validation, discontinuity tracking, and a jitter buffer.

pub mod sample_rate;
pub mod resolution;
pub mod stream_name;
pub mod header;
pub mod samples;
pub mod frame;
pub mod tracker;
pub mod packetizer;
pub mod depacketizer;
pub mod jitter;
pub mod session;
