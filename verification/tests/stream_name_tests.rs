use vban_stream::stream_name::{NameError, StreamName};

#[test]
fn stream1_pads_with_zeros() {
    let sn = StreamName::try_from("Stream1").unwrap();
    let wire = sn.wire_bytes();
    assert_eq!(wire.len(), 16);
    assert_eq!(&wire[..7], b"Stream1");
    assert_eq!(&wire[7..], &[0u8; 9]);
    assert_eq!(sn.display_string(), "Stream1");
}

#[test]
fn full_width_name_has_no_padding() {
    let sn = StreamName::try_from("0123456789abcdef").unwrap();
    assert_eq!(sn.wire_bytes().as_slice(), b"0123456789abcdef");
    assert_eq!(sn.display_string(), "0123456789abcdef");
}

#[test]
fn empty_name_is_all_zeros() {
    let sn = StreamName::try_from("").unwrap();
    assert_eq!(sn.wire_bytes().as_slice(), &[0u8; 16]);
    assert_eq!(sn.display_string(), "");
}

#[test]
fn seventeen_characters_are_rejected() {
    assert_eq!(StreamName::try_from("0123456789abcdefg").err(), Some(NameError::TooLong));
}

#[test]
fn non_ascii_is_rejected() {
    assert_eq!(StreamName::try_from("Strëam").err(), Some(NameError::NotAscii));
    assert_eq!(StreamName::try_from("日本語").err(), Some(NameError::NotAscii));
    // a non-ASCII over-length input fails the ASCII check first
    assert_eq!(StreamName::try_from("ëëëëëëëëëëëëëëëëë").err(), Some(NameError::NotAscii));
}

#[test]
fn equality_compares_all_sixteen_bytes() {
    let a = StreamName::try_from("Stream1").unwrap();
    let b = StreamName::try_from("Stream1").unwrap();
    let c = StreamName::try_from("Stream2").unwrap();
    assert!(a == b);
    assert!(a != c);
}

#[test]
fn duplicate_keeps_the_bytes() {
    let a = StreamName::try_from("Stream1").unwrap();
    let b = a.duplicate();
    assert!(a == b);
}

#[test]
fn round_trip_through_wire_bytes() {
    let a = StreamName::try_from("Stream1").unwrap();
    let b = StreamName::from_wire(a.wire_bytes().as_slice());
    assert!(a == b);
    assert_eq!(b.display_string(), "Stream1");
}
