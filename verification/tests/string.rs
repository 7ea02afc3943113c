use bolt_string::wire::{classify, SizeClass, LARGE, MEDIUM, SMALL, TINY};
use bolt_string::{encode_then_decode, is_present, BoltString, Error};
use bytes::Buf;
use bytes::Bytes;

#[test]
fn should_serialize_empty_string() {
    let s = BoltString::new("");
    let b: Bytes = s.try_into_bytes().unwrap();
    assert_eq!(b, Bytes::from_static(&[TINY]));
}

#[test]
fn should_deserialize_empty_string() {
    let mut input = Bytes::from_static(&[TINY]);
    let s = BoltString::try_from_bytes(&mut input).unwrap();
    assert_eq!(s, BoltString::new(""));
}

#[test]
fn should_serialize_tiny_string() {
    let s = BoltString::new("a");
    let b: Bytes = s.try_into_bytes().unwrap();
    assert_eq!(b, Bytes::from_static(&[0x81, 0x61]));
}

#[test]
fn should_deserialize_tiny_string() {
    let mut serialized_bytes = Bytes::from_static(&[0x81, 0x61]);
    let result = BoltString::try_from_bytes(&mut serialized_bytes).unwrap();
    assert_eq!(result, BoltString::new("a"));
}

#[test]
fn should_serialize_small_string() {
    let s = BoltString::new(&"a".repeat(16));

    let mut b: Bytes = s.try_into_bytes().unwrap();

    assert_eq!(b.get_u8(), SMALL);
    assert_eq!(b.get_u8(), 0x10);
    assert_eq!(b.len(), 0x10);
    for value in b {
        assert_eq!(value, 0x61);
    }
}

#[test]
fn should_deserialize_small_string() {
    let mut serialized_bytes = Bytes::from_static(&[SMALL, 0x01, 0x61]);
    let result = BoltString::try_from_bytes(&mut serialized_bytes).unwrap();
    assert_eq!(result, BoltString::new("a"));
}

#[test]
fn should_serialize_medium_string() {
    let s = BoltString::new(&"a".repeat(256));

    let mut b: Bytes = s.try_into_bytes().unwrap();

    assert_eq!(b.get_u8(), MEDIUM);
    assert_eq!(b.get_u16(), 0x100);
    assert_eq!(b.len(), 0x100);
    for value in b {
        assert_eq!(value, 0x61);
    }
}

#[test]
fn should_deserialize_medium_string() {
    let mut serialized_bytes = Bytes::from_static(&[MEDIUM, 0x00, 0x01, 0x61]);
    let result = BoltString::try_from_bytes(&mut serialized_bytes).unwrap();
    assert_eq!(result, BoltString::new("a"));
}

#[test]
fn should_serialize_large_string() {
    let s = BoltString::new(&"a".repeat(65_536));

    let mut b: Bytes = s.try_into_bytes().unwrap();

    assert_eq!(b.get_u8(), LARGE);
    assert_eq!(b.get_u32(), 0x10000);
    assert_eq!(b.len(), 0x10000);
    for value in b {
        assert_eq!(value, 0x61);
    }
}

#[test]
fn should_deserialize_large_string() {
    let mut serialized_bytes = Bytes::from_static(&[LARGE, 0x00, 0x00, 0x00, 0x01, 0x61]);
    let result = BoltString::try_from_bytes(&mut serialized_bytes).unwrap();
    assert_eq!(result, BoltString::new("a"));
}

#[test]
fn classifier_picks_each_class_at_its_boundaries() {
    assert_eq!(classify(0), Ok(SizeClass::Tiny));
    assert_eq!(classify(15), Ok(SizeClass::Tiny));
    assert_eq!(classify(16), Ok(SizeClass::Small));
    assert_eq!(classify(255), Ok(SizeClass::Small));
    assert_eq!(classify(256), Ok(SizeClass::Medium));
    assert_eq!(classify(65_535), Ok(SizeClass::Medium));
    assert_eq!(classify(65_536), Ok(SizeClass::Large));
    assert_eq!(classify(4_294_967_295), Ok(SizeClass::Large));
    assert_eq!(classify(4_294_967_296), Err(Error::LengthOverflow));
}

#[test]
fn boundary_lengths_pick_the_tabulated_markers() {
    let cases: [(usize, u8); 6] = [
        (15, 0x8F),
        (16, SMALL),
        (255, SMALL),
        (256, MEDIUM),
        (65_535, MEDIUM),
        (65_536, LARGE),
    ];
    for (len, marker) in cases {
        let b = BoltString::new(&"a".repeat(len)).try_into_bytes().unwrap();
        assert_eq!(b[0], marker);
    }
}

#[test]
fn encoding_emits_no_wider_size_field_than_the_length_needs() {
    // Header widths: one marker byte plus the minimal size field per class.
    let cases: [(usize, usize); 7] = [
        (10, 1),
        (15, 1),
        (16, 2),
        (255, 2),
        (256, 3),
        (65_535, 3),
        (65_536, 5),
    ];
    for (len, header) in cases {
        let b = BoltString::new(&"a".repeat(len)).try_into_bytes().unwrap();
        assert_eq!(b.len(), header + len);
    }
}

#[test]
fn unrecognised_markers_are_rejected_and_consume_only_the_marker() {
    for marker in [0x00u8, 0x7F, 0x90, 0xCF, 0xD3, 0xFF] {
        let mut input = Bytes::copy_from_slice(&[marker, 0x61, 0x62]);
        let result = BoltString::try_from_bytes(&mut input);
        assert_eq!(result, Err(Error::InvalidTypeMarker { marker }));
        assert_eq!(input, Bytes::from_static(&[0x61, 0x62]));
    }
}

#[test]
fn invalid_utf8_payload_is_a_deserialization_error() {
    let mut lone_continuation = Bytes::from_static(&[0x81, 0xC0]);
    let result = BoltString::try_from_bytes(&mut lone_continuation);
    assert!(matches!(result, Err(Error::DeserializationError { .. })));

    let mut bad_pair = Bytes::from_static(&[SMALL, 0x02, 0xFF, 0xFE]);
    let result = BoltString::try_from_bytes(&mut bad_pair);
    assert!(matches!(result, Err(Error::DeserializationError { .. })));
}

#[test]
fn short_buffers_underflow_instead_of_panicking() {
    let frames: [&'static [u8]; 6] = [
        &[],
        &[SMALL],
        &[MEDIUM, 0x01],
        &[LARGE, 0x00, 0x00, 0x01],
        &[0x85, 0x61],
        &[SMALL, 0x10, 0x61, 0x61],
    ];
    for frame in frames {
        let mut input = Bytes::copy_from_slice(frame);
        let result = BoltString::try_from_bytes(&mut input);
        assert_eq!(result, Err(Error::CursorUnderflow));
    }
}

#[test]
fn is_present_recognises_exactly_the_string_markers() {
    for marker in 0x80u8..=0x8F {
        assert!(is_present(&Bytes::copy_from_slice(&[marker])));
    }
    for marker in [SMALL, MEDIUM, LARGE] {
        assert!(is_present(&Bytes::copy_from_slice(&[marker, 0x01])));
    }
    for marker in [0x00u8, 0x7F, 0x90, 0xCF, 0xD3, 0xFF] {
        assert!(!is_present(&Bytes::copy_from_slice(&[marker])));
    }
}

#[test]
fn decoding_leaves_the_bytes_after_the_frame() {
    let mut input = Bytes::from_static(&[0x81, 0x61, 0xD0, 0xFF]);
    let result = BoltString::try_from_bytes(&mut input).unwrap();
    assert_eq!(result, BoltString::new("a"));
    assert_eq!(input, Bytes::from_static(&[0xD0, 0xFF]));
}

#[test]
fn round_trip_returns_the_original_text() {
    for text in ["", "a", "hello world", "żółć", "κόσμε", "🦀🦀🦀"] {
        let v = BoltString::new(text);
        let encoded = v.try_into_bytes().unwrap();
        let mut cursor = encoded;
        let decoded = BoltString::try_from_bytes(&mut cursor).unwrap();
        assert_eq!(decoded, v);
        assert_eq!(cursor.len(), 0);
    }
    for len in [15usize, 16, 255, 256, 65_535, 65_536] {
        let v = BoltString::new(&"é".repeat(len / 2));
        assert_eq!(encode_then_decode(&v), Ok(v));
    }
}

#[test]
fn multibyte_text_is_measured_in_bytes_not_characters() {
    // Eight two-byte characters: 16 payload bytes, so the Small class.
    let s = BoltString::new(&"é".repeat(8));
    let b: Bytes = s.try_into_bytes().unwrap();
    assert_eq!(b[0], SMALL);
    assert_eq!(b[1], 16);
    assert_eq!(b.len(), 18);
}
