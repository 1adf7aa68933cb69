use wasm_engine::executable::{
    decode_leb128, encode_leb128, read_u64_le, serialize_frame, write_u64_le, DeserializeError,
    FrameError, UniversalExecutableRef,
};

const MAGIC: &[u8; 22] = b"\0wasmer-universal\xFF\xFF\xFF\xFF\xFF";

#[test]
fn frame_layout() {
    let data = serialize_frame(&[1, 2, 3, 4, 5], 2);
    let mut expected = MAGIC.to_vec();
    expected.push(5);
    expected.extend_from_slice(&[1, 2, 3, 4, 5]);
    expected.extend_from_slice(&2u64.to_le_bytes());
    assert_eq!(data, expected);
}

#[test]
fn frame_round_trip() {
    let payload: Vec<u8> = (0..300u32).map(|i| (i % 251) as u8).collect();
    let data = serialize_frame(&payload, 296);
    assert_eq!(UniversalExecutableRef::verify_serialized(&data), Ok(()));
    let view = UniversalExecutableRef::deserialize(&data).unwrap();
    assert_eq!(view.payload(), &payload[..]);
    assert_eq!(view.root_position(), 296);
    assert_eq!(view.serialize(), data);
}

#[test]
fn serialization_is_deterministic() {
    let payload = [9u8; 40];
    assert_eq!(serialize_frame(&payload, 8), serialize_frame(&payload, 8));
}

#[test]
fn buffers_without_magic_are_rejected() {
    assert_eq!(
        UniversalExecutableRef::verify_serialized(b"\0asm\x01\0\0\0"),
        Err("the provided bytes are not wasmer-universal")
    );
    assert_eq!(
        UniversalExecutableRef::verify_serialized(&[]),
        Err("the provided bytes are not wasmer-universal")
    );
    let mut data = serialize_frame(&[1, 2, 3], 0);
    data[17] = 0xFE; // another value of the reserved bytes
    assert_eq!(
        UniversalExecutableRef::verify_serialized(&data),
        Err("the provided bytes are not wasmer-universal")
    );
    match UniversalExecutableRef::deserialize(&data) {
        Err(DeserializeError::Incompatible(message)) => {
            assert_eq!(message, "the provided bytes are not wasmer-universal")
        }
        _ => panic!("a buffer without the magic header was taken"),
    }
}

#[test]
fn short_buffers_are_rejected() {
    let mut data = MAGIC.to_vec();
    assert_eq!(
        UniversalExecutableRef::verify_serialized(&data),
        Err("the data buffer is too small to be valid")
    );
    data.extend_from_slice(&[0; 7]);
    assert_eq!(
        UniversalExecutableRef::verify_serialized(&data),
        Err("the data buffer is too small to be valid")
    );
    // long enough for the header and a root position, but with no length
    data.push(0);
    assert_eq!(data.len(), 22 + 8);
    assert_eq!(
        UniversalExecutableRef::verify_serialized(&data),
        Err("the buffer is malformed")
    );
    // the smallest frame: an empty payload
    data.insert(22, 0);
    assert_eq!(UniversalExecutableRef::verify_serialized(&data), Ok(()));
    assert_eq!(data, serialize_frame(&[], 0));
}

#[test]
fn a_header_and_eight_bytes_are_malformed() {
    let mut data = MAGIC.to_vec();
    data.extend_from_slice(&[0xFF; 8]);
    assert_eq!(
        UniversalExecutableRef::verify_serialized(&data),
        Err("the buffer is malformed")
    );
    match UniversalExecutableRef::deserialize(&data) {
        Err(DeserializeError::Incompatible(message)) => {
            assert_eq!(message, "the buffer is malformed")
        }
        _ => panic!("a buffer without a length was taken"),
    }
}

#[test]
fn malformed_buffers_are_rejected() {
    let good = serialize_frame(&[1, 2, 3], 3);
    assert_eq!(UniversalExecutableRef::verify_serialized(&good), Ok(()));
    // the root position lies outside the payload
    let bad_root = serialize_frame(&[1, 2, 3], 4);
    assert_eq!(
        UniversalExecutableRef::verify_serialized(&bad_root),
        Err("the buffer is malformed")
    );
    assert_eq!(UniversalExecutableRef::parse(&bad_root).err(), Some(FrameError::Malformed));
    // the length does not match the buffer
    let mut longer = good.clone();
    longer.insert(23, 0);
    assert_eq!(UniversalExecutableRef::verify_serialized(&longer), Err("the buffer is malformed"));
    // the length does not end
    let mut endless = MAGIC.to_vec();
    endless.extend_from_slice(&[0x80; 12]);
    assert_eq!(UniversalExecutableRef::verify_serialized(&endless), Err("the buffer is malformed"));
}

#[test]
fn leb128() {
    let cases: [(u64, &[u8]); 6] = [
        (0, &[0]),
        (127, &[0x7F]),
        (128, &[0x80, 0x01]),
        (624485, &[0xE5, 0x8E, 0x26]),
        (u32::MAX as u64, &[0xFF, 0xFF, 0xFF, 0xFF, 0x0F]),
        (u64::MAX, &[0xFF, 0xFF, 0xFF, 0xFF, 0xFF, 0xFF, 0xFF, 0xFF, 0xFF, 0x01]),
    ];
    for (n, bytes) in cases.iter() {
        let mut out = vec![0xAA];
        encode_leb128(*n, &mut out);
        assert_eq!(&out[1..], *bytes);
        assert_eq!(decode_leb128(bytes), Some((*n, bytes.len())));
        let mut followed = bytes.to_vec();
        followed.push(0x55);
        assert_eq!(decode_leb128(&followed), Some((*n, bytes.len())));
    }
    assert_eq!(decode_leb128(&[]), None);
    assert_eq!(decode_leb128(&[0x80]), None);
    // 2^64 does not fit
    assert_eq!(
        decode_leb128(&[0x80, 0x80, 0x80, 0x80, 0x80, 0x80, 0x80, 0x80, 0x80, 0x02]),
        None
    );
    // more than ten bytes
    assert_eq!(
        decode_leb128(&[0x80, 0x80, 0x80, 0x80, 0x80, 0x80, 0x80, 0x80, 0x80, 0x80, 0x00]),
        None
    );
}

#[test]
fn little_endian() {
    let mut out = Vec::new();
    write_u64_le(0x0807060504030201, &mut out);
    assert_eq!(out, vec![1, 2, 3, 4, 5, 6, 7, 8]);
    assert_eq!(read_u64_le(&out), 0x0807060504030201);
    assert_eq!(read_u64_le(&u64::MAX.to_le_bytes()), u64::MAX);
}
