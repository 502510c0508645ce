use up_client_android::parcel::decode_frame;
use up_client_android::parcel::encode_frame;
use up_client_android::parcel::ByteOrder;
use up_client_android::parcel::DecodeError;
use up_client_android::parcel::Parcel;
use up_client_android::parcel::MAX_PAYLOAD_LEN;
use up_client_android::status::StatusCode;

#[test]
fn frame_is_length_then_payload_little_endian() {
    let buffer = encode_frame(ByteOrder::LittleEndian, &[1, 2, 3]).unwrap();
    assert_eq!(buffer, vec![3, 0, 0, 0, 1, 2, 3]);
}

#[test]
fn frame_is_length_then_payload_big_endian() {
    let buffer = encode_frame(ByteOrder::BigEndian, &[1, 2, 3]).unwrap();
    assert_eq!(buffer, vec![0, 0, 0, 3, 1, 2, 3]);
}

#[test]
fn frame_length_uses_all_four_bytes() {
    let payload = vec![7u8; 0x0001_0203];
    let little = encode_frame(ByteOrder::LittleEndian, &payload).unwrap();
    assert_eq!(&little[..4], &[0x03, 0x02, 0x01, 0x00]);
    assert_eq!(little.len(), 4 + 0x0001_0203);
    let big = encode_frame(ByteOrder::BigEndian, &payload).unwrap();
    assert_eq!(&big[..4], &[0x00, 0x01, 0x02, 0x03]);
}

#[test]
fn empty_payload_has_a_frame_of_four_zero_bytes() {
    let buffer = encode_frame(ByteOrder::LittleEndian, &[]).unwrap();
    assert_eq!(buffer, vec![0, 0, 0, 0]);
    assert_eq!(decode_frame(ByteOrder::LittleEndian, &buffer), Ok(vec![]));
}

#[test]
fn decode_inverts_encode() {
    for order in [ByteOrder::LittleEndian, ByteOrder::BigEndian] {
        for length in [0usize, 1, 2, 255, 256, 257, 65_535, 65_536, 70_000] {
            let payload: Vec<u8> = (0..length).map(|i| (i % 251) as u8).collect();
            let buffer = encode_frame(order, &payload).unwrap();
            assert_eq!(decode_frame(order, &buffer), Ok(payload));
        }
    }
}

#[test]
fn decode_ignores_what_follows_the_frame() {
    let buffer = vec![2, 0, 0, 0, 10, 20, 30, 40];
    assert_eq!(decode_frame(ByteOrder::LittleEndian, &buffer), Ok(vec![10, 20]));
}

#[test]
fn buffer_shorter_than_its_prefix_is_a_framing_error() {
    for length in 0..4usize {
        let buffer = vec![0u8; length];
        assert_eq!(decode_frame(ByteOrder::LittleEndian, &buffer), Err(DecodeError::Framing));
        assert_eq!(decode_frame(ByteOrder::BigEndian, &buffer), Err(DecodeError::Framing));
    }
}

#[test]
fn buffer_shorter_than_declared_is_a_framing_error() {
    let buffer = vec![5, 0, 0, 0, 1, 2, 3, 4];
    assert_eq!(decode_frame(ByteOrder::LittleEndian, &buffer), Err(DecodeError::Framing));
    let buffer = vec![0, 0, 0, 5, 1, 2, 3, 4];
    assert_eq!(decode_frame(ByteOrder::BigEndian, &buffer), Err(DecodeError::Framing));
}

#[test]
fn every_truncation_of_a_frame_is_a_framing_error() {
    let buffer = encode_frame(ByteOrder::LittleEndian, &[9, 8, 7, 6, 5]).unwrap();
    for length in 0..buffer.len() {
        assert_eq!(
            decode_frame(ByteOrder::LittleEndian, &buffer[..length]),
            Err(DecodeError::Framing)
        );
    }
    assert_eq!(decode_frame(ByteOrder::LittleEndian, &buffer), Ok(vec![9, 8, 7, 6, 5]));
}

#[test]
fn negative_declared_length_is_a_framing_error() {
    let buffer = vec![0xff, 0xff, 0xff, 0xff, 1, 2, 3];
    assert_eq!(decode_frame(ByteOrder::LittleEndian, &buffer), Err(DecodeError::Framing));
    let buffer = vec![0x80, 0, 0, 0, 1, 2, 3];
    assert_eq!(decode_frame(ByteOrder::BigEndian, &buffer), Err(DecodeError::Framing));
}

#[test]
fn huge_declared_length_is_a_framing_error() {
    let buffer = vec![0xff, 0xff, 0xff, 0x7f, 1, 2, 3];
    assert_eq!(decode_frame(ByteOrder::LittleEndian, &buffer), Err(DecodeError::Framing));
}

#[test]
fn byte_order_matters() {
    let buffer = encode_frame(ByteOrder::LittleEndian, &[1, 2, 3]).unwrap();
    assert_eq!(decode_frame(ByteOrder::BigEndian, &buffer), Err(DecodeError::Framing));
}

#[test]
fn largest_payload_length_is_the_largest_positive_i32() {
    assert_eq!(MAX_PAYLOAD_LEN, i32::MAX as usize);
}

#[test]
fn both_decode_errors_are_bad_values_at_the_boundary() {
    assert_eq!(DecodeError::Framing.status(), StatusCode::BAD_VALUE);
    assert_eq!(DecodeError::MalformedPayload.status(), StatusCode::BAD_VALUE);
}

#[test]
fn parcel_writes_integers_in_its_byte_order() {
    let mut parcel = Parcel::new(ByteOrder::LittleEndian);
    parcel.write_i32(1);
    parcel.write_i32(-2);
    parcel.write_i32(0x1234_5678);
    assert_eq!(
        parcel.into_bytes(),
        vec![1, 0, 0, 0, 0xfe, 0xff, 0xff, 0xff, 0x78, 0x56, 0x34, 0x12]
    );
    let mut parcel = Parcel::new(ByteOrder::BigEndian);
    parcel.write_i32(1);
    parcel.write_i32(-2);
    parcel.write_i32(0x1234_5678);
    assert_eq!(
        parcel.into_bytes(),
        vec![0, 0, 0, 1, 0xff, 0xff, 0xff, 0xfe, 0x12, 0x34, 0x56, 0x78]
    );
}

#[test]
fn parcel_reads_back_what_was_written_in_order() {
    for order in [ByteOrder::LittleEndian, ByteOrder::BigEndian] {
        let mut parcel = Parcel::new(order);
        for value in [0, 1, -1, 255, 256, -256, i32::MAX, i32::MIN, 0x0102_0304] {
            parcel.write_i32(value);
        }
        parcel.write_bytes(&[4, 5, 6]);
        assert_eq!(parcel.byte_order(), order);
        assert_eq!(parcel.data_size(), 9 * 4 + 3);
        assert_eq!(parcel.data_position(), 0);
        for value in [0, 1, -1, 255, 256, -256, i32::MAX, i32::MIN, 0x0102_0304] {
            assert_eq!(parcel.read_i32(), Ok(value));
        }
        assert_eq!(parcel.data_avail(), 3);
        assert_eq!(parcel.read_bytes(3), Ok(vec![4, 5, 6]));
        assert_eq!(parcel.data_avail(), 0);
        assert_eq!(parcel.read_i32(), Err(DecodeError::Framing));
        assert_eq!(parcel.read_bytes(1), Err(DecodeError::Framing));
        assert_eq!(parcel.read_bytes(0), Ok(vec![]));
    }
}

#[test]
fn failed_reads_leave_the_cursor_where_it_was() {
    let mut parcel = Parcel::from_bytes(ByteOrder::LittleEndian, vec![9, 0, 0, 0, 1, 2]);
    assert_eq!(parcel.read_frame(), Err(DecodeError::Framing));
    assert_eq!(parcel.data_position(), 0);
    assert_eq!(parcel.read_bytes(7), Err(DecodeError::Framing));
    assert_eq!(parcel.data_position(), 0);
    assert_eq!(parcel.read_i32(), Ok(9));
    assert_eq!(parcel.data_position(), 4);
    assert_eq!(parcel.read_i32(), Err(DecodeError::Framing));
    assert_eq!(parcel.data_position(), 4);
}

#[test]
fn parcel_carries_several_frames() {
    let mut parcel = Parcel::new(ByteOrder::BigEndian);
    assert_eq!(parcel.write_frame(&[1]), Ok(()));
    assert_eq!(parcel.write_frame(&[]), Ok(()));
    assert_eq!(parcel.write_frame(&[2, 3]), Ok(()));
    assert_eq!(parcel.read_frame(), Ok(vec![1]));
    assert_eq!(parcel.data_position(), 5);
    assert_eq!(parcel.read_frame(), Ok(vec![]));
    assert_eq!(parcel.read_frame(), Ok(vec![2, 3]));
    assert_eq!(parcel.read_frame(), Err(DecodeError::Framing));
    assert_eq!(parcel.into_bytes(), vec![0, 0, 0, 1, 1, 0, 0, 0, 0, 0, 0, 0, 2, 2, 3]);
}
