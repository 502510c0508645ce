use up_client_android::listener_registry::Topic;
use up_client_android::parcel::ByteOrder;
use up_client_android::parcel::DecodeError;
use up_client_android::parcel::Parcel;
use up_client_android::parcelable_stubs::decode;
use up_client_android::parcelable_stubs::decode_topic;
use up_client_android::parcelable_stubs::encode;
use up_client_android::parcelable_stubs::encode_topic;
use up_client_android::parcelable_stubs::is_writable;
use up_client_android::parcelable_stubs::FIELD_NUMBER_MAX;
use up_client_android::parcelable_stubs::parsed_or_malformed;
use up_client_android::parcelable_stubs::write_serialized;
use up_client_android::parcelable_stubs::ParcelableUEntity;
use up_client_android::parcelable_stubs::ParcelableUMessage;
use up_client_android::status::StatusCode;

fn sample_message() -> up_rust::UMessage {
    let attributes =
        up_rust::UAttributes { token: Some("x".to_string()), ..Default::default() };
    up_rust::UMessage {
        attributes: Some(attributes).into(),
        payload: Some(vec![1u8, 2, 3].into()),
        ..Default::default()
    }
}

fn sample_message_wire_form() -> Vec<u8> {
    vec![0x0a, 0x03, 0x52, 0x01, 0x78, 0x12, 0x03, 0x01, 0x02, 0x03]
}

fn sample_topic() -> Topic {
    Topic::new("a", 1, 2, 3)
}

fn sample_topic_wire_form() -> Vec<u8> {
    vec![0x0a, 0x01, 0x61, 0x10, 0x01, 0x18, 0x02, 0x20, 0x03]
}

fn protobuf_error() -> protobuf::Error {
    let parsed: Result<up_rust::UMessage, protobuf::Error> =
        protobuf::Message::parse_from_bytes(&[0xff]);
    parsed.unwrap_err()
}

#[test]
fn message_is_encoded_as_its_framed_wire_form() {
    let mut expected = vec![10, 0, 0, 0];
    expected.extend(sample_message_wire_form());
    assert_eq!(encode(&sample_message(), ByteOrder::LittleEndian), Ok(expected));
    let mut expected = vec![0, 0, 0, 10];
    expected.extend(sample_message_wire_form());
    assert_eq!(encode(&sample_message(), ByteOrder::BigEndian), Ok(expected));
}

#[test]
fn message_survives_encoding_and_decoding() {
    for order in [ByteOrder::LittleEndian, ByteOrder::BigEndian] {
        let buffer = encode(&sample_message(), order).unwrap();
        assert_eq!(decode(&buffer, order), Ok(sample_message()));
        let empty = up_rust::UMessage::default();
        let buffer = encode(&empty, order).unwrap();
        assert_eq!(buffer.len(), 4);
        assert_eq!(decode(&buffer, order), Ok(empty));
    }
}

#[test]
fn truncated_message_is_a_framing_error() {
    let buffer = encode(&sample_message(), ByteOrder::LittleEndian).unwrap();
    for length in 0..buffer.len() {
        assert_eq!(decode(&buffer[..length], ByteOrder::LittleEndian), Err(DecodeError::Framing));
    }
}

#[test]
fn framed_garbage_is_a_malformed_payload() {
    let buffer = vec![1, 0, 0, 0, 0xff];
    assert_eq!(decode(&buffer, ByteOrder::LittleEndian), Err(DecodeError::MalformedPayload));
    assert_eq!(decode_topic(&buffer, ByteOrder::LittleEndian).err(), Some(DecodeError::MalformedPayload));
}

#[test]
fn topic_is_encoded_as_its_framed_wire_form() {
    let mut expected = vec![9, 0, 0, 0];
    expected.extend(sample_topic_wire_form());
    assert_eq!(encode_topic(&sample_topic(), ByteOrder::LittleEndian), Ok(expected));
    let mut expected = vec![0, 0, 0, 9];
    expected.extend(sample_topic_wire_form());
    assert_eq!(encode_topic(&sample_topic(), ByteOrder::BigEndian), Ok(expected));
}

#[test]
fn topic_is_decoded_from_its_framed_wire_form() {
    let mut buffer = vec![9, 0, 0, 0];
    buffer.extend(sample_topic_wire_form());
    let topic = decode_topic(&buffer, ByteOrder::LittleEndian).unwrap();
    assert_eq!(topic.authority_name(), "a");
    assert_eq!(topic.ue_id(), 1);
    assert_eq!(topic.ue_version_major(), 2);
    assert_eq!(topic.resource_id(), 3);
}

#[test]
fn topic_survives_encoding_and_decoding() {
    for order in [ByteOrder::LittleEndian, ByteOrder::BigEndian] {
        for topic in [
            Topic::new("", 0, 0, 0),
            Topic::new("vehicle.example", 0x4210, 1, 0x8001),
            Topic::new("*", u32::MAX, u32::MAX, u32::MAX),
        ] {
            let buffer = encode_topic(&topic, order).unwrap();
            let decoded = decode_topic(&buffer, order).unwrap();
            assert!(decoded.same_as(&topic));
        }
    }
}

#[test]
fn truncated_topic_is_a_framing_error() {
    let buffer = encode_topic(&sample_topic(), ByteOrder::BigEndian).unwrap();
    for length in 0..buffer.len() {
        assert_eq!(
            decode_topic(&buffer[..length], ByteOrder::BigEndian).err(),
            Some(DecodeError::Framing)
        );
    }
}

#[test]
fn serialized_value_is_written_as_a_frame() {
    let mut parcel = Parcel::new(ByteOrder::LittleEndian);
    assert_eq!(write_serialized(&mut parcel, Ok(vec![5, 6])), Ok(()));
    assert_eq!(parcel.into_bytes(), vec![2, 0, 0, 0, 5, 6]);
}

#[test]
fn value_that_was_not_serialized_is_a_bad_value() {
    let mut parcel = Parcel::new(ByteOrder::LittleEndian);
    parcel.write_i32(1);
    assert_eq!(write_serialized(&mut parcel, Err(protobuf_error())), Err(StatusCode::BAD_VALUE));
    assert_eq!(parcel.into_bytes(), vec![1, 0, 0, 0]);
}

#[test]
fn payload_that_was_not_parsed_is_malformed() {
    assert_eq!(parsed_or_malformed::<u8>(Err(protobuf_error())), Err(DecodeError::MalformedPayload));
    assert_eq!(parsed_or_malformed(Ok(5u8)), Ok(5u8));
}

#[test]
fn parcelable_message_goes_through_a_parcel() {
    let mut parcel = Parcel::new(ByteOrder::LittleEndian);
    let first = ParcelableUMessage::from(sample_message());
    let second = ParcelableUMessage(up_rust::UMessage::default());
    assert_eq!(first.write_to_parcel(&mut parcel), Ok(()));
    assert_eq!(second.write_to_parcel(&mut parcel), Ok(()));
    assert_eq!(parcel.data_size(), 14 + 4);
    assert_eq!(ParcelableUMessage::from_parcel(&mut parcel), Ok(first));
    assert_eq!(parcel.data_position(), 14);
    assert_eq!(ParcelableUMessage::from_parcel(&mut parcel), Ok(second));
    assert_eq!(ParcelableUMessage::from_parcel(&mut parcel), Err(StatusCode::BAD_VALUE));
    assert_eq!(parcel.data_position(), 18);
}

#[test]
fn parcelable_message_reports_bad_values() {
    let mut truncated = Parcel::from_bytes(ByteOrder::LittleEndian, vec![3, 0, 0, 0, 1]);
    assert_eq!(ParcelableUMessage::from_parcel(&mut truncated), Err(StatusCode::BAD_VALUE));
    assert_eq!(truncated.data_position(), 0);
    let mut malformed = Parcel::from_bytes(ByteOrder::LittleEndian, vec![1, 0, 0, 0, 0xff]);
    assert_eq!(ParcelableUMessage::from_parcel(&mut malformed), Err(StatusCode::BAD_VALUE));
    assert_eq!(malformed.data_position(), 5);
}

#[test]
fn parcelable_entity_goes_through_a_parcel() {
    let mut parcel = Parcel::new(ByteOrder::BigEndian);
    let entity = ParcelableUEntity::from(sample_topic());
    assert_eq!(entity.write_to_parcel(&mut parcel), Ok(()));
    assert_eq!(parcel.data_size(), 13);
    let read = ParcelableUEntity::from_parcel(&mut parcel).unwrap();
    assert!(read.0.same_as(&sample_topic()));
    assert_eq!(parcel.data_position(), 13);
    assert_eq!(ParcelableUEntity::from_parcel(&mut parcel).err(), Some(StatusCode::BAD_VALUE));
}

#[test]
fn parcelable_entity_reports_bad_values() {
    let mut truncated = Parcel::from_bytes(ByteOrder::BigEndian, vec![0, 0, 0, 3, 1]);
    assert_eq!(ParcelableUEntity::from_parcel(&mut truncated).err(), Some(StatusCode::BAD_VALUE));
    assert_eq!(truncated.data_position(), 0);
    let mut malformed = Parcel::from_bytes(ByteOrder::BigEndian, vec![0, 0, 0, 1, 0xff]);
    assert_eq!(ParcelableUEntity::from_parcel(&mut malformed).err(), Some(StatusCode::BAD_VALUE));
    assert_eq!(malformed.data_position(), 5);
}

#[test]
fn parcelables_are_copied_compared_and_made_by_default() {
    let message = ParcelableUMessage::from(sample_message());
    assert_eq!(message.clone(), message);
    assert_ne!(ParcelableUMessage::default(), message);
    assert_eq!(ParcelableUMessage::default(), ParcelableUMessage(up_rust::UMessage::default()));

    let entity = ParcelableUEntity::from(sample_topic());
    assert_eq!(entity.clone(), entity);
    assert_ne!(ParcelableUEntity::default(), entity);
    assert_eq!(ParcelableUEntity::default(), ParcelableUEntity(Topic::new("", 0, 0, 0)));
    assert_eq!(Topic::default(), Topic::new("", 0, 0, 0));
}

#[test]
fn what_is_written_for_an_entity_is_read_back_as_that_entity() {
    for order in [ByteOrder::LittleEndian, ByteOrder::BigEndian] {
        for topic in [
            Topic::new("", 0, 0, 0),
            Topic::new("vehicle.example", 0x4210, 1, 0x8001),
            Topic::new("*", u32::MAX, u32::MAX, u32::MAX),
        ] {
            let mut parcel = Parcel::new(order);
            let entity = ParcelableUEntity(topic);
            assert_eq!(entity.write_to_parcel(&mut parcel), Ok(()));
            assert_eq!(ParcelableUEntity::from_parcel(&mut parcel), Ok(entity));
        }
    }
}

fn with_unknown_field_in(holder: usize, number: u32) -> up_rust::UMessage {
    let mut message = sample_message();
    if holder == 0 {
        protobuf::Message::mut_unknown_fields(&mut message).add_varint(number, 5);
        return message;
    }
    let attributes = message.attributes.mut_or_insert_default();
    let unknown = match holder {
        1 => protobuf::Message::mut_unknown_fields(attributes),
        2 => protobuf::Message::mut_unknown_fields(attributes.id.mut_or_insert_default()),
        3 => protobuf::Message::mut_unknown_fields(attributes.source.mut_or_insert_default()),
        4 => protobuf::Message::mut_unknown_fields(attributes.sink.mut_or_insert_default()),
        _ => protobuf::Message::mut_unknown_fields(attributes.reqid.mut_or_insert_default()),
    };
    unknown.add_varint(number, 5);
    message
}

fn with_unknown_field(number: u32, nested: bool) -> up_rust::UMessage {
    with_unknown_field_in(if nested { 3 } else { 0 }, number)
}

#[test]
fn unknown_fields_are_found_wherever_the_message_holds_them() {
    for holder in 0..6 {
        for number in [0, FIELD_NUMBER_MAX + 1] {
            let message = with_unknown_field_in(holder, number);
            assert!(!is_writable(&message));
            assert_eq!(encode(&message, ByteOrder::BigEndian), Err(StatusCode::BAD_VALUE));
        }
        let message = with_unknown_field_in(holder, 99);
        assert!(is_writable(&message));
        let buffer = encode(&message, ByteOrder::BigEndian).unwrap();
        assert_eq!(decode(&buffer, ByteOrder::BigEndian), Ok(message));
    }
}

#[test]
fn message_with_fitting_unknown_fields_is_written() {
    assert_eq!(FIELD_NUMBER_MAX, 536_870_911);
    assert!(is_writable(&sample_message()));
    assert!(is_writable(&up_rust::UMessage::default()));
    for number in [1, 7, 1000, FIELD_NUMBER_MAX] {
        for nested in [false, true] {
            let message = with_unknown_field(number, nested);
            assert!(is_writable(&message));
            let buffer = encode(&message, ByteOrder::LittleEndian).unwrap();
            assert_eq!(decode(&buffer, ByteOrder::LittleEndian), Ok(message));
        }
    }
}

#[test]
fn message_with_an_unknown_field_that_fits_no_tag_is_a_bad_value() {
    for number in [0, FIELD_NUMBER_MAX + 1, u32::MAX] {
        for nested in [false, true] {
            let message = with_unknown_field(number, nested);
            assert!(!is_writable(&message));
            assert_eq!(encode(&message, ByteOrder::LittleEndian), Err(StatusCode::BAD_VALUE));
            let mut parcel = Parcel::new(ByteOrder::LittleEndian);
            parcel.write_i32(3);
            assert_eq!(
                ParcelableUMessage(message).write_to_parcel(&mut parcel),
                Err(StatusCode::BAD_VALUE)
            );
            assert_eq!(parcel.into_bytes(), vec![3, 0, 0, 0]);
        }
    }
}
