//! The parcel codec: how structured values cross the IPC boundary.
//!
//! A value travels as one frame (see [`crate::parcel`]) whose payload is the
//! value's canonical serialized form, its Protocol Buffers encoding. The framing
//! is this crate's; the encoding is the work of the `protobuf` crate on the types
//! of `up_rust`, reached through the trusted functions of this module.
//!
//! Two kinds of value are carried: messages, which pass through as opaque
//! `up_rust::UMessage` values, and the addresses of topics and entities, which
//! the bridge reads and therefore holds as [`Topic`].

use vstd::prelude::*;
use crate::listener_registry::Topic;
use crate::listener_registry::TopicView;
use crate::parcel::frame;
use crate::parcel::frame_payload;
use crate::parcel::lemma_decode_inverts_encode;
use crate::parcel::ByteOrder;
use crate::parcel::DecodeError;
use crate::parcel::Parcel;
use crate::parcel::MAX_PAYLOAD_LEN;
use crate::status::StatusCode;

verus! {

/// The uProtocol message type, carried as an opaque value.
#[verifier::external_type_specification]
#[verifier::external_body]
pub struct ExUMessage(up_rust::UMessage);

/// The error type of the Protocol Buffers runtime, carried as an opaque value.
#[verifier::external_type_specification]
#[verifier::external_body]
pub struct ExProtobufError(protobuf::Error);

/// The Protocol Buffers encoding of the `up_rust::UUri` whose four fields are
/// those of `topic`, or `None` where the runtime refuses to encode it.
pub uninterp spec fn uuri_wire_form(topic: TopicView) -> Option<Seq<u8>>;

/// The four fields of the `up_rust::UUri` that `bytes` are the Protocol Buffers
/// encoding of, or `None` where `bytes` are no such encoding.
pub uninterp spec fn uuri_parsed(bytes: Seq<u8>) -> Option<TopicView>;

/// The Protocol Buffers encoding of `message`, or `None` where the runtime
/// refuses to encode it.
pub uninterp spec fn umessage_wire_form(message: up_rust::UMessage) -> Option<Seq<u8>>;

/// The `up_rust::UMessage` that `bytes` are the Protocol Buffers encoding of, or
/// `None` where `bytes` are no such encoding.
pub uninterp spec fn umessage_parsed(bytes: Seq<u8>) -> Option<up_rust::UMessage>;

/// The numbers of the unknown fields that `message` carries, in itself and in
/// the messages nested in it, one entry for each value of such a field.
pub uninterp spec fn umessage_unknown_numbers(message: up_rust::UMessage) -> Seq<u32>;

/// The largest number that a field can have on the wire.
pub const FIELD_NUMBER_MAX: u32 = 0x1fff_ffff;

/// Whether `message` can be written at all: every unknown field that it carries
/// has a number that fits a tag. The Protocol Buffers runtime does not return
/// from writing any other message.
pub open spec fn umessage_is_writable(message: up_rust::UMessage) -> bool {
    forall|i: int|
        0 <= i < umessage_unknown_numbers(message).len() ==> 1 <= (
        #[trigger] umessage_unknown_numbers(message)[i]) <= FIELD_NUMBER_MAX
}

/// Calls `protobuf::Message::write_to_bytes` on the `up_rust::UUri` whose
/// authority name, entity id, major version and resource id are those of
/// `topic`.
///
/// Trusted: the outcome is a function of those four fields alone, named
/// [`uuri_wire_form`]. Parsing is the reverse of it: an encoding that is short
/// enough for a frame, and so holds no length that does not fit its 32 bits,
/// parses to the same four fields.
#[verifier::external_body]
fn serialize_uuri(topic: &Topic) -> (result: Result<Vec<u8>, protobuf::Error>)
    ensures
        match result {
            Ok(bytes) => uuri_wire_form(topic@) == Some(bytes@) && (bytes@.len()
                <= MAX_PAYLOAD_LEN ==> uuri_parsed(bytes@) == Some(topic@)),
            Err(_) => uuri_wire_form(topic@) is None,
        },
{
    let uuri = up_rust::UUri {
        authority_name: topic.authority_name.clone(),
        ue_id: topic.ue_id,
        ue_version_major: topic.ue_version_major,
        resource_id: topic.resource_id,
        ..Default::default()
    };
    protobuf::Message::write_to_bytes(&uuri)
}

/// Calls `protobuf::Message::parse_from_bytes` for `up_rust::UUri` and keeps
/// the authority name, entity id, major version and resource id of what it
/// returns.
///
/// Trusted: the outcome is a function of `bytes` alone, named [`uuri_parsed`].
#[verifier::external_body]
fn parse_uuri(bytes: &[u8]) -> (result: Result<Topic, protobuf::Error>)
    ensures
        match result {
            Ok(topic) => uuri_parsed(bytes@) == Some(topic@),
            Err(_) => uuri_parsed(bytes@) is None,
        },
{
    let parsed: Result<up_rust::UUri, protobuf::Error> = protobuf::Message::parse_from_bytes(bytes);
    parsed.map(|uuri| Topic {
        authority_name: uuri.authority_name,
        ue_id: uuri.ue_id,
        ue_version_major: uuri.ue_version_major,
        resource_id: uuri.resource_id,
    })
}

/// Walks the unknown fields of `message` and of the messages nested in it (its
/// attributes, and their two identifiers and two addresses) with
/// `protobuf::UnknownFields::iter`, and hands out the number of each.
///
/// Trusted: these are the unknown fields that `write_to_bytes` writes for the
/// message, named [`umessage_unknown_numbers`].
#[verifier::external_body]
fn unknown_field_numbers(message: &up_rust::UMessage) -> (numbers: Vec<u32>)
    ensures
        numbers@ == umessage_unknown_numbers(*message),
{
    let attributes = &message.attributes;
    let holders = [
        &message.special_fields,
        &attributes.special_fields,
        &attributes.id.special_fields,
        &attributes.source.special_fields,
        &attributes.sink.special_fields,
        &attributes.reqid.special_fields,
    ];
    holders.iter().flat_map(|held| held.unknown_fields().iter().map(|field| field.0)).collect()
}

/// Calls `protobuf::Message::write_to_bytes` on `message`.
///
/// Trusted: the outcome is a function of the message alone, named
/// [`umessage_wire_form`]. The call panics on an unknown field whose number
/// does not fit a tag, so such messages are kept from it.
#[verifier::external_body]
fn serialize_umessage(message: &up_rust::UMessage) -> (result: Result<Vec<u8>, protobuf::Error>)
    requires
        umessage_is_writable(*message),
    ensures
        match result {
            Ok(bytes) => umessage_wire_form(*message) == Some(bytes@),
            Err(_) => umessage_wire_form(*message) is None,
        },
{
    protobuf::Message::write_to_bytes(message)
}

/// Calls `protobuf::Message::parse_from_bytes` for `up_rust::UMessage`.
///
/// Trusted: the outcome is a function of `bytes` alone, named
/// [`umessage_parsed`].
#[verifier::external_body]
fn parse_umessage(bytes: &[u8]) -> (result: Result<up_rust::UMessage, protobuf::Error>)
    ensures
        match result {
            Ok(message) => umessage_parsed(bytes@) == Some(message),
            Err(_) => umessage_parsed(bytes@) is None,
        },
{
    protobuf::Message::parse_from_bytes(bytes)
}

/// Writes the frame of a serialized value to `parcel`, given the outcome of the
/// serialization.
///
/// A value that could not be serialized, or whose serialized form is too long
/// for a frame, is reported as [`StatusCode::BAD_VALUE`], and nothing is written.
pub fn write_serialized(parcel: &mut Parcel, serialized: Result<Vec<u8>, protobuf::Error>) -> (result:
    Result<(), StatusCode>)
    requires
        old(parcel).wf(),
    ensures
        final(parcel).wf(),
        final(parcel).order() == old(parcel).order(),
        final(parcel).position() == old(parcel).position(),
        match serialized {
            Ok(payload) if payload@.len() <= MAX_PAYLOAD_LEN => result == Ok::<(), StatusCode>(())
                && final(parcel).bytes() == old(parcel).bytes() + frame(
                old(parcel).order(),
                payload@,
            ),
            _ => result == Err::<(), StatusCode>(StatusCode::BAD_VALUE) && final(parcel).bytes()
                == old(parcel).bytes(),
        },
{
    match serialized {
        Ok(payload) => parcel.write_frame(payload.as_slice()),
        Err(_) => Err(StatusCode::BAD_VALUE),
    }
}

/// Turns the outcome of parsing a payload into the outcome of decoding it: a
/// payload that does not parse is a [`DecodeError::MalformedPayload`].
pub fn parsed_or_malformed<T>(parsed: Result<T, protobuf::Error>) -> (result: Result<T, DecodeError>)
    ensures
        match parsed {
            Ok(value) => result == Ok::<T, DecodeError>(value),
            Err(_) => result == Err::<T, DecodeError>(DecodeError::MalformedPayload),
        },
{
    match parsed {
        Ok(value) => Ok(value),
        Err(_) => Err(DecodeError::MalformedPayload),
    }
}

/// The encoding of a topic: the frame of its wire form, where it has one that
/// fits a frame.
pub open spec fn topic_encoding(order: ByteOrder, topic: TopicView) -> Option<Seq<u8>> {
    match uuri_wire_form(topic) {
        Some(payload) if payload.len() <= MAX_PAYLOAD_LEN => Some(frame(order, payload)),
        _ => None,
    }
}

/// What decoding makes of `buffer`: a framing error where it does not start with
/// a complete frame, a malformed payload where the frame's payload is no wire
/// form of a topic, and the topic otherwise.
pub open spec fn topic_decoding(order: ByteOrder, buffer: Seq<u8>) -> Result<TopicView, DecodeError> {
    match frame_payload(order, buffer) {
        None => Err(DecodeError::Framing),
        Some(payload) => match uuri_parsed(payload) {
            None => Err(DecodeError::MalformedPayload),
            Some(topic) => Ok(topic),
        },
    }
}

/// The encoding of a message: the frame of its wire form, where it can be
/// written and has a wire form that fits a frame.
pub open spec fn message_encoding(order: ByteOrder, message: up_rust::UMessage) -> Option<Seq<u8>> {
    if !umessage_is_writable(message) {
        None
    } else {
        match umessage_wire_form(message) {
            Some(payload) if payload.len() <= MAX_PAYLOAD_LEN => Some(frame(order, payload)),
            _ => None,
        }
    }
}

/// What decoding makes of `buffer`: a framing error where it does not start with
/// a complete frame, a malformed payload where the frame's payload is no wire
/// form of a message, and the message otherwise.
pub open spec fn message_decoding(order: ByteOrder, buffer: Seq<u8>) -> Result<
    up_rust::UMessage,
    DecodeError,
> {
    match frame_payload(order, buffer) {
        None => Err(DecodeError::Framing),
        Some(payload) => match umessage_parsed(payload) {
            None => Err(DecodeError::MalformedPayload),
            Some(message) => Ok(message),
        },
    }
}

/// Encodes `topic` as one frame in a buffer of its own.
///
/// Decoding is the reverse: what is returned decodes to `topic` again.
pub fn encode_topic(topic: &Topic, order: ByteOrder) -> (result: Result<Vec<u8>, StatusCode>)
    ensures
        match topic_encoding(order, topic@) {
            Some(encoding) => (result matches Ok(buffer) && buffer@ == encoding) && topic_decoding(
                order,
                encoding,
            ) == Ok::<TopicView, DecodeError>(topic@),
            None => result == Err::<Vec<u8>, StatusCode>(StatusCode::BAD_VALUE),
        },
{
    let mut parcel = Parcel::new(order);
    let serialized = serialize_uuri(topic);
    proof {
        if topic_encoding(order, topic@) is Some {
            let payload = uuri_wire_form(topic@)->0;
            lemma_decode_inverts_encode(order, payload, Seq::empty());
            assert(frame(order, payload) + Seq::<u8>::empty() =~= frame(order, payload));
        }
    }
    match write_serialized(&mut parcel, serialized) {
        Ok(()) => {
            let buffer = parcel.into_bytes();
            assert(buffer@ =~= frame(order, uuri_wire_form(topic@)->0));
            Ok(buffer)
        },
        Err(code) => Err(code),
    }
}

/// Decodes the topic in the frame at the start of `buffer`.
pub fn decode_topic(buffer: &[u8], order: ByteOrder) -> (result: Result<Topic, DecodeError>)
    ensures
        match topic_decoding(order, buffer@) {
            Ok(topic) => result matches Ok(decoded) && decoded@ == topic,
            Err(error) => result == Err::<Topic, DecodeError>(error),
        },
{
    match crate::parcel::decode_frame(order, buffer) {
        Ok(payload) => parsed_or_malformed(parse_uuri(payload.as_slice())),
        Err(error) => Err(error),
    }
}

/// Whether `message` can be written: whether the number of every unknown field
/// that it carries fits a tag.
pub fn is_writable(message: &up_rust::UMessage) -> (writable: bool)
    ensures
        writable == umessage_is_writable(*message),
{
    let numbers = unknown_field_numbers(message);
    let mut index: usize = 0;
    while index < numbers.len()
        invariant
            index <= numbers.len(),
            numbers@ == umessage_unknown_numbers(*message),
            forall|i: int| 0 <= i < index ==> 1 <= #[trigger] numbers@[i] <= FIELD_NUMBER_MAX,
        decreases numbers.len() - index,
    {
        if numbers[index] < 1 || numbers[index] > FIELD_NUMBER_MAX {
            return false;
        }
        index += 1;
    }
    true
}

/// Appends the frame of `message` to `parcel`, or nothing where it has none.
fn write_message(parcel: &mut Parcel, message: &up_rust::UMessage) -> (result: Result<
    (),
    StatusCode,
>)
    requires
        old(parcel).wf(),
    ensures
        final(parcel).wf(),
        final(parcel).order() == old(parcel).order(),
        final(parcel).position() == old(parcel).position(),
        match message_encoding(old(parcel).order(), *message) {
            Some(encoding) => result == Ok::<(), StatusCode>(()) && final(parcel).bytes() == old(parcel).bytes() + encoding,
            None => result == Err::<(), StatusCode>(StatusCode::BAD_VALUE) && final(parcel).bytes()
                == old(parcel).bytes(),
        },
{
    if is_writable(message) {
        write_serialized(parcel, serialize_umessage(message))
    } else {
        Err(StatusCode::BAD_VALUE)
    }
}

/// Encodes `message` as one frame in a buffer of its own.
///
/// A message that cannot be written, or has no wire form that fits a frame, is
/// reported as [`StatusCode::BAD_VALUE`].
pub fn encode(message: &up_rust::UMessage, order: ByteOrder) -> (result: Result<Vec<u8>, StatusCode>)
    ensures
        match message_encoding(order, *message) {
            Some(encoding) => result matches Ok(buffer) && buffer@ == encoding,
            None => result == Err::<Vec<u8>, StatusCode>(StatusCode::BAD_VALUE),
        },
{
    let mut parcel = Parcel::new(order);
    match write_message(&mut parcel, message) {
        Ok(()) => {
            let buffer = parcel.into_bytes();
            assert(buffer@ =~= frame(order, umessage_wire_form(*message)->0));
            Ok(buffer)
        },
        Err(code) => Err(code),
    }
}

/// Decodes the message in the frame at the start of `buffer`.
pub fn decode(buffer: &[u8], order: ByteOrder) -> (result: Result<up_rust::UMessage, DecodeError>)
    ensures
        result == message_decoding(order, buffer@),
{
    match crate::parcel::decode_frame(order, buffer) {
        Ok(payload) => parsed_or_malformed(parse_umessage(payload.as_slice())),
        Err(error) => Err(error),
    }
}

/// `Clone::clone` of `up_rust::UMessage`, as `derive` wrote it. Trusted, and
/// nothing is claimed of the copy.
pub assume_specification[ <up_rust::UMessage as Clone>::clone ](
    message: &up_rust::UMessage,
) -> (copy: up_rust::UMessage)
;

/// A message in the form in which a transaction carries it.
#[derive(Clone, Debug, Default, PartialEq)]
pub struct ParcelableUMessage(pub up_rust::UMessage);

impl From<up_rust::UMessage> for ParcelableUMessage {
    fn from(item: up_rust::UMessage) -> (parcelable: ParcelableUMessage) {
        ParcelableUMessage(item)
    }
}

impl vstd::std_specs::convert::FromSpecImpl<up_rust::UMessage> for ParcelableUMessage {
    open spec fn obeys_from_spec() -> bool {
        true
    }

    open spec fn from_spec(item: up_rust::UMessage) -> ParcelableUMessage {
        ParcelableUMessage(item)
    }
}

impl ParcelableUMessage {
    /// Appends the frame of this message to `parcel`.
    ///
    /// A message that cannot be written, or has no wire form that fits a frame,
    /// is reported as [`StatusCode::BAD_VALUE`], and nothing is written.
    pub fn write_to_parcel(&self, parcel: &mut Parcel) -> (result: Result<(), StatusCode>)
        requires
            old(parcel).wf(),
        ensures
            final(parcel).wf(),
            final(parcel).order() == old(parcel).order(),
            final(parcel).position() == old(parcel).position(),
            match message_encoding(old(parcel).order(), self.0) {
                Some(encoding) => result == Ok::<(), StatusCode>(()) && final(parcel).bytes()
                    == old(parcel).bytes() + encoding,
                None => result == Err::<(), StatusCode>(StatusCode::BAD_VALUE) && final(parcel).bytes() == old(parcel).bytes(),
            },
    {
        write_message(parcel, &self.0)
    }

    /// Reads the frame at the cursor of `parcel` as a message.
    ///
    /// Where the unread bytes do not start with a complete frame, nothing is read.
    /// Otherwise the frame is consumed, whether or not its payload is a message.
    /// Either failure is reported as [`StatusCode::BAD_VALUE`].
    pub fn from_parcel(parcel: &mut Parcel) -> (result: Result<ParcelableUMessage, StatusCode>)
        requires
            old(parcel).wf(),
        ensures
            final(parcel).wf(),
            final(parcel).order() == old(parcel).order(),
            final(parcel).bytes() == old(parcel).bytes(),
            match message_decoding(old(parcel).order(), old(parcel).unread()) {
                Ok(message) => result matches Ok(parcelable) && parcelable.0 == message,
                Err(_) => result == Err::<ParcelableUMessage, StatusCode>(StatusCode::BAD_VALUE),
            },
            match frame_payload(old(parcel).order(), old(parcel).unread()) {
                Some(payload) => final(parcel).position() == old(parcel).position() + 4
                    + payload.len(),
                None => final(parcel).position() == old(parcel).position(),
            },
    {
        match parcel.read_frame() {
            Ok(payload) => match parsed_or_malformed(parse_umessage(payload.as_slice())) {
                Ok(message) => Ok(ParcelableUMessage(message)),
                Err(error) => Err(error.status()),
            },
            Err(error) => Err(error.status()),
        }
    }
}

/// The address of an entity in the form in which a transaction carries it.
#[derive(Debug, PartialEq)]
pub struct ParcelableUEntity(pub Topic);

impl Clone for ParcelableUEntity {
    fn clone(&self) -> (copy: ParcelableUEntity)
        ensures
            copy.0@ == self.0@,
    {
        ParcelableUEntity(self.0.clone())
    }
}

impl Default for ParcelableUEntity {
    fn default() -> (parcelable: ParcelableUEntity)
        ensures
            parcelable.0@ == (TopicView {
                authority_name: Seq::<char>::empty(),
                ue_id: 0,
                ue_version_major: 0,
                resource_id: 0,
            }),
    {
        ParcelableUEntity(Topic::default())
    }
}

impl From<Topic> for ParcelableUEntity {
    fn from(item: Topic) -> (parcelable: ParcelableUEntity) {
        ParcelableUEntity(item)
    }
}

impl vstd::std_specs::convert::FromSpecImpl<Topic> for ParcelableUEntity {
    open spec fn obeys_from_spec() -> bool {
        true
    }

    open spec fn from_spec(item: Topic) -> ParcelableUEntity {
        ParcelableUEntity(item)
    }
}

impl ParcelableUEntity {
    /// Appends the frame of this address to `parcel`.
    ///
    /// An address without a wire form that fits a frame is reported as
    /// [`StatusCode::BAD_VALUE`], and nothing is written. Reading is the reverse:
    /// what is appended decodes to this address again.
    pub fn write_to_parcel(&self, parcel: &mut Parcel) -> (result: Result<(), StatusCode>)
        requires
            old(parcel).wf(),
        ensures
            final(parcel).wf(),
            final(parcel).order() == old(parcel).order(),
            final(parcel).position() == old(parcel).position(),
            match topic_encoding(old(parcel).order(), self.0@) {
                Some(encoding) => (result == Ok::<(), StatusCode>(()) && final(parcel).bytes()
                    == old(parcel).bytes() + encoding) && topic_decoding(
                    old(parcel).order(),
                    encoding,
                ) == Ok::<TopicView, DecodeError>(self.0@),
                None => result == Err::<(), StatusCode>(StatusCode::BAD_VALUE) && final(parcel).bytes() == old(parcel).bytes(),
            },
    {
        let serialized = serialize_uuri(&self.0);
        proof {
            if topic_encoding(parcel.order(), self.0@) is Some {
                let payload = uuri_wire_form(self.0@)->0;
                lemma_decode_inverts_encode(parcel.order(), payload, Seq::empty());
                assert(frame(parcel.order(), payload) + Seq::<u8>::empty() =~= frame(
                    parcel.order(),
                    payload,
                ));
            }
        }
        write_serialized(parcel, serialized)
    }

    /// Reads the frame at the cursor of `parcel` as an address.
    ///
    /// Where the unread bytes do not start with a complete frame, nothing is read.
    /// Otherwise the frame is consumed, whether or not its payload is an address.
    /// Either failure is reported as [`StatusCode::BAD_VALUE`].
    pub fn from_parcel(parcel: &mut Parcel) -> (result: Result<ParcelableUEntity, StatusCode>)
        requires
            old(parcel).wf(),
        ensures
            final(parcel).wf(),
            final(parcel).order() == old(parcel).order(),
            final(parcel).bytes() == old(parcel).bytes(),
            match topic_decoding(old(parcel).order(), old(parcel).unread()) {
                Ok(topic) => result matches Ok(entity) && entity.0@ == topic,
                Err(_) => result == Err::<ParcelableUEntity, StatusCode>(StatusCode::BAD_VALUE),
            },
            match frame_payload(old(parcel).order(), old(parcel).unread()) {
                Some(payload) => final(parcel).position() == old(parcel).position() + 4
                    + payload.len(),
                None => final(parcel).position() == old(parcel).position(),
            },
    {
        match parcel.read_frame() {
            Ok(payload) => match parsed_or_malformed(parse_uuri(payload.as_slice())) {
                Ok(topic) => Ok(ParcelableUEntity(topic)),
                Err(error) => Err(error.status()),
            },
            Err(error) => Err(error.status()),
        }
    }
}

} // verus!
