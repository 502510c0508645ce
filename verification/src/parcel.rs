//! The transaction-level byte stream and the length-prefixed frame it carries.
//!
//! A parcel is a sequence of typed values written and read in strict order. The
//! only values the bridge needs are 32-bit signed integers and runs of raw bytes.
//! A *frame* is a 4-byte signed length followed by exactly that many payload
//! bytes; the byte order of the length is fixed by the transport that owns the
//! parcel.

use vstd::prelude::*;
use vstd::slice::slice_subrange;
use vstd::slice::slice_to_vec;
use crate::status::StatusCode;

verus! {

/// The order in which the bytes of an integer appear on the wire.
#[derive(Clone, Copy, Debug, PartialEq, Eq, Structural)]
pub enum ByteOrder {
    /// Least significant byte first.
    LittleEndian,
    /// Most significant byte first (network order).
    BigEndian,
}

/// Why a buffer could not be decoded.
#[derive(Clone, Copy, Debug, PartialEq, Eq, Structural)]
pub enum DecodeError {
    /// The length prefix is missing, negative, or promises more bytes than are there.
    Framing,
    /// The payload was framed correctly but is not a valid value of its schema.
    MalformedPayload,
}

impl DecodeError {
    /// The failure category under which a decode error is reported at the IPC
    /// boundary. Both kinds collapse into "bad value".
    pub fn status(&self) -> (code: StatusCode)
        ensures
            code == StatusCode::BAD_VALUE,
    {
        StatusCode::BAD_VALUE
    }
}

/// The largest payload length that a frame can declare.
pub const MAX_PAYLOAD_LEN: usize = 0x7fff_ffff;

/// The two's complement reading of `value` as an unsigned 32-bit number.
pub open spec fn unsigned_of(value: i32) -> int {
    if value < 0 {
        value + 0x1_0000_0000
    } else {
        value as int
    }
}

/// The signed 32-bit number whose two's complement reading is `unsigned`.
pub open spec fn signed_of(unsigned: int) -> i32
    recommends
        0 <= unsigned < 0x1_0000_0000,
{
    if unsigned >= 0x8000_0000 {
        (unsigned - 0x1_0000_0000) as i32
    } else {
        unsigned as i32
    }
}

/// The four base-256 digits of `unsigned`, least significant first.
pub open spec fn digits_of(unsigned: int) -> Seq<u8>
    recommends
        0 <= unsigned < 0x1_0000_0000,
{
    let q1: int = unsigned / 256;
    let q2: int = q1 / 256;
    let q3: int = q2 / 256;
    seq![(unsigned % 256) as u8, (q1 % 256) as u8, (q2 % 256) as u8, (q3 % 256) as u8]
}

/// The number whose base-256 digits, least significant first, are the first four
/// entries of `digits`.
pub open spec fn number_of(digits: Seq<u8>) -> int
    recommends
        digits.len() >= 4,
{
    digits[0] + 256 * (digits[1] + 256 * (digits[2] + 256 * digits[3]))
}

/// The first four entries of `bytes`, least significant first.
pub open spec fn digits_in(order: ByteOrder, bytes: Seq<u8>) -> Seq<u8>
    recommends
        bytes.len() >= 4,
{
    match order {
        ByteOrder::LittleEndian => seq![bytes[0], bytes[1], bytes[2], bytes[3]],
        ByteOrder::BigEndian => seq![bytes[3], bytes[2], bytes[1], bytes[0]],
    }
}

/// The four bytes that stand for `value` in the given byte order.
pub open spec fn i32_bytes(order: ByteOrder, value: i32) -> Seq<u8> {
    digits_in(order, digits_of(unsigned_of(value)))
}

/// The integer that the first four bytes of `bytes` stand for in the given byte
/// order.
pub open spec fn i32_from_bytes(order: ByteOrder, bytes: Seq<u8>) -> i32
    recommends
        bytes.len() >= 4,
{
    signed_of(number_of(digits_in(order, bytes)))
}

/// The frame that carries `payload`: its length as a 4-byte signed integer, then
/// the payload itself.
pub open spec fn frame(order: ByteOrder, payload: Seq<u8>) -> Seq<u8>
    recommends
        payload.len() <= MAX_PAYLOAD_LEN,
{
    i32_bytes(order, payload.len() as i32) + payload
}

/// The payload of the frame at the start of `buffer`, or `None` where `buffer`
/// does not start with a complete frame: fewer than four bytes, a negative
/// declared length, or fewer bytes after the prefix than the prefix declares.
/// Bytes after the frame are not part of it and are ignored.
pub open spec fn frame_payload(order: ByteOrder, buffer: Seq<u8>) -> Option<Seq<u8>> {
    if buffer.len() < 4 {
        None
    } else {
        let declared: i32 = i32_from_bytes(order, buffer);
        if declared < 0 || buffer.len() - 4 < declared {
            None
        } else {
            Some(buffer.subrange(4, 4 + declared))
        }
    }
}

/// Writing an integer and reading it back in the same byte order gives the
/// integer again.
pub proof fn lemma_i32_round_trip(order: ByteOrder, value: i32)
    ensures
        i32_bytes(order, value).len() == 4,
        i32_from_bytes(order, i32_bytes(order, value)) == value,
{
    let unsigned: int = unsigned_of(value);
    let digits = digits_of(unsigned);
    assert(digits_in(order, digits_in(order, digits)) =~= digits);
    assert(number_of(digits) == unsigned);
}

/// Decoding inverts encoding: the payload of the frame that carries `payload` is
/// `payload`, whatever follows the frame in the buffer.
pub proof fn lemma_decode_inverts_encode(order: ByteOrder, payload: Seq<u8>, rest: Seq<u8>)
    requires
        payload.len() <= MAX_PAYLOAD_LEN,
    ensures
        frame_payload(order, frame(order, payload) + rest) == Some(payload),
{
    let prefix = i32_bytes(order, payload.len() as i32);
    let buffer = frame(order, payload) + rest;
    lemma_i32_round_trip(order, payload.len() as i32);
    assert(buffer[0] == prefix[0] && buffer[1] == prefix[1] && buffer[2] == prefix[2]
        && buffer[3] == prefix[3]);
    assert(i32_from_bytes(order, buffer) == i32_from_bytes(order, prefix));
    assert(buffer.subrange(4, 4 + payload.len() as int) =~= payload);
}

/// A buffer that is shorter than its length prefix declares has no payload.
pub proof fn lemma_truncated_frame_has_no_payload(order: ByteOrder, buffer: Seq<u8>)
    requires
        buffer.len() < 4 || buffer.len() < 4 + i32_from_bytes(order, buffer),
    ensures
        frame_payload(order, buffer) is None,
{
}

/// The base-256 digits of the two's complement reading of `value`, least
/// significant first.
fn digits_of_i32(value: i32) -> (digits: (u8, u8, u8, u8))
    ensures
        seq![digits.0, digits.1, digits.2, digits.3] == digits_of(unsigned_of(value)),
{
    let wide: i64 = value as i64;
    let unsigned: u32 = if value < 0 {
        (wide + 0x1_0000_0000) as u32
    } else {
        value as u32
    };
    let q1: u32 = unsigned / 256;
    let q2: u32 = q1 / 256;
    let q3: u32 = q2 / 256;
    ((unsigned % 256) as u8, (q1 % 256) as u8, (q2 % 256) as u8, (q3 % 256) as u8)
}

/// The signed integer whose two's complement digits, least significant first,
/// are given.
fn i32_of_digits(d0: u8, d1: u8, d2: u8, d3: u8) -> (value: i32)
    ensures
        value == signed_of(number_of(seq![d0, d1, d2, d3])),
{
    let high: u32 = d2 as u32 + 256 * (d3 as u32);
    let middle: u32 = d1 as u32 + 256 * high;
    let unsigned: u32 = d0 as u32 + 256 * middle;
    if unsigned >= 0x8000_0000 {
        ((unsigned as i64) - 0x1_0000_0000) as i32
    } else {
        unsigned as i32
    }
}

/// A transaction buffer: bytes written in order at its end and read in the same
/// order from a cursor that starts at its beginning.
#[derive(Debug)]
pub struct Parcel {
    order: ByteOrder,
    data: Vec<u8>,
    position: usize,
}

impl Parcel {
    /// The cursor lies within the data. Every constructor establishes this and
    /// every method keeps it.
    pub closed spec fn wf(&self) -> bool {
        self.position <= self.data.len()
    }

    /// The byte order in which this parcel holds integers.
    pub closed spec fn order(&self) -> ByteOrder {
        self.order
    }

    /// Everything written to this parcel so far.
    pub closed spec fn bytes(&self) -> Seq<u8> {
        self.data@
    }

    /// The number of bytes already read.
    pub closed spec fn position(&self) -> nat {
        self.position as nat
    }

    /// The bytes not read yet.
    pub open spec fn unread(&self) -> Seq<u8> {
        self.bytes().subrange(self.position() as int, self.bytes().len() as int)
    }

    /// An empty parcel for a transport that uses the given byte order.
    pub fn new(order: ByteOrder) -> (parcel: Parcel)
        ensures
            parcel.wf(),
            parcel.order() == order,
            parcel.bytes() == Seq::<u8>::empty(),
            parcel.position() == 0,
    {
        Parcel { order, data: Vec::new(), position: 0 }
    }

    /// A parcel that holds `data`, with nothing read yet.
    pub fn from_bytes(order: ByteOrder, data: Vec<u8>) -> (parcel: Parcel)
        ensures
            parcel.wf(),
            parcel.order() == order,
            parcel.bytes() == data@,
            parcel.position() == 0,
    {
        Parcel { order, data, position: 0 }
    }

    /// Gives up the parcel for the bytes it holds, read or not.
    pub fn into_bytes(self) -> (data: Vec<u8>)
        ensures
            data@ == self.bytes(),
    {
        self.data
    }

    /// The byte order in which this parcel holds integers.
    pub fn byte_order(&self) -> (order: ByteOrder)
        ensures
            order == self.order(),
    {
        self.order
    }

    /// The number of bytes in the parcel.
    pub fn data_size(&self) -> (size: usize)
        ensures
            size == self.bytes().len(),
    {
        self.data.len()
    }

    /// The number of bytes already read. It never exceeds the size.
    pub fn data_position(&self) -> (position: usize)
        requires
            self.wf(),
        ensures
            position == self.position(),
            position <= self.bytes().len(),
    {
        self.position
    }

    /// The number of bytes not read yet.
    pub fn data_avail(&self) -> (available: usize)
        requires
            self.wf(),
        ensures
            available == self.unread().len(),
    {
        self.data.len() - self.position
    }

    /// Appends `value` as four bytes in the parcel's byte order.
    pub fn write_i32(&mut self, value: i32)
        requires
            old(self).wf(),
        ensures
            final(self).wf(),
            final(self).order() == old(self).order(),
            final(self).position() == old(self).position(),
            final(self).bytes() == old(self).bytes() + i32_bytes(old(self).order(), value),
    {
        let digits = digits_of_i32(value);
        match self.order {
            ByteOrder::LittleEndian => {
                self.data.push(digits.0);
                self.data.push(digits.1);
                self.data.push(digits.2);
                self.data.push(digits.3);
            },
            ByteOrder::BigEndian => {
                self.data.push(digits.3);
                self.data.push(digits.2);
                self.data.push(digits.1);
                self.data.push(digits.0);
            },
        }
        assert(self.data@ =~= old(self).data@ + i32_bytes(self.order, value));
    }

    /// Appends `bytes` as they are, without a length.
    pub fn write_bytes(&mut self, bytes: &[u8])
        requires
            old(self).wf(),
        ensures
            final(self).wf(),
            final(self).order() == old(self).order(),
            final(self).position() == old(self).position(),
            final(self).bytes() == old(self).bytes() + bytes@,
    {
        self.data.extend_from_slice(bytes);
        assert(self.data@ =~= old(self).data@ + bytes@);
    }

    /// Reads the next four bytes as a signed integer in the parcel's byte order.
    ///
    /// Where fewer than four bytes are left, nothing is read and the error is
    /// [`DecodeError::Framing`].
    pub fn read_i32(&mut self) -> (result: Result<i32, DecodeError>)
        requires
            old(self).wf(),
        ensures
            final(self).wf(),
            final(self).order() == old(self).order(),
            final(self).bytes() == old(self).bytes(),
            old(self).unread().len() < 4 ==> result == Err::<i32, DecodeError>(
                DecodeError::Framing,
            ) && final(self).position() == old(self).position(),
            old(self).unread().len() >= 4 ==> result == Ok::<i32, DecodeError>(
                i32_from_bytes(old(self).order(), old(self).unread()),
            ) && final(self).position() == old(self).position() + 4,
    {
        if self.data.len() - self.position < 4 {
            return Err(DecodeError::Framing);
        }
        let at: usize = self.position;
        let value: i32 = match self.order {
            ByteOrder::LittleEndian => i32_of_digits(
                self.data[at],
                self.data[at + 1],
                self.data[at + 2],
                self.data[at + 3],
            ),
            ByteOrder::BigEndian => i32_of_digits(
                self.data[at + 3],
                self.data[at + 2],
                self.data[at + 1],
                self.data[at],
            ),
        };
        self.position = at + 4;
        Ok(value)
    }

    /// Reads the next `count` bytes as they are.
    ///
    /// Where fewer than `count` bytes are left, nothing is read and the error is
    /// [`DecodeError::Framing`].
    pub fn read_bytes(&mut self, count: usize) -> (result: Result<Vec<u8>, DecodeError>)
        requires
            old(self).wf(),
        ensures
            final(self).wf(),
            final(self).order() == old(self).order(),
            final(self).bytes() == old(self).bytes(),
            old(self).unread().len() < count ==> result == Err::<Vec<u8>, DecodeError>(
                DecodeError::Framing,
            ) && final(self).position() == old(self).position(),
            old(self).unread().len() >= count ==> final(self).position() == old(self).position()
                + count && (result matches Ok(bytes) && bytes@ == old(self).unread().subrange(
                0,
                count as int,
            )),
    {
        if self.data.len() - self.position < count {
            return Err(DecodeError::Framing);
        }
        let at: usize = self.position;
        let bytes = slice_to_vec(slice_subrange(self.data.as_slice(), at, at + count));
        self.position = at + count;
        assert(bytes@ =~= old(self).unread().subrange(0, count as int));
        Ok(bytes)
    }

    /// Appends the frame that carries `payload`.
    ///
    /// A payload longer than [`MAX_PAYLOAD_LEN`] has no frame: its length would be
    /// written negative or truncated. Nothing is written then, and the error is
    /// [`StatusCode::BAD_VALUE`].
    pub fn write_frame(&mut self, payload: &[u8]) -> (result: Result<(), StatusCode>)
        requires
            old(self).wf(),
        ensures
            final(self).wf(),
            final(self).order() == old(self).order(),
            final(self).position() == old(self).position(),
            payload@.len() > MAX_PAYLOAD_LEN ==> result == Err::<(), StatusCode>(
                StatusCode::BAD_VALUE,
            ) && final(self).bytes() == old(self).bytes(),
            payload@.len() <= MAX_PAYLOAD_LEN ==> result == Ok::<(), StatusCode>(())
                && final(self).bytes() == old(self).bytes() + frame(old(self).order(), payload@),
    {
        if payload.len() > MAX_PAYLOAD_LEN {
            return Err(StatusCode::BAD_VALUE);
        }
        self.write_i32(payload.len() as i32);
        self.write_bytes(payload);
        assert(self.bytes() =~= old(self).bytes() + frame(old(self).order(), payload@));
        Ok(())
    }

    /// Reads the frame at the cursor and returns its payload.
    ///
    /// Where the unread bytes do not start with a complete frame, nothing is read
    /// and the error is [`DecodeError::Framing`].
    pub fn read_frame(&mut self) -> (result: Result<Vec<u8>, DecodeError>)
        requires
            old(self).wf(),
        ensures
            final(self).wf(),
            final(self).order() == old(self).order(),
            final(self).bytes() == old(self).bytes(),
            match frame_payload(old(self).order(), old(self).unread()) {
                Some(payload) => final(self).position() == old(self).position() + 4
                    + payload.len() && (result matches Ok(bytes) && bytes@ == payload),
                None => final(self).position() == old(self).position() && result == Err::<
                    Vec<u8>,
                    DecodeError,
                >(DecodeError::Framing),
            },
    {
        let start: usize = self.position;
        let declared: i32 = match self.read_i32() {
            Ok(declared) => declared,
            Err(error) => {
                return Err(error);
            },
        };
        if declared < 0 {
            self.position = start;
            return Err(DecodeError::Framing);
        }
        match self.read_bytes(declared as usize) {
            Ok(bytes) => {
                assert(bytes@ =~= old(self).unread().subrange(4, 4 + declared));
                Ok(bytes)
            },
            Err(error) => {
                self.position = start;
                Err(error)
            },
        }
    }
}

/// Encodes `payload` as a frame in a buffer of its own.
///
/// Succeeds exactly for payloads of at most [`MAX_PAYLOAD_LEN`] bytes.
pub fn encode_frame(order: ByteOrder, payload: &[u8]) -> (result: Result<Vec<u8>, StatusCode>)
    ensures
        payload@.len() > MAX_PAYLOAD_LEN ==> result == Err::<Vec<u8>, StatusCode>(
            StatusCode::BAD_VALUE,
        ),
        payload@.len() <= MAX_PAYLOAD_LEN ==> (result matches Ok(buffer) && buffer@ == frame(
            order,
            payload@,
        )),
{
    let mut parcel = Parcel::new(order);
    match parcel.write_frame(payload) {
        Ok(()) => {
            let buffer = parcel.into_bytes();
            assert(buffer@ =~= frame(order, payload@));
            Ok(buffer)
        },
        Err(code) => Err(code),
    }
}

/// Decodes the frame at the start of `buffer` and returns its payload.
///
/// Fails with [`DecodeError::Framing`] exactly where `buffer` does not start with
/// a complete frame; it never reads past the end of `buffer`.
pub fn decode_frame(order: ByteOrder, buffer: &[u8]) -> (result: Result<Vec<u8>, DecodeError>)
    ensures
        match frame_payload(order, buffer@) {
            Some(payload) => result matches Ok(bytes) && bytes@ == payload,
            None => result == Err::<Vec<u8>, DecodeError>(DecodeError::Framing),
        },
        buffer@.len() < 4 || buffer@.len() - 4 < i32_from_bytes(order, buffer@) ==> result == Err::<
            Vec<u8>,
            DecodeError,
        >(DecodeError::Framing),
{
    let mut parcel = Parcel::from_bytes(order, slice_to_vec(buffer));
    assert(parcel.unread() =~= buffer@);
    parcel.read_frame()
}

} // verus!
