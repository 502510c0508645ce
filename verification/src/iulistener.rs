//! The IPC interface of a listener: one method, `onReceive`, which hands a
//! message to the receiver and expects no reply payload.
//!
//! The module fixes what both ends must agree on: the interface descriptor, the
//! transaction code of each method, the flags and the argument order of each
//! call, how the receiving side dispatches on a transaction code, and how the
//! calling side falls back on a local default implementation when the remote end
//! does not know a method. Submitting a transaction is left to the caller.

use vstd::prelude::*;
use crate::parcel::frame_payload;
use crate::parcel::ByteOrder;
use crate::parcel::Parcel;
use crate::parcelable_stubs::message_decoding;
use crate::parcelable_stubs::message_encoding;
use crate::parcelable_stubs::ParcelableUMessage;
use crate::status::StatusCode;

verus! {

/// The name by which both ends identify the interface.
pub const DESCRIPTOR: &'static str = "org.eclipse.uprotocol.core.ubus.IUListener";

/// The transaction code of the first method of any interface.
pub const FIRST_CALL_TRANSACTION: u32 = 1;

/// The transaction code of `onReceive`, the first and only method.
pub const TRANSACTION_ON_RECEIVE: u32 = FIRST_CALL_TRANSACTION + 0;

/// The receiving side of the interface.
#[allow(non_snake_case)]
pub trait IUListener {
    /// The name by which both ends identify the interface.
    fn get_descriptor() -> (descriptor: &'static str) where Self: Sized
        ensures
            descriptor@ == DESCRIPTOR@,
    {
        DESCRIPTOR
    }

    /// Takes delivery of `event`.
    fn onReceive(&self, event: &ParcelableUMessage) -> Result<(), StatusCode>;
}

/// What a caller falls back on when the remote end does not implement a method.
/// The provided methods answer as such a remote end does.
#[allow(non_snake_case)]
pub trait IUListenerDefault {
    /// Whether this implementation has an `onReceive` of its own. It has none
    /// unless it says so; one that has none keeps the provided method.
    open spec fn implements_on_receive(&self) -> bool {
        false
    }

    /// Takes delivery of `event` in place of the remote end.
    ///
    /// An implementation that keeps this method answers "unknown transaction",
    /// as a remote end without the method does. One that has its own says so in
    /// [`IUListenerDefault::implements_on_receive`] and is free in its answer.
    fn onReceive(&self, event: &ParcelableUMessage) -> (result: Result<(), StatusCode>)
        ensures
            !self.implements_on_receive() ==> result == Err::<(), StatusCode>(
                StatusCode::UNKNOWN_TRANSACTION,
            ),
    {
        Err(StatusCode::UNKNOWN_TRANSACTION)
    }
}

/// The methods of the interface, in the order of their declaration.
#[derive(Clone, Copy, Debug, PartialEq, Eq, Structural)]
pub enum Method {
    /// `onReceive(event)`: one-way delivery of a message.
    OnReceive,
}

impl Method {
    /// The position of the method in the interface's declaration, from 0.
    pub open spec fn index(self) -> nat {
        match self {
            Method::OnReceive => 0,
        }
    }

    /// The transaction code of the method: the code of the first method plus the
    /// method's position.
    pub open spec fn code(self) -> int {
        FIRST_CALL_TRANSACTION + self.index()
    }

    /// The transaction code of the method.
    pub fn transaction_code(&self) -> (code: u32)
        ensures
            code == self.code(),
    {
        match self {
            Method::OnReceive => TRANSACTION_ON_RECEIVE,
        }
    }

    /// The method that a transaction code names, if it names one.
    pub fn from_transaction_code(code: u32) -> (method: Option<Method>)
        ensures
            match method {
                Some(method) => method.code() == code,
                None => forall|any: Method| any.code() != code,
            },
    {
        if code == TRANSACTION_ON_RECEIVE {
            Some(Method::OnReceive)
        } else {
            None
        }
    }

    /// Whether the caller of the method waits for no reply payload.
    pub fn is_oneway(&self) -> (oneway: bool)
        ensures
            oneway,
    {
        match self {
            Method::OnReceive => true,
        }
    }
}

/// No two methods share a transaction code.
pub proof fn lemma_transaction_codes_are_unique(first: Method, second: Method)
    requires
        first.code() == second.code(),
    ensures
        first == second,
{
}

/// How a transaction is to be submitted.
#[derive(Clone, Copy, Debug, PartialEq, Eq, Structural)]
pub struct TransactionFlags {
    /// The caller does not wait for a reply payload, only for marshaling errors.
    pub oneway: bool,
    /// The transaction stays within the local partition.
    pub private_local: bool,
}

/// A call ready to be submitted: which method, with which arguments, and how.
#[derive(Debug)]
pub struct Transaction {
    pub code: u32,
    pub data: Parcel,
    pub flags: TransactionFlags,
}

/// Marshals the arguments of `onReceive(event)` into `data`, in the order of the
/// method's declaration: the frame of the one argument, a message, is appended.
///
/// A message that cannot be written, or has no wire form that fits a frame, is
/// reported as [`StatusCode::BAD_VALUE`].
#[allow(non_snake_case)]
pub fn build_parcel_onReceive(event: &ParcelableUMessage, data: Parcel) -> (result: Result<
    Parcel,
    StatusCode,
>)
    requires
        data.wf(),
    ensures
        match message_encoding(data.order(), event.0) {
            Some(encoding) => result matches Ok(written) && written.wf() && written.order()
                == data.order() && written.position() == data.position() && written.bytes()
                == data.bytes() + encoding,
            None => result == Err::<Parcel, StatusCode>(StatusCode::BAD_VALUE),
        },
{
    let mut data = data;
    match event.write_to_parcel(&mut data) {
        Ok(()) => Ok(data),
        Err(code) => Err(code),
    }
}

/// Prepares the call `onReceive(event)` for a transport of the given byte order:
/// the method's transaction code, its marshaled arguments, and the flags of a
/// one-way, local-only transaction.
///
/// A message that cannot be written, or has no wire form that fits a frame, is
/// reported as [`StatusCode::BAD_VALUE`].
#[allow(non_snake_case)]
pub fn prepare_onReceive(event: &ParcelableUMessage, order: ByteOrder) -> (result: Result<
    Transaction,
    StatusCode,
>)
    ensures
        match message_encoding(order, event.0) {
            Some(encoding) => result matches Ok(call) && call.code == Method::OnReceive.code()
                && call.flags == (TransactionFlags { oneway: true, private_local: true })
                && call.data.wf() && call.data.order() == order && call.data.position() == 0
                && call.data.bytes() == encoding,
            None => result == Err::<Transaction, StatusCode>(StatusCode::BAD_VALUE),
        },
{
    match build_parcel_onReceive(event, Parcel::new(order)) {
        Ok(data) => {
            assert(data.bytes() =~= message_encoding(order, event.0)->0);
            Ok(
                Transaction {
                    code: Method::OnReceive.transaction_code(),
                    data,
                    flags: TransactionFlags { oneway: true, private_local: true },
                },
            )
        },
        Err(code) => Err(code),
    }
}

/// The outcome of a call whose reply is `reply`, before any fallback: a reply
/// parcel means success, and a failure status is passed on.
pub open spec fn reply_status(reply: Result<Parcel, StatusCode>) -> Result<(), StatusCode> {
    match reply {
        Ok(_) => Ok(()),
        Err(code) => Err(code),
    }
}

/// The outcome of a call whose reply is `reply`, where `fallback` is what the
/// local default implementation answered, if one is configured.
///
/// With a default implementation, a reply of "unknown transaction" is replaced by
/// the default implementation's answer. Every other reply stands as it is.
pub open spec fn settled(
    reply: Result<Parcel, StatusCode>,
    fallback: Option<Result<(), StatusCode>>,
) -> Result<(), StatusCode> {
    if reply == Err::<Parcel, StatusCode>(StatusCode::UNKNOWN_TRANSACTION) && fallback is Some {
        fallback->0
    } else {
        reply_status(reply)
    }
}

/// Settles a call whose reply is `reply`, given what the local default
/// implementation answered, if one is configured.
pub fn settle(reply: Result<Parcel, StatusCode>, fallback: Option<Result<(), StatusCode>>) -> (result:
    Result<(), StatusCode>)
    ensures
        result == settled(reply, fallback),
        reply == Err::<Parcel, StatusCode>(StatusCode::UNKNOWN_TRANSACTION) ==> match fallback {
            Some(answer) => result == answer,
            None => result == Err::<(), StatusCode>(StatusCode::UNKNOWN_TRANSACTION),
        },
{
    match reply {
        Ok(_) => Ok(()),
        Err(StatusCode::UNKNOWN_TRANSACTION) => match fallback {
            Some(answer) => answer,
            None => Err(StatusCode::UNKNOWN_TRANSACTION),
        },
        Err(code) => Err(code),
    }
}

/// Settles the call `onReceive(event)` whose reply is `reply`.
///
/// Where the remote end answered "unknown transaction" and a default
/// implementation is configured, the default implementation is asked with the
/// same event, and what it answers is the outcome. In every other case the
/// default implementation is left alone and the reply decides. So "unknown
/// transaction" stands wherever no default implementation is configured, or the
/// one that is has no `onReceive` of its own.
#[allow(non_snake_case)]
pub fn read_response_onReceive<D: IUListenerDefault>(
    event: &ParcelableUMessage,
    reply: Result<Parcel, StatusCode>,
    default_impl: Option<&D>,
) -> (result: Result<(), StatusCode>)
    ensures
        !(reply == Err::<Parcel, StatusCode>(StatusCode::UNKNOWN_TRANSACTION) && default_impl is Some)
            ==> result == reply_status(reply),
        reply == Err::<Parcel, StatusCode>(StatusCode::UNKNOWN_TRANSACTION) ==> (
        default_impl matches Some(configured) ==> call_ensures(
            D::onReceive,
            (configured, event),
            result,
        )),
        default_impl matches Some(configured) && !configured.implements_on_receive() ==> result
            == reply_status(reply),
{
    match reply {
        Err(StatusCode::UNKNOWN_TRANSACTION) => match default_impl {
            Some(default_impl) => {
                let answer = default_impl.onReceive(event);
                settle(reply, Some(answer))
            },
            None => settle(reply, None),
        },
        _ => settle(reply, None),
    }
}

/// Hands a decoded argument of `onReceive` to `service`.
///
/// A decoded argument is handed to the service's `onReceive`. The method is
/// one-way: whatever the service answers, the transaction succeeds. An argument
/// that could not be decoded fails the transaction with the decoding's status,
/// and the service is not called.
pub fn deliver_to_service<S: IUListener>(
    service: &S,
    argument: Result<ParcelableUMessage, StatusCode>,
) -> (result: Result<(), StatusCode>)
    ensures
        match argument {
            Ok(_) => result == Ok::<(), StatusCode>(()),
            Err(code) => result == Err::<(), StatusCode>(code),
        },
        argument matches Ok(event) ==> exists|answer: Result<(), StatusCode>| #[trigger]
            call_ensures(S::onReceive, (service, &event), answer),
{
    match argument {
        Ok(event) => {
            let _ = service.onReceive(&event);
            Ok(())
        },
        Err(code) => Err(code),
    }
}

/// Dispatches an incoming transaction to `service`.
///
/// A code that names no method is answered with
/// [`StatusCode::UNKNOWN_TRANSACTION`], and `data` is not touched. For
/// `onReceive` the argument is read from `data`; where it does not decode to a
/// message the answer is [`StatusCode::BAD_VALUE`], and otherwise the service
/// takes delivery and the transaction succeeds (see [`deliver_to_service`]). The
/// method is one-way, so nothing is written to `reply`.
pub fn on_transact<S: IUListener>(service: &S, code: u32, data: &mut Parcel, reply: &mut Parcel) -> (result:
    Result<(), StatusCode>)
    requires
        old(data).wf(),
    ensures
        final(data).wf(),
        final(data).order() == old(data).order(),
        final(data).bytes() == old(data).bytes(),
        *final(reply) == *old(reply),
        code != Method::OnReceive.code() ==> result == Err::<(), StatusCode>(
            StatusCode::UNKNOWN_TRANSACTION,
        ) && final(data).position() == old(data).position(),
        code == Method::OnReceive.code() ==> match message_decoding(
            old(data).order(),
            old(data).unread(),
        ) {
            Ok(_) => result == Ok::<(), StatusCode>(()),
            Err(_) => result == Err::<(), StatusCode>(StatusCode::BAD_VALUE),
        },
        code == Method::OnReceive.code() ==> match frame_payload(
            old(data).order(),
            old(data).unread(),
        ) {
            Some(payload) => final(data).position() == old(data).position() + 4 + payload.len(),
            None => final(data).position() == old(data).position(),
        },
        code == Method::OnReceive.code() ==> (message_decoding(
            old(data).order(),
            old(data).unread(),
        ) matches Ok(message) ==> exists|answer: Result<(), StatusCode>| #[trigger]
            call_ensures(S::onReceive, (service, &ParcelableUMessage(message)), answer)),
{
    match Method::from_transaction_code(code) {
        Some(Method::OnReceive) => {
            let argument = ParcelableUMessage::from_parcel(data);
            deliver_to_service(service, argument)
        },
        None => Err(StatusCode::UNKNOWN_TRANSACTION),
    }
}

} // verus!
