//! Status values exchanged with the IPC layer and with callers of the transport.

use vstd::prelude::*;
use vstd::string::StringExecFns;

verus! {

/// Failure categories of an IPC transaction.
///
/// The remote transaction layer only tells success from failure, so the bridge
/// reports every local decoding problem as [`StatusCode::BAD_VALUE`]. The other
/// codes are those that a remote end or the transaction layer may answer with;
/// the bridge passes them on as they are.
#[allow(non_camel_case_types)]
#[derive(Clone, Copy, Debug, PartialEq, Eq, Structural)]
pub enum StatusCode {
    /// The cause of the failure is not known.
    UNKNOWN_ERROR,
    /// Memory ran out.
    NO_MEMORY,
    /// The operation is not valid in the current state.
    INVALID_OPERATION,
    /// A value handed to, or read from, a transaction was not acceptable.
    BAD_VALUE,
    /// A value was of the wrong type.
    BAD_TYPE,
    /// A name was not found.
    NAME_NOT_FOUND,
    /// The caller is not allowed to do this.
    PERMISSION_DENIED,
    /// The receiver is not initialised.
    NO_INIT,
    /// What was to be created exists already.
    ALREADY_EXISTS,
    /// The remote end went away.
    DEAD_OBJECT,
    /// The transaction could not be carried out.
    FAILED_TRANSACTION,
    /// An index was out of range.
    BAD_INDEX,
    /// There was less data than was asked for.
    NOT_ENOUGH_DATA,
    /// The operation would block.
    WOULD_BLOCK,
    /// The operation took too long.
    TIMED_OUT,
    /// The receiver does not implement the method that the transaction code names.
    UNKNOWN_TRANSACTION,
    /// The transaction may not carry file descriptors.
    FDS_NOT_ALLOWED,
    /// A value was absent where one is required.
    UNEXPECTED_NULL,
}

/// Result codes of the uProtocol status type.
#[allow(non_camel_case_types)]
#[derive(Clone, Copy, Debug, PartialEq, Eq, Structural)]
pub enum UCode {
    OK,
    CANCELLED,
    UNKNOWN,
    INVALID_ARGUMENT,
    DEADLINE_EXCEEDED,
    NOT_FOUND,
    ALREADY_EXISTS,
    PERMISSION_DENIED,
    UNAUTHENTICATED,
    RESOURCE_EXHAUSTED,
    FAILED_PRECONDITION,
    ABORTED,
    OUT_OF_RANGE,
    UNIMPLEMENTED,
    INTERNAL,
    UNAVAILABLE,
    DATA_LOSS,
}

/// The outcome of a transport operation: a code and a human-readable message.
#[derive(Debug)]
pub struct UStatus {
    pub code: UCode,
    pub message: String,
}

/// The mathematical value of a [`UStatus`].
pub struct UStatusView {
    pub code: UCode,
    pub message: Seq<char>,
}

impl View for UStatus {
    type V = UStatusView;

    open spec fn view(&self) -> UStatusView {
        UStatusView { code: self.code, message: self.message@ }
    }
}

impl UStatus {
    /// A status that reports success, with an empty message.
    pub fn ok() -> (status: UStatus)
        ensures
            status@ == (UStatusView { code: UCode::OK, message: Seq::<char>::empty() }),
    {
        UStatus { code: UCode::OK, message: String::new() }
    }

    /// A status with the given code and message.
    pub fn fail_with_code(code: UCode, message: &str) -> (status: UStatus)
        ensures
            status@ == (UStatusView { code, message: message@ }),
    {
        UStatus { code, message: String::from_str(message) }
    }

    /// Whether this status reports a failure, that is, any code but `OK`.
    pub fn is_failed(&self) -> (failed: bool)
        ensures
            failed == (self.code != UCode::OK),
    {
        match self.code {
            UCode::OK => false,
            _ => true,
        }
    }

    /// The code of this status.
    pub fn get_code(&self) -> (code: UCode)
        ensures
            code == self.code,
    {
        self.code
    }

    /// A copy of the message of this status.
    pub fn get_message(&self) -> (message: String)
        ensures
            message@ == self.message@,
    {
        self.message.clone()
    }

    /// A copy of this status.
    pub fn duplicate(&self) -> (copy: UStatus)
        ensures
            copy@ == self@,
    {
        UStatus { code: self.code, message: self.message.clone() }
    }
}

} // verus!
