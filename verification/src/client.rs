//! The client side of the host bus: the listener that a client registers for
//! itself, and how the answers of the bus are read.

use vstd::prelude::*;
use crate::iulistener::IUListener;
use crate::parcelable_stubs::ParcelableUMessage;
use crate::status::StatusCode;
use crate::status::UCode;
use crate::status::UStatus;
use crate::status::UStatusView;

verus! {

/// The listener under which a client registers with the bus. It accepts every
/// message and does nothing with it.
#[derive(Clone, Copy, Debug)]
pub struct MessageListener;

#[allow(non_snake_case)]
impl IUListener for MessageListener {
    fn onReceive(&self, event: &ParcelableUMessage) -> (result: Result<(), StatusCode>)
        ensures
            result == Ok::<(), StatusCode>(()),
    {
        Ok(())
    }
}

/// What a call to the bus amounts to, given its reply: the status that the bus
/// returned, or, where the transaction itself failed, an unknown error.
pub open spec fn status_of_reply(reply: Result<UStatus, StatusCode>) -> UStatusView {
    match reply {
        Ok(status) => status@,
        Err(_) => UStatusView { code: UCode::UNKNOWN, message: "Stubbed, unknown error"@ },
    }
}

/// Reads the reply of a call to the bus (`registerClient`, `enableDispatching`,
/// `disableDispatching`) as a status.
pub fn reply_to_status(reply: Result<UStatus, StatusCode>) -> (status: UStatus)
    ensures
        status@ == status_of_reply(reply),
{
    match reply {
        Ok(status) => status,
        Err(_) => UStatus::fail_with_code(UCode::UNKNOWN, "Stubbed, unknown error"),
    }
}

} // verus!
