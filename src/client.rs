//! What a caller of the station gets back. The caller's request is either
//! accepted into the station's queue or not, and a reply, where one is owed,
//! either arrives or its handle is dropped unanswered. Both failures are one
//! error kind, kept apart from the station's own answers.
use vstd::prelude::*;
use crate::types::Error;

verus! {

/// The result of an operation whose caller waits for a reply: the reply,
/// when the request was queued and the reply arrived; otherwise the
/// control-channel failure.
pub fn reply_or_closed<T>(enqueued: bool, reply: Option<T>) -> (r: Result<T, Error>)
    ensures
        r is Ok <==> enqueued && reply is Some,
        r matches Ok(v) ==> reply == Some(v),
        r matches Err(e) ==> e == Error::WifiStationRequestChannelClosed,
{
    if !enqueued {
        return Err(Error::WifiStationRequestChannelClosed);
    }
    match reply {
        Some(v) => Ok(v),
        None => Err(Error::WifiStationRequestChannelClosed),
    }
}

/// The result of a fire-and-forget operation: success once the request is
/// queued, the control-channel failure otherwise.
pub fn accepted_or_closed(enqueued: bool) -> (r: Result<(), Error>)
    ensures
        r is Ok <==> enqueued,
        r matches Err(e) ==> e == Error::WifiStationRequestChannelClosed,
{
    if enqueued {
        Ok(())
    } else {
        Err(Error::WifiStationRequestChannelClosed)
    }
}

} // verus!
