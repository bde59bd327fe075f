//! Sending one reply to one connection.

use crate::protocol::ServerMsg;
use crate::transport::{push_message, text_message, Outbound};
use crate::wire::encode_server_msg;
use tokio::sync::mpsc::error::SendError;
use tokio_tungstenite::tungstenite::Message;
use vstd::prelude::*;

verus! {

/// Why a reply did not reach a connection's outbound queue.
#[derive(Debug)]
pub enum SendServerMsgError {
    /// The reply could not be encoded.  Encoding a reply never fails, so no
    /// send reports this.
    SerializationError { error: serde_json::Error },
    /// The queue is closed: the connection is dead.
    ClientError,
}

/// What the answer of an outbound queue means for a send: a queue that took
/// the text is a success, a closed queue is a `ClientError`.
pub open spec fn outcome_of_push(pushed: Result<(), SendError<Message>>) -> Result<
    (),
    SendServerMsgError,
> {
    match pushed {
        Ok(()) => Ok(()),
        Err(_) => Err(SendServerMsgError::ClientError),
    }
}

/// Turns the answer of an outbound queue into the outcome of a send.
pub fn push_outcome(pushed: Result<(), SendError<Message>>) -> (r: Result<(), SendServerMsgError>)
    ensures
        r == outcome_of_push(pushed),
{
    match pushed {
        Ok(()) => Ok(()),
        Err(_) => Err(SendServerMsgError::ClientError),
    }
}

/// Encodes `message` and pushes it into the outbound queue behind `sender`.
///
/// The encoded reply is offered to the queue, which either takes it (`Ok`)
/// or is found closed (`ClientError`), as [`push_outcome`] says.  Encoding
/// never fails, so `SerializationError` is never reported.
pub fn send_server_msg(sender: &Outbound, message: &ServerMsg) -> (r: Result<
    (),
    SendServerMsgError,
>)
    ensures
        r is Ok || r matches Err(SendServerMsgError::ClientError),
{
    match encode_server_msg(message) {
        Ok(text) => push_outcome(push_message(sender, text_message(text))),
        Err(e) => Err(SendServerMsgError::SerializationError { error: e }),
    }
}

} // verus!
