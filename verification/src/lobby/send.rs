//! Sending to one client of the lobby, and to all of them.

use crate::lobby::protocol::{encode_server_msg, ServerMsg};
use crate::lobby::state::RouterState;
use crate::transport::{push_message, text_message, Outbound};
use tokio::sync::mpsc::error::SendError;
use tokio_tungstenite::tungstenite::Message;
use vstd::prelude::*;

verus! {

/// Why a message did not reach a client's outbound queue.
#[derive(Debug)]
#[allow(inconsistent_fields)]
pub enum SendServerMsgError {
    /// The message could not be encoded.  Encoding a message never fails, so
    /// no send reports this.
    SerializationError { error: serde_json::Error },
    /// The queue is closed: the client is dead.  The message comes back.
    ClientError { error: SendError<Message> },
}

/// Encodes `message` and pushes it into the outbound queue behind `sender`.
///
/// The encoded message is offered to the queue, which either takes it
/// (`Ok`) or is found closed (`ClientError`), as [`push_outcome`] says.
/// Encoding never fails, so `SerializationError` is never reported.
pub fn send_server_msg(sender: &Outbound, message: &ServerMsg) -> (r: Result<
    (),
    SendServerMsgError,
>)
    ensures
        r is Ok || r matches Err(SendServerMsgError::ClientError { .. }),
{
    match encode_server_msg(message) {
        Ok(text) => send_ws_msg(sender, text_message(text)),
        Err(e) => Err(SendServerMsgError::SerializationError { error: e }),
    }
}

/// What the answer of an outbound queue means for a send: a queue that took
/// the message is a success, a closed queue is a `ClientError` that carries
/// what the queue handed back.
pub open spec fn outcome_of_push(pushed: Result<(), SendError<Message>>) -> Result<
    (),
    SendServerMsgError,
> {
    match pushed {
        Ok(()) => Ok(()),
        Err(e) => Err(SendServerMsgError::ClientError { error: e }),
    }
}

/// Turns the answer of an outbound queue into the outcome of a send.
pub fn push_outcome(pushed: Result<(), SendError<Message>>) -> (r: Result<(), SendServerMsgError>)
    ensures
        r == outcome_of_push(pushed),
{
    match pushed {
        Ok(()) => Ok(()),
        Err(e) => Err(SendServerMsgError::ClientError { error: e }),
    }
}

/// Pushes a ready-made message into the outbound queue behind `sender`.
///
/// The queue either takes it (`Ok`) or is found closed (`ClientError`).
pub fn send_ws_msg(sender: &Outbound, message: Message) -> (r: Result<(), SendServerMsgError>)
    ensures
        r is Ok || r matches Err(SendServerMsgError::ClientError { .. }),
{
    push_outcome(push_message(sender, message))
}

/// Sends `message` to every client of the lobby but `skip_client`, encoding
/// it anew for each.  A client whose queue is closed is disconnected; the
/// others are served all the same.
pub fn broadcast_server_msg(
    router_state: &mut RouterState,
    message: &ServerMsg,
    skip_client: Option<u64>,
)
    ensures
        old(router_state)@.swept(
            old(router_state)@.broadcast_targets(skip_client),
            final(router_state)@,
        ),
{
    let senders = router_state.recipients_except(skip_client);
    router_state.deliver_to_each(&senders, message);
}

/// Sends a ready-made message to every client of the lobby but
/// `skip_client`.  A client whose queue is closed is disconnected; the
/// others are served all the same.
pub fn broadcast_ws_msg(router_state: &mut RouterState, message: Message, skip_client: Option<u64>)
    ensures
        old(router_state)@.swept(
            old(router_state)@.broadcast_targets(skip_client),
            final(router_state)@,
        ),
{
    router_state.broadcast_ws_msg(message, skip_client);
}

} // verus!
