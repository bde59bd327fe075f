//! The outbound queue of a connection.
//!
//! Each live connection has one unbounded queue of WebSocket messages; its
//! writer task drains it.  The router holds the sending half and pushes
//! encoded replies into it.  Nothing is known of a queue but what a push
//! reports: whether its consumer was still there.

use tokio::sync::mpsc::error::SendError;
use tokio::sync::mpsc::UnboundedSender;
use tokio_tungstenite::tungstenite::Message;
use vstd::prelude::*;

verus! {

/// `tokio::sync::mpsc::UnboundedSender`: the sending half of an unbounded
/// queue.  Opaque.
#[verifier::external_type_specification]
#[verifier::external_body]
#[verifier::reject_recursive_types(T)]
pub struct ExUnboundedSender<T>(UnboundedSender<T>);

/// `tungstenite::Message`: a WebSocket message.  Opaque.
#[verifier::external_type_specification]
#[verifier::external_body]
pub struct ExMessage(Message);

/// `tokio::sync::mpsc::error::SendError`: a message that a closed queue
/// handed back.  Opaque.
#[verifier::external_type_specification]
#[verifier::external_body]
#[verifier::reject_recursive_types(T)]
pub struct ExSendError<T>(SendError<T>);

/// The sending half of a connection's outbound queue.
pub type Outbound = UnboundedSender<Message>;

/// Wraps a text into a WebSocket text message (`Message::Text`).  Trusted;
/// the message is opaque, so nothing is stated of it.
#[verifier::external_body]
pub(crate) fn text_message(text: String) -> (message: Message) {
    Message::Text(text.into())
}

/// Copies a WebSocket message (`Clone::clone`).  Trusted: the copy is the
/// same message.
#[verifier::external_body]
pub(crate) fn clone_message(message: &Message) -> (copy: Message)
    ensures
        copy == *message,
{
    message.clone()
}

/// Pushes a message into an outbound queue with `UnboundedSender::send`.
/// Trusted; nothing is promised of the answer, which depends on whether the
/// consumer of the queue is still alive: the queue takes the message, or it
/// is closed and hands the message back.
#[verifier::external_body]
pub(crate) fn push_message(sender: &UnboundedSender<Message>, message: Message) -> (r: Result<
    (),
    SendError<Message>,
>) {
    sender.send(message)
}

/// Makes another handle to the same outbound queue (`Clone::clone`).
/// Trusted: the new handle feeds the queue that `sender` feeds, so the two
/// stand for the same queue.
#[verifier::external_body]
pub(crate) fn clone_sender(sender: &UnboundedSender<Message>) -> (handle: UnboundedSender<
    Message,
>)
    ensures
        handle == *sender,
{
    sender.clone()
}

} // verus!
