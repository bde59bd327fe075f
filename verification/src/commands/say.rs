//! `say`: a message for a conversation.

use crate::ids::{parse_uuid, parsed_uuid};
use crate::state::{RouterState, RouterView};
use vstd::prelude::*;
use vstd::utf8::{is_ascii_chars, is_ascii_chars_encode_utf8};

verus! {

broadcast use {vstd::std_specs::hash::group_hash_axioms, vstd::slice::group_slice_axioms};

/// Why a message was not accepted.
#[derive(Debug, Clone, Copy, PartialEq, Eq, Structural)]
pub enum SayError {
    /// No conversation has the given identifier.
    ConversationDoesntExist,
    /// The connection has no session.
    Unauthenticated,
    /// The conversation identifier is malformed.
    InvalidConversation,
    /// The message is empty, too long or not plain ASCII.
    InvalidMessage,
    /// The sender does not take part in the conversation.
    NotInvolved,
}

/// The longest message that may be said.
pub const MAX_MESSAGE_LEN: usize = 256;

/// A message may be said if it is not empty, at most 256 characters long and
/// made of 7-bit ASCII characters only.
pub open spec fn valid_message(message: Seq<char>) -> bool {
    0 < message.len() <= MAX_MESSAGE_LEN && is_ascii_chars(message)
}

/// The verdict on `say` once the identifier has been read: `conversation`
/// is the conversation it names, or `None` if it is malformed.  The result
/// is the conversation to fan the message out to, or the first check that
/// fails.
pub open spec fn say_verdict(
    state: RouterView,
    connection_id: u64,
    conversation: Option<u128>,
    message: Seq<char>,
) -> Result<u128, SayError> {
    if !state.sessions.contains_key(connection_id) {
        Err(SayError::Unauthenticated)
    } else if !valid_message(message) {
        Err(SayError::InvalidMessage)
    } else {
        match conversation {
            None => Err(SayError::InvalidConversation),
            Some(id) => if !state.conversations.contains_key(id) {
                Err(SayError::ConversationDoesntExist)
            } else if !state.conversations[id].participants.contains(
                state.sessions[connection_id],
            ) {
                Err(SayError::NotInvolved)
            } else {
                Ok(id)
            },
        }
    }
}

/// The verdict on `say`: the conversation to fan the message out to, or the
/// first check that fails.
pub open spec fn say_check(
    state: RouterView,
    connection_id: u64,
    conversation_id: Seq<char>,
    message: Seq<char>,
) -> Result<u128, SayError> {
    say_verdict(state, connection_id, parsed_uuid(conversation_id), message)
}

/// Whether `message` may be said.
pub fn message_is_valid(message: &str) -> (r: bool)
    ensures
        r == valid_message(message@),
{
    let length = message.as_bytes().len();
    proof {
        if is_ascii_chars(message@) {
            is_ascii_chars_encode_utf8(message@);
        }
    }
    !(message.is_empty() || length > MAX_MESSAGE_LEN || !message.is_ascii())
}

/// Decides whether the connection `connection_id` may say `message`, once
/// the identifier of the conversation has been read: `conversation` is the
/// conversation it names, or `None` if it is malformed.
///
/// The checks are made in this order: the connection has a session; the
/// message is valid; the identifier is well formed; the conversation exists;
/// the sender takes part in it.  On success the identifier of the
/// conversation is returned.  The state is never changed.
pub fn say_with(
    router_state: &RouterState,
    connection_id: u64,
    conversation: Option<u128>,
    message: &str,
) -> (r: Result<u128, SayError>)
    ensures
        r == say_verdict(router_state@, connection_id, conversation, message@),
{
    let sender = match router_state.connection_to_user.get(&connection_id) {
        Some(user) => *user,
        None => { return Err(SayError::Unauthenticated); },
    };
    if !message_is_valid(message) {
        return Err(SayError::InvalidMessage);
    }
    let conversation_id = match conversation {
        Some(id) => id,
        None => { return Err(SayError::InvalidConversation); },
    };
    let conversation = match router_state.conversations.get(&conversation_id) {
        Some(c) => c,
        None => { return Err(SayError::ConversationDoesntExist); },
    };
    if !conversation.involves(sender) {
        return Err(SayError::NotInvolved);
    }
    Ok(conversation_id)
}

/// Decides whether the connection `connection_id` may say `message` in the
/// conversation named by `conversation_id`.
///
/// The checks are made in this order: the connection has a session; the
/// message is valid; the identifier is well formed; the conversation exists;
/// the sender takes part in it.  On success the identifier of the
/// conversation is returned.  The state is never changed.
pub fn handle_say_command(
    router_state: &mut RouterState,
    connection_id: u64,
    conversation_id: &str,
    message: &str,
) -> (r: Result<u128, SayError>)
    ensures
        r == say_check(old(router_state)@, connection_id, conversation_id@, message@),
        *final(router_state) == *old(router_state),
{
    say_with(router_state, connection_id, parse_uuid(conversation_id), message)
}

} // verus!
