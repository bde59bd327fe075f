//! `say`: a message for everybody else.

use crate::commands::say::{message_is_valid, valid_message};
use crate::lobby::state::{LobbyView, RouterState};
use vstd::prelude::*;

verus! {

broadcast use vstd::std_specs::hash::group_hash_axioms;

/// Why a message was not accepted.
#[derive(Debug, Clone, Copy, PartialEq, Eq, Structural)]
pub enum SayError {
    /// The client has no name.
    Unregistered,
    /// The message is empty, too long or not plain ASCII.
    InvalidMessage,
}

/// The verdict on `say`: the first check that fails, if any.
pub open spec fn say_check(state: LobbyView, client_id: u64, message: Seq<char>) -> Result<
    (),
    SayError,
> {
    if !state.names.contains_key(client_id) {
        Err(SayError::Unregistered)
    } else if !valid_message(message) {
        Err(SayError::InvalidMessage)
    } else {
        Ok(())
    }
}

/// Decides whether the client `client_id` may say `message`.
///
/// The client must be registered, and the message must be non-empty, at
/// most 256 characters long and plain ASCII; the checks are made in this
/// order.  The state is never changed.
pub fn handle_say_command(router_state: &mut RouterState, client_id: u64, message: &String) -> (r:
    Result<(), SayError>)
    ensures
        r == say_check(old(router_state)@, client_id, message@),
        *final(router_state) == *old(router_state),
{
    if router_state.client_names.get(&client_id).is_none() {
        return Err(SayError::Unregistered);
    }
    if !message_is_valid(message.as_str()) {
        return Err(SayError::InvalidMessage);
    }
    Ok(())
}

} // verus!
