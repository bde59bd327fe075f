//! A client of the lobby sent a command.

use crate::lobby::commands::register::{handle_register_command, register_check, RegisterError};
use crate::lobby::commands::say::{handle_say_command, say_check, SayError};
use crate::lobby::protocol::{encode_server_msg, Command, CommandView, ServerMsg, ServerMsgView};
use crate::lobby::send::broadcast_ws_msg;
use crate::lobby::state::{LobbyView, RouterState};
use crate::transport::{text_message, Outbound};
use vstd::prelude::*;
use vstd::string::StringExecFns;

verus! {

broadcast use vstd::std_specs::hash::group_hash_axioms;

/// The reply to `register`, given the name asked for and the outcome.
pub open spec fn register_reply_of(
    name: Seq<char>,
    outcome: Result<(), RegisterError>,
) -> ServerMsgView {
    match outcome {
        Ok(()) => ServerMsgView::Info { message: "Registered as "@ + name },
        Err(RegisterError::InvalidName) => ServerMsgView::Error { message: "Invalid name"@ },
        Err(RegisterError::AlreadyRegistered) => ServerMsgView::Error {
            message: "Already registered"@,
        },
        Err(RegisterError::UsernameTaken) => ServerMsgView::Error { message: "Username taken"@ },
    }
}

/// The reply to a `say` that was refused.
pub open spec fn say_error_reply_of(error: SayError) -> ServerMsgView {
    ServerMsgView::Error {
        message: match error {
            SayError::InvalidMessage => "Invalid message"@,
            SayError::Unregistered => "You must register first"@,
        },
    }
}

/// Builds the reply to `register`: a confirmation that names the client on
/// success, the reason otherwise.
pub fn register_reply(name: &str, outcome: Result<(), RegisterError>) -> (msg: ServerMsg)
    ensures
        msg@ == register_reply_of(name@, outcome),
{
    match outcome {
        Ok(()) => {
            let mut message = String::from_str("Registered as ");
            message.append(name);
            ServerMsg::Info { message }
        },
        Err(RegisterError::InvalidName) => ServerMsg::Error {
            message: String::from_str("Invalid name"),
        },
        Err(RegisterError::AlreadyRegistered) => ServerMsg::Error {
            message: String::from_str("Already registered"),
        },
        Err(RegisterError::UsernameTaken) => ServerMsg::Error {
            message: String::from_str("Username taken"),
        },
    }
}

/// Builds the reply to a `say` that was refused.
pub fn say_error_reply(error: SayError) -> (msg: ServerMsg)
    ensures
        msg@ == say_error_reply_of(error),
{
    let text = match error {
        SayError::InvalidMessage => "Invalid message",
        SayError::Unregistered => "You must register first",
    };
    ServerMsg::Error { message: String::from_str(text) }
}

/// Whether `post` is what a reply to `client_id` can leave of `pre`: the
/// same state, or the state without `client_id` if its queue was found
/// closed.
pub open spec fn replied(pre: LobbyView, client_id: u64, post: LobbyView) -> bool {
    post == pre || post == pre.disconnect(client_id)
}

/// Whether `post` can be the state after the command `command` of the
/// client `client_id` was handled in the state `pre`.
///
/// A command of a client that is not connected is ignored.  `register`
/// gives the client its name if the checks pass, and is answered either
/// way.  A `say` that passes its checks is broadcast to all the others; one
/// that does not is answered with the reason.
pub open spec fn received(
    pre: LobbyView,
    client_id: u64,
    command: CommandView,
    post: LobbyView,
) -> bool {
    if !pre.clients.contains_key(client_id) {
        post == pre
    } else {
        match command {
            CommandView::Register { name } => match register_check(pre, client_id, name) {
                Err(_) => replied(pre, client_id, post),
                Ok(()) => replied(pre.name(client_id, name), client_id, post),
            },
            CommandView::Say { message } => match say_check(pre, client_id, message) {
                Err(_) => replied(pre, client_id, post),
                Ok(()) => pre.swept(pre.broadcast_targets(Some(client_id)), post),
            },
        }
    }
}

/// What the lobby does about a command once it has been judged.
#[derive(Debug, PartialEq, Eq)]
pub enum Action {
    /// Nothing: the command came from a client that is not connected.
    Ignore,
    /// Answer the caller with this reply.
    Reply(ServerMsg),
    /// Send this message to every client but the caller.
    Broadcast(ServerMsg),
}

/// The mathematical value of an [`Action`].
pub enum ActionView {
    Ignore,
    Reply(ServerMsgView),
    Broadcast(ServerMsgView),
}

impl View for Action {
    type V = ActionView;

    open spec fn view(&self) -> ActionView {
        match *self {
            Action::Ignore => ActionView::Ignore,
            Action::Reply(msg) => ActionView::Reply(msg@),
            Action::Broadcast(msg) => ActionView::Broadcast(msg@),
        }
    }
}

/// The state and the action that judging the command `command` of the
/// client `client_id` gives in the state `pre`.
pub open spec fn decision(pre: LobbyView, client_id: u64, command: CommandView) -> (
    LobbyView,
    ActionView,
) {
    if !pre.clients.contains_key(client_id) {
        (pre, ActionView::Ignore)
    } else {
        match command {
            CommandView::Register { name } => match register_check(pre, client_id, name) {
                Err(e) => (pre, ActionView::Reply(register_reply_of(name, Err(e)))),
                Ok(()) => (
                    pre.name(client_id, name),
                    ActionView::Reply(register_reply_of(name, Ok(()))),
                ),
            },
            CommandView::Say { message } => match say_check(pre, client_id, message) {
                Err(e) => (pre, ActionView::Reply(say_error_reply_of(e))),
                Ok(()) => (
                    pre,
                    ActionView::Broadcast(
                        ServerMsgView::Chat { from: pre.names[client_id], message },
                    ),
                ),
            },
        }
    }
}

/// Whether `post` is what carrying out `action` for the client `client_id`
/// can leave of `pre`.
pub open spec fn performed(
    pre: LobbyView,
    client_id: u64,
    action: ActionView,
    post: LobbyView,
) -> bool {
    match action {
        ActionView::Ignore => post == pre,
        ActionView::Reply(_) => replied(pre, client_id, post),
        ActionView::Broadcast(_) => pre.swept(pre.broadcast_targets(Some(client_id)), post),
    }
}

/// Judges a command sent by the client `client_id`: hands it to its
/// handler, which makes the change of state that the command asks for, and
/// says what is to be sent.
///
/// A command of a client that is not connected changes nothing and is
/// ignored.  `register` is answered with its outcome.  A `say` that is
/// refused is answered with the reason; one that is accepted is to be
/// broadcast under the sender's name.
pub fn decide_received(router_state: &mut RouterState, client_id: u64, command: Command) -> (action:
    Action)
    ensures
        (final(router_state)@, action@) == decision(old(router_state)@, client_id, command@),
{
    if !router_state.clients.contains_key(&client_id) {
        return Action::Ignore;
    }
    match command {
        Command::Register { name } => {
            let outcome = handle_register_command(router_state, client_id, &name);
            Action::Reply(register_reply(name.as_str(), outcome))
        },
        Command::Say { message } => {
            if let Err(e) = handle_say_command(router_state, client_id, &message) {
                return Action::Reply(say_error_reply(e));
            }
            match router_state.client_names.get(&client_id) {
                Some(sender_name) => Action::Broadcast(
                    ServerMsg::Chat { from: sender_name.clone(), message },
                ),
                None => Action::Ignore,
            }
        },
    }
}

/// Carries out what was decided about a command of the client `client_id`,
/// whose outbound queue is `tx`: sends the reply to the caller, or encodes
/// the message once and sends it to every other client.  Wherever a send
/// finds a queue closed, that client is disconnected.
pub fn perform(router_state: &mut RouterState, client_id: u64, tx: &Outbound, action: Action)
    ensures
        performed(old(router_state)@, client_id, action@, final(router_state)@),
{
    match action {
        Action::Ignore => {},
        Action::Reply(reply) => {
            router_state.send_or_disconnect_server_msg(client_id, tx, &reply);
        },
        Action::Broadcast(chat) => {
            let raw = match encode_server_msg(&chat) {
                Ok(v) => v,
                Err(_) => {
                    assert(final(router_state)@ == old(router_state)@.disconnect_each(
                        Seq::<u64>::empty(),
                    ));
                    return ;
                },
            };
            broadcast_ws_msg(router_state, text_message(raw), Some(client_id));
        },
    }
}

/// Handles a command sent by the client `client_id`.
///
/// A command of a client that is not connected is silently ignored.
/// Otherwise the command is judged as [`decide_received`] says and the
/// outcome carried out as [`perform`] says.
pub fn handle_received_event(router_state: &mut RouterState, client_id: u64, command: Command)
    ensures
        received(old(router_state)@, client_id, command@, final(router_state)@),
{
    let tx = match router_state.queue_of(client_id) {
        Some(tx) => tx,
        None => { return ; },
    };
    let action = decide_received(router_state, client_id, command);
    perform(router_state, client_id, &tx, action);
}

} // verus!
