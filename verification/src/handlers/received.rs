//! A connection sent a command.

use crate::commands::authenticate::{handle_authenticate_command, AuthenticateError};
use crate::commands::create_conversation::{
    create_conversation,
    create_conversation_check,
    CreateConversationError,
};
use crate::commands::say::{handle_say_command, say_check, SayError};
use crate::ids::{id_text, uuid_text};
use crate::protocol::{Command, CommandView, ServerMsg, ServerMsgView};
use crate::state::{RouterState, RouterView};
use crate::token::token_user;
use crate::transport::Outbound;
use vstd::prelude::*;
use vstd::string::StringExecFns;

verus! {

broadcast use vstd::std_specs::hash::group_hash_axioms;

/// The reply to `authenticate`, given its outcome.
pub open spec fn authenticate_reply_of(
    outcome: Result<Seq<char>, AuthenticateError>,
) -> ServerMsgView {
    match outcome {
        Ok(user) => ServerMsgView::Info { message: "AUTH OK "@ + user },
        Err(AuthenticateError::AlreadyAuthenticated) => ServerMsgView::Error {
            message: "REAUTH FORBIDDEN"@,
        },
        Err(AuthenticateError::InvalidToken) => ServerMsgView::Error { message: "AUTH FAILED"@ },
    }
}

/// The reply to `create_conversation`, given its outcome.
pub open spec fn create_conversation_reply_of(
    outcome: Result<u128, CreateConversationError>,
) -> ServerMsgView {
    match outcome {
        Ok(id) => ServerMsgView::Info { message: "Created conversation: "@ + uuid_text(id) },
        Err(CreateConversationError::Unauthenticated) => ServerMsgView::Error {
            message: "You must authenticate first"@,
        },
        Err(CreateConversationError::InvalidParticipant) => ServerMsgView::Error {
            message: "Failed to parse participant ID"@,
        },
        Err(CreateConversationError::SelfConversation) => ServerMsgView::Error {
            message: "You cannot create a conversation with yourself"@,
        },
    }
}

/// The reply to a `say` that was refused.
pub open spec fn say_error_reply_of(error: SayError) -> ServerMsgView {
    ServerMsgView::Error {
        message: match error {
            SayError::InvalidMessage => "Invalid message"@,
            SayError::Unauthenticated => "You must authenticate first"@,
            SayError::ConversationDoesntExist => "Conversation doesn't exist"@,
            SayError::InvalidConversation => "Conversation ID is invalid"@,
            SayError::NotInvolved => "You are not in this conversation"@,
        },
    }
}

/// Builds the reply to `authenticate`: the user's identifier on success, the
/// reason otherwise.
pub fn authenticate_reply(outcome: Result<String, AuthenticateError>) -> (msg: ServerMsg)
    ensures
        msg@ == authenticate_reply_of(
            match outcome {
                Ok(user) => Ok(user@),
                Err(e) => Err(e),
            },
        ),
{
    match outcome {
        Ok(user) => {
            let mut message = String::from_str("AUTH OK ");
            message.append(user.as_str());
            ServerMsg::Info { message }
        },
        Err(AuthenticateError::AlreadyAuthenticated) => ServerMsg::Error {
            message: String::from_str("REAUTH FORBIDDEN"),
        },
        Err(AuthenticateError::InvalidToken) => ServerMsg::Error {
            message: String::from_str("AUTH FAILED"),
        },
    }
}

/// Builds the reply to `create_conversation`: the identifier of the new
/// conversation on success, the reason otherwise.
pub fn create_conversation_reply(outcome: Result<u128, CreateConversationError>) -> (msg:
    ServerMsg)
    ensures
        msg@ == create_conversation_reply_of(outcome),
{
    match outcome {
        Ok(id) => {
            let mut message = String::from_str("Created conversation: ");
            message.append(id_text(id).as_str());
            ServerMsg::Info { message }
        },
        Err(CreateConversationError::Unauthenticated) => ServerMsg::Error {
            message: String::from_str("You must authenticate first"),
        },
        Err(CreateConversationError::InvalidParticipant) => ServerMsg::Error {
            message: String::from_str("Failed to parse participant ID"),
        },
        Err(CreateConversationError::SelfConversation) => ServerMsg::Error {
            message: String::from_str("You cannot create a conversation with yourself"),
        },
    }
}

/// Builds the reply to a `say` that was refused.
pub fn say_error_reply(error: SayError) -> (msg: ServerMsg)
    ensures
        msg@ == say_error_reply_of(error),
{
    let text = match error {
        SayError::InvalidMessage => "Invalid message",
        SayError::Unauthenticated => "You must authenticate first",
        SayError::ConversationDoesntExist => "Conversation doesn't exist",
        SayError::InvalidConversation => "Conversation ID is invalid",
        SayError::NotInvolved => "You are not in this conversation",
    };
    ServerMsg::Error { message: String::from_str(text) }
}

/// Whether `post` is what a reply to `client_id` can leave of `pre`: the
/// same state, or the state without `client_id` if its queue was found
/// closed.
pub open spec fn replied(pre: RouterView, client_id: u64, post: RouterView) -> bool {
    post == pre || post == pre.disconnect(client_id)
}

/// Whether `post` can be the state after the command `command` of the
/// connection `client_id` was handled in the state `pre`.
///
/// A command of an unregistered connection is ignored.  `authenticate`
/// binds the connection to the user that its token names, or leaves the
/// state alone;
/// `create_conversation` adds one conversation if its checks pass; both are
/// followed by a reply to the caller.  A `say` that passes its checks is
/// fanned out; one that does not is answered with the reason.
pub open spec fn received(
    pre: RouterView,
    client_id: u64,
    command: CommandView,
    post: RouterView,
) -> bool {
    if !pre.connections.contains_key(client_id) {
        post == pre
    } else {
        match command {
            CommandView::Authenticate { token } => {
                ||| replied(pre, client_id, post)
                ||| !pre.sessions.contains_key(client_id) && token_user(token) is Some && replied(
                    pre.bind(client_id, token_user(token).unwrap()),
                    client_id,
                    post,
                )
            },
            CommandView::CreateConversation { participant } => match create_conversation_check(
                pre,
                client_id,
                participant,
            ) {
                Err(_) => replied(pre, client_id, post),
                Ok(participants) => exists|id: u128|
                    !pre.conversations.contains_key(id) && replied(
                        #[trigger] pre.add_conversation(id, participants),
                        client_id,
                        post,
                    ),
            },
            CommandView::Say { message, conversation_id } => match say_check(
                pre,
                client_id,
                conversation_id,
                message,
            ) {
                Err(_) => replied(pre, client_id, post),
                Ok(id) => pre.fanned_out(pre.fan_out_targets(id), post),
            },
        }
    }
}

/// What the router does about a command once it has been judged.
#[derive(Debug, PartialEq, Eq)]
pub enum Action {
    /// Nothing: the command came from a connection that is not registered.
    Ignore,
    /// Answer the caller with this reply.
    Reply(ServerMsg),
    /// Fan the caller's message out to this conversation.
    FanOut { conversation: u128, message: String },
}

/// The mathematical value of an [`Action`].
pub enum ActionView {
    Ignore,
    Reply(ServerMsgView),
    FanOut { conversation: u128, message: Seq<char> },
}

impl View for Action {
    type V = ActionView;

    open spec fn view(&self) -> ActionView {
        match *self {
            Action::Ignore => ActionView::Ignore,
            Action::Reply(msg) => ActionView::Reply(msg@),
            Action::FanOut { conversation, message } => ActionView::FanOut {
                conversation,
                message: message@,
            },
        }
    }
}

/// Whether judging the command `command` of the connection `client_id` in
/// the state `pre` can give the state `post` and the action `action`.
///
/// Everything is fixed by the state and the command but two things: whether
/// a token passes its check, and which identifier is drawn for a new
/// conversation.
pub open spec fn decided(
    pre: RouterView,
    client_id: u64,
    command: CommandView,
    post: RouterView,
    action: ActionView,
) -> bool {
    if !pre.connections.contains_key(client_id) {
        post == pre && action is Ignore
    } else {
        match command {
            CommandView::Authenticate { token } => if pre.sessions.contains_key(client_id) {
                post == pre && action == ActionView::Reply(
                    authenticate_reply_of(Err(AuthenticateError::AlreadyAuthenticated)),
                )
            } else {
                ||| post == pre && action == ActionView::Reply(
                    authenticate_reply_of(Err(AuthenticateError::InvalidToken)),
                )
                ||| token_user(token) is Some && post == pre.bind(
                    client_id,
                    token_user(token).unwrap(),
                ) && action == ActionView::Reply(
                    authenticate_reply_of(Ok(uuid_text(token_user(token).unwrap()))),
                )
            },
            CommandView::CreateConversation { participant } => match create_conversation_check(
                pre,
                client_id,
                participant,
            ) {
                Err(e) => post == pre && action == ActionView::Reply(
                    create_conversation_reply_of(Err(e)),
                ),
                Ok(participants) => exists|id: u128|
                    !pre.conversations.contains_key(id) && post == #[trigger] pre.add_conversation(
                        id,
                        participants,
                    ) && action == ActionView::Reply(create_conversation_reply_of(Ok(id))),
            },
            CommandView::Say { message, conversation_id } => post == pre && match say_check(
                pre,
                client_id,
                conversation_id,
                message,
            ) {
                Err(e) => action == ActionView::Reply(say_error_reply_of(e)),
                Ok(id) => action == ActionView::FanOut { conversation: id, message },
            },
        }
    }
}

/// Whether `post` is what carrying out `action` for the connection
/// `client_id` can leave of `pre`.
pub open spec fn performed(
    pre: RouterView,
    client_id: u64,
    action: ActionView,
    post: RouterView,
) -> bool {
    match action {
        ActionView::Ignore => post == pre,
        ActionView::Reply(_) => replied(pre, client_id, post),
        ActionView::FanOut { conversation, message } => if pre.sessions.contains_key(client_id)
            && pre.conversations.contains_key(conversation) {
            pre.fanned_out(pre.fan_out_targets(conversation), post)
        } else {
            post == pre
        },
    }
}

/// Judges a command sent by the connection `client_id`: hands it to its
/// handler, which makes the change of state that the command asks for, and
/// says what is to be sent.
///
/// A command of a connection that is not registered changes nothing and is
/// ignored.  `authenticate` and `create_conversation` are answered with
/// their outcome.  A `say` that is refused is answered with the reason; one
/// that is accepted is to be fanned out to its conversation.
pub fn decide_received(router_state: &mut RouterState, client_id: u64, command: Command) -> (action:
    Action)
    ensures
        decided(old(router_state)@, client_id, command@, final(router_state)@, action@),
{
    if !router_state.connections.contains_key(&client_id) {
        return Action::Ignore;
    }
    match command {
        Command::Authenticate { token } => {
            let outcome = handle_authenticate_command(router_state, client_id, token.as_str());
            Action::Reply(authenticate_reply(outcome))
        },
        Command::CreateConversation { participant } => {
            let outcome = create_conversation(router_state, client_id, participant.as_str());
            Action::Reply(create_conversation_reply(outcome))
        },
        Command::Say { message, conversation_id } => {
            match handle_say_command(
                router_state,
                client_id,
                conversation_id.as_str(),
                message.as_str(),
            ) {
                Err(e) => Action::Reply(say_error_reply(e)),
                Ok(conversation) => Action::FanOut { conversation, message },
            }
        },
    }
}

/// Carries out what was decided about a command of the connection
/// `client_id`, whose outbound queue is `tx`: sends the reply to the caller,
/// or fans the message out.  Wherever a reply or a copy of the message finds
/// a queue closed, that connection is disconnected.
pub fn perform(router_state: &mut RouterState, client_id: u64, tx: &Outbound, action: Action)
    ensures
        performed(old(router_state)@, client_id, action@, final(router_state)@),
{
    match action {
        Action::Ignore => {},
        Action::Reply(reply) => {
            router_state.send_or_disconnect_server_msg(client_id, tx, &reply);
        },
        Action::FanOut { conversation, message } => {
            router_state.send_server_msg_to_conversation(conversation, client_id, message.as_str());
        },
    }
}

/// Handles a command sent by the connection `client_id`.
///
/// A command of a connection that is not registered is silently ignored.
/// Otherwise the command is judged as [`decide_received`] says and the
/// outcome carried out as [`perform`] says: the caller is told the outcome,
/// or its message is fanned out to the conversation.
pub fn handle_received_event(router_state: &mut RouterState, client_id: u64, command: Command)
    ensures
        received(old(router_state)@, client_id, command@, final(router_state)@),
{
    let tx = match router_state.queue_of(client_id) {
        Some(tx) => tx,
        None => { return ; },
    };
    let action = decide_received(router_state, client_id, command);
    perform(router_state, client_id, &tx, action);
}

} // verus!
