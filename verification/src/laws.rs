//! What holds of the router in every state and on every path.

use crate::commands::create_conversation::{create_conversation_check, CreateConversationError};
use crate::commands::say::{say_check, valid_message, SayError};
use crate::ids::parsed_uuid;
use crate::handlers::received::{decided, performed, received, replied, ActionView};
use crate::protocol::{Command, CommandView, Event};
use crate::router::stepped;
use crate::conversation::ConversationView;
use crate::state::RouterView;
use crate::token::token_user;
use vstd::prelude::*;
use vstd::utf8::is_ascii_chars;

verus! {

/// A connection has at most one session: whatever two users a state binds a
/// connection to, they are the same user.
pub proof fn lemma_at_most_one_session(state: RouterView, c: u64, first: u128, second: u128)
    requires
        state.sessions.contains_pair(c, first),
        state.sessions.contains_pair(c, second),
    ensures
        first == second,
{
}

/// Sessions are set once.  Whatever event the router handles, a connection
/// that had a session before and has one after is bound to the same user:
/// no path rebinds a connection or gives it a second session.
pub proof fn lemma_session_set_once(pre: RouterView, event: Event, post: RouterView, c: u64)
    requires
        stepped(pre, event, post),
        pre.sessions.contains_key(c),
        post.sessions.contains_key(c),
    ensures
        post.sessions[c] == pre.sessions[c],
{
    match event {
        Event::Received { client_id, command } => {
            lemma_received_keeps_sessions(pre, client_id, command@, post, c);
        },
        _ => {},
    }
}

/// Handling a command never rebinds a connection that has a session.
pub proof fn lemma_received_keeps_sessions(
    pre: RouterView,
    client_id: u64,
    command: CommandView,
    post: RouterView,
    c: u64,
)
    requires
        received(pre, client_id, command, post),
        pre.sessions.contains_key(c),
        post.sessions.contains_key(c),
    ensures
        post.sessions[c] == pre.sessions[c],
{
    if pre.connections.contains_key(client_id) {
        match command {
            CommandView::Authenticate { token } => {},
            CommandView::CreateConversation { participant } => {},
            CommandView::Say { message, conversation_id } => {},
        }
    }
}

/// Handling a command never creates a session for a connection other than
/// the one that sent it.
pub proof fn lemma_received_binds_caller_only(
    pre: RouterView,
    client_id: u64,
    command: CommandView,
    post: RouterView,
    c: u64,
)
    requires
        received(pre, client_id, command, post),
        post.sessions.contains_key(c),
        !pre.sessions.contains_key(c),
    ensures
        c == client_id,
        command is Authenticate,
{
    if pre.connections.contains_key(client_id) {
        match command {
            CommandView::Authenticate { token } => {},
            CommandView::CreateConversation { participant } => {},
            CommandView::Say { message, conversation_id } => {},
        }
    }
}

/// Authenticating a connection that already has a session leaves its
/// binding as it was: after the command the connection is bound to the same
/// user, unless the refusal found its queue closed and the connection was
/// disconnected.  No other connection is affected and no conversation
/// changes.
pub proof fn lemma_reauthentication_changes_nothing(
    pre: RouterView,
    client_id: u64,
    token: Seq<char>,
    post: RouterView,
)
    requires
        pre.sessions.contains_key(client_id),
        received(pre, client_id, CommandView::Authenticate { token }, post),
    ensures
        post == pre || post == pre.disconnect(client_id),
        post.sessions.contains_key(client_id) ==> post.sessions[client_id]
            == pre.sessions[client_id],
{
}

/// A message of exactly 256 ASCII characters may be said; one of 257 may
/// not.
pub proof fn lemma_message_length_boundary(message: Seq<char>)
    requires
        is_ascii_chars(message),
    ensures
        message.len() == 256 ==> valid_message(message),
        message.len() == 257 ==> !valid_message(message),
        message.len() == 0 ==> !valid_message(message),
{
}

/// A message that holds a character outside 7-bit ASCII is refused as
/// `InvalidMessage`, whatever its length and whatever conversation it names.
pub proof fn lemma_non_ascii_message_refused(
    state: RouterView,
    connection_id: u64,
    conversation_id: Seq<char>,
    message: Seq<char>,
    at: int,
)
    requires
        state.sessions.contains_key(connection_id),
        0 <= at < message.len(),
        message[at] > '\u{7f}',
    ensures
        say_check(state, connection_id, conversation_id, message) == Err::<u128, SayError>(
            SayError::InvalidMessage,
        ),
{
}

/// A conversation with oneself is refused as `SelfConversation`, and
/// handling the command leaves the registry of conversations as it was.
pub proof fn lemma_self_conversation_refused(
    pre: RouterView,
    client_id: u64,
    participant: Seq<char>,
    post: RouterView,
)
    requires
        pre.sessions.contains_key(client_id),
        parsed_uuid(participant) == Some(pre.sessions[client_id]),
    ensures
        create_conversation_check(pre, client_id, participant) == Err::<
            Seq<u128>,
            CreateConversationError,
        >(CreateConversationError::SelfConversation),
        received(pre, client_id, CommandView::CreateConversation { participant }, post)
            ==> post.conversations == pre.conversations,
{
}

/// A message fans out to the members of its conversation and to nobody
/// else: a registered connection is among the targets exactly if its session
/// is bound to a participant.  The sender's own connection is no exception.
pub proof fn lemma_fan_out_reaches_members_only(state: RouterView, conversation: u128, c: u64)
    requires
        state.conversations.contains_key(conversation),
        state.connections.contains_key(c),
    ensures
        state.fan_out_targets(conversation).contains(c) <==> state.sessions.contains_key(c)
            && state.conversations[conversation].participants.contains(state.sessions[c]),
{
}

/// A `say` that passes its checks counts the sender's own connection among
/// its targets, if that connection is registered.
pub proof fn lemma_sender_is_a_target(
    state: RouterView,
    connection_id: u64,
    conversation_id: Seq<char>,
    message: Seq<char>,
)
    requires
        say_check(state, connection_id, conversation_id, message) is Ok,
        state.connections.contains_key(connection_id),
    ensures
        state.fan_out_targets(
            say_check(state, connection_id, conversation_id, message).unwrap(),
        ).contains(connection_id),
{
}

/// A fan-out touches nobody but its targets, and costs a target nothing but
/// its own place: every connection that is left keeps its queue and its
/// session, every connection outside the targets is left, a connection that
/// is evicted loses queue and session together, and no conversation
/// changes.
pub proof fn lemma_fan_out_evicts_targets_only(
    pre: RouterView,
    targets: Set<u64>,
    post: RouterView,
    c: u64,
)
    requires
        pre.fanned_out(targets, post),
    ensures
        post.conversations == pre.conversations,
        post.connections.contains_key(c) ==> pre.connections.contains_key(c)
            && post.connections[c] == pre.connections[c],
        post.sessions.contains_key(c) ==> pre.sessions.contains_key(c) && post.sessions[c]
            == pre.sessions[c],
        !targets.contains(c) ==> (post.connections.contains_key(c)
            <==> pre.connections.contains_key(c)) && (post.sessions.contains_key(c)
            <==> pre.sessions.contains_key(c)),
        pre.connections.contains_key(c) && pre.sessions.contains_key(c) ==> (
        post.connections.contains_key(c) <==> post.sessions.contains_key(c)),
{
    let dead = choose|dead: Set<u64>| #[trigger]
        dead.subset_of(targets) && post == pre.evict_all(dead);
}

/// Once a connection is disconnected it is neither registered nor bound to a
/// user, every conversation is as it was, and any further command in its
/// name is ignored: `say` and `create_conversation` would fail as
/// `Unauthenticated`, and handling any command changes nothing.
pub proof fn lemma_disconnect_is_final(
    pre: RouterView,
    client_id: u64,
    command: CommandView,
    post: RouterView,
)
    requires
        received(pre.disconnect(client_id), client_id, command, post),
    ensures
        !pre.disconnect(client_id).connections.contains_key(client_id),
        !pre.disconnect(client_id).sessions.contains_key(client_id),
        pre.disconnect(client_id).conversations == pre.conversations,
        post == pre.disconnect(client_id),
        forall|conversation_id: Seq<char>, message: Seq<char>| #[trigger]
            say_check(pre.disconnect(client_id), client_id, conversation_id, message) == Err::<
                u128,
                SayError,
            >(SayError::Unauthenticated),
        forall|participant: Seq<char>| #[trigger]
            create_conversation_check(pre.disconnect(client_id), client_id, participant) == Err::<
                Seq<u128>,
                CreateConversationError,
            >(CreateConversationError::Unauthenticated),
{
}

/// A command that arrives after its connection was reported as
/// disconnected is ignored: the router leaves the state exactly as the
/// disconnection left it, conversations included.
pub proof fn lemma_late_command_is_ignored(
    pre: RouterView,
    client_id: u64,
    command: Command,
    mid: RouterView,
    post: RouterView,
)
    requires
        stepped(pre, Event::Disconnected { client_id }, mid),
        stepped(mid, Event::Received { client_id, command }, post),
    ensures
        post == mid,
        post.conversations == pre.conversations,
        !post.connections.contains_key(client_id),
        !post.sessions.contains_key(client_id),
{
}

/// Conversations are permanent and their membership is fixed: whatever
/// event the router handles, every conversation that existed before exists
/// after, with the same identifier and the same participants.
pub proof fn lemma_conversations_are_permanent(
    pre: RouterView,
    event: Event,
    post: RouterView,
    conversation: u128,
)
    requires
        stepped(pre, event, post),
        pre.conversations.contains_key(conversation),
    ensures
        post.conversations.contains_key(conversation),
        post.conversations[conversation] == pre.conversations[conversation],
{
    match event {
        Event::Received { client_id, command } => {
            if pre.connections.contains_key(client_id) {
                match command@ {
                    CommandView::Authenticate { token } => {},
                    CommandView::CreateConversation { participant } => {
                        match create_conversation_check(pre, client_id, participant) {
                            Err(_) => {},
                            Ok(participants) => {
                                let id = choose|id: u128|
                                    !pre.conversations.contains_key(id) && replied(
                                        #[trigger] pre.add_conversation(id, participants),
                                        client_id,
                                        post,
                                    );
                            },
                        }
                    },
                    CommandView::Say { message, conversation_id } => {
                        match say_check(pre, client_id, conversation_id, message) {
                            Err(_) => {},
                            Ok(id) => {
                                lemma_fan_out_evicts_targets_only(
                                    pre,
                                    pre.fan_out_targets(id),
                                    post,
                                    client_id,
                                );
                            },
                        }
                    },
                }
            }
        },
        _ => {},
    }
}

/// Judging a command and then carrying out what was decided moves the
/// state as handling the command does.
pub proof fn lemma_decide_then_perform(
    pre: RouterView,
    client_id: u64,
    command: CommandView,
    mid: RouterView,
    action: ActionView,
    post: RouterView,
)
    requires
        decided(pre, client_id, command, mid, action),
        performed(mid, client_id, action, post),
    ensures
        received(pre, client_id, command, post),
{
    if pre.connections.contains_key(client_id) {
        match command {
            CommandView::Authenticate { token } => {},
            CommandView::CreateConversation { participant } => {},
            CommandView::Say { message, conversation_id } => {},
        }
    }
}

/// A connection that authenticates with a token is bound to the user that
/// the claims of the token name, and to no other: if handling the command
/// gives the connection a session, the session is that user's.
pub proof fn lemma_authentication_binds_token_user(
    pre: RouterView,
    client_id: u64,
    token: Seq<char>,
    post: RouterView,
)
    requires
        !pre.sessions.contains_key(client_id),
        received(pre, client_id, CommandView::Authenticate { token }, post),
        post.sessions.contains_key(client_id),
    ensures
        token_user(token) == Some(post.sessions[client_id]),
{
}

/// A conversation that is created is new to the registry: handling a
/// `create_conversation` that passes its checks adds exactly one
/// conversation, between the caller and the peer, under an identifier that
/// no conversation had, and changes no other.
pub proof fn lemma_create_conversation_adds_one(
    pre: RouterView,
    client_id: u64,
    participant: Seq<char>,
    post: RouterView,
)
    requires
        pre.connections.contains_key(client_id),
        pre.conversations.dom().finite(),
        create_conversation_check(pre, client_id, participant) is Ok,
        received(pre, client_id, CommandView::CreateConversation { participant }, post),
    ensures
        exists|id: u128|
            !pre.conversations.contains_key(id) && post.conversations
                == #[trigger] pre.conversations.insert(
                id,
                ConversationView {
                    id,
                    participants: create_conversation_check(pre, client_id, participant).unwrap(),
                },
            ),
        post.conversations.len() == pre.conversations.len() + 1,
{
    let participants = create_conversation_check(pre, client_id, participant).unwrap();
    let id = choose|id: u128|
        !pre.conversations.contains_key(id) && replied(
            #[trigger] pre.add_conversation(id, participants),
            client_id,
            post,
        );
    assert(post.conversations == pre.conversations.insert(
        id,
        ConversationView { id, participants },
    ));
    assert(post.conversations.dom() =~= pre.conversations.dom().insert(id));
}

/// A message said into a conversation that was just created is accepted:
/// once the caller's `create_conversation` has added the conversation `id`,
/// a valid message of the caller that names the conversation by a text that
/// reads as `id` passes every check, and the caller's own connection is
/// among its targets.  The text that the reply to `create_conversation`
/// carries is such a text.
pub proof fn lemma_say_into_new_conversation(
    pre: RouterView,
    client_id: u64,
    participant: Seq<char>,
    id: u128,
    conversation_id: Seq<char>,
    message: Seq<char>,
)
    requires
        pre.connections.contains_key(client_id),
        create_conversation_check(pre, client_id, participant) is Ok,
        parsed_uuid(conversation_id) == Some(id),
        valid_message(message),
    ensures
        say_check(
            pre.add_conversation(
                id,
                create_conversation_check(pre, client_id, participant).unwrap(),
            ),
            client_id,
            conversation_id,
            message,
        ) == Ok::<u128, SayError>(id),
        pre.add_conversation(
            id,
            create_conversation_check(pre, client_id, participant).unwrap(),
        ).fan_out_targets(id).contains(client_id),
{
    let participants = create_conversation_check(pre, client_id, participant).unwrap();
    assert(participants[0] == pre.sessions[client_id]);
    assert(participants.contains(pre.sessions[client_id]));
}

} // verus!
