//! The messages that travel between clients, connection tasks and the router.

use crate::ids::{ConnectionId, UserId};
use crate::transport::Outbound;
use vstd::prelude::*;

verus! {

/// A request sent by a client.
#[derive(Debug, PartialEq, Eq)]
pub enum Command {
    /// Present a bearer token to bind the connection to a user.
    Authenticate { token: String },
    /// Open a conversation between the caller and `participant`.
    CreateConversation { participant: String },
    /// Say `message` in the conversation `conversation_id`.
    Say { message: String, conversation_id: String },
}

/// The mathematical value of a [`Command`].
pub enum CommandView {
    Authenticate { token: Seq<char> },
    CreateConversation { participant: Seq<char> },
    Say { message: Seq<char>, conversation_id: Seq<char> },
}

impl View for Command {
    type V = CommandView;

    open spec fn view(&self) -> CommandView {
        match *self {
            Command::Authenticate { token } => CommandView::Authenticate { token: token@ },
            Command::CreateConversation { participant } => CommandView::CreateConversation {
                participant: participant@,
            },
            Command::Say { message, conversation_id } => CommandView::Say {
                message: message@,
                conversation_id: conversation_id@,
            },
        }
    }
}

/// A message from the router to a client.
#[derive(Debug, PartialEq, Eq)]
pub enum ServerMsg {
    /// A chat message said by `from` in `conversation`.
    Chat { conversation: String, from: String, message: String },
    /// A confirmation or a greeting.
    Info { message: String },
    /// The reason why a command was refused.
    Error { message: String },
}

/// The mathematical value of a [`ServerMsg`].
pub enum ServerMsgView {
    Chat { conversation: Seq<char>, from: Seq<char>, message: Seq<char> },
    Info { message: Seq<char> },
    Error { message: Seq<char> },
}

impl View for ServerMsg {
    type V = ServerMsgView;

    open spec fn view(&self) -> ServerMsgView {
        match *self {
            ServerMsg::Chat { conversation, from, message } => ServerMsgView::Chat {
                conversation: conversation@,
                from: from@,
                message: message@,
            },
            ServerMsg::Info { message } => ServerMsgView::Info { message: message@ },
            ServerMsg::Error { message } => ServerMsgView::Error { message: message@ },
        }
    }
}

/// What the connection tasks report to the router.
pub enum Event {
    /// A transport connection was accepted; `out_tx` feeds its writer.
    Connected { client_id: ConnectionId, out_tx: Outbound },
    /// A connection sent a command.
    Received { client_id: ConnectionId, command: Command },
    /// A connection was closed or failed.
    Disconnected { client_id: ConnectionId },
}

/// The user snapshot that the identity provider embeds in a token.
#[derive(Debug, PartialEq, Eq)]
pub struct UserInfo {
    pub id: UserId,
    pub username: String,
    /// Seconds since the Unix epoch.
    pub created_at: i64,
    /// Seconds since the Unix epoch.
    pub updated_at: i64,
}

/// The payload of a token.
#[derive(Debug, PartialEq, Eq)]
pub struct Claims {
    pub sub: String,
    pub user: UserInfo,
    /// Expiry, in seconds since the Unix epoch.
    pub exp: u64,
    /// Time of issue, in seconds since the Unix epoch.
    pub iat: u64,
}

/// The mathematical value of a [`UserInfo`].
pub struct UserInfoView {
    pub id: u128,
    pub username: Seq<char>,
    pub created_at: i64,
    pub updated_at: i64,
}

/// The mathematical value of a [`Claims`].
pub struct ClaimsView {
    pub sub: Seq<char>,
    pub user: UserInfoView,
    pub exp: u64,
    pub iat: u64,
}

impl View for UserInfo {
    type V = UserInfoView;

    open spec fn view(&self) -> UserInfoView {
        UserInfoView {
            id: self.id,
            username: self.username@,
            created_at: self.created_at,
            updated_at: self.updated_at,
        }
    }
}

impl View for Claims {
    type V = ClaimsView;

    open spec fn view(&self) -> ClaimsView {
        ClaimsView { sub: self.sub@, user: self.user@, exp: self.exp, iat: self.iat }
    }
}

} // verus!
