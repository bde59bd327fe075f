//! The messages of the lobby.

use crate::transport::Outbound;
use crate::json::{
    json_quote,
    json_string_text,
    json_text_member,
    parse_json,
    parsed_json,
    read_text_member,
};
use serde_json::Value;
use crate::wire::{encode_notice, notice_wire};
use vstd::prelude::*;
use vstd::string::StringExecFns;

verus! {

/// A request sent by a client of the lobby.
#[derive(Debug, PartialEq, Eq)]
pub enum Command {
    /// Take the name `name`.
    Register { name: String },
    /// Say `message` to everybody else.
    Say { message: String },
}

/// The mathematical value of a [`Command`].
pub enum CommandView {
    Register { name: Seq<char> },
    Say { message: Seq<char> },
}

impl View for Command {
    type V = CommandView;

    open spec fn view(&self) -> CommandView {
        match *self {
            Command::Register { name } => CommandView::Register { name: name@ },
            Command::Say { message } => CommandView::Say { message: message@ },
        }
    }
}

/// A message from the lobby to a client.
#[derive(Debug, PartialEq, Eq)]
pub enum ServerMsg {
    /// A chat message said by the client named `from`.
    Chat { from: String, message: String },
    /// A confirmation or a greeting.
    Info { message: String },
    /// The reason why a command was refused.
    Error { message: String },
}

/// The mathematical value of a [`ServerMsg`].
pub enum ServerMsgView {
    Chat { from: Seq<char>, message: Seq<char> },
    Info { message: Seq<char> },
    Error { message: Seq<char> },
}

impl View for ServerMsg {
    type V = ServerMsgView;

    open spec fn view(&self) -> ServerMsgView {
        match *self {
            ServerMsg::Chat { from, message } => ServerMsgView::Chat {
                from: from@,
                message: message@,
            },
            ServerMsg::Info { message } => ServerMsgView::Info { message: message@ },
            ServerMsg::Error { message } => ServerMsgView::Error { message: message@ },
        }
    }
}

/// What the connection tasks report to the lobby.
pub enum Event {
    /// A transport connection was accepted; `out_tx` feeds its writer.
    Connected { client_id: u64, out_tx: Outbound },
    /// A connection sent a command.
    Received { client_id: u64, command: Command },
    /// A connection was closed or failed.
    Disconnected { client_id: u64 },
}

/// The `chat` object of the lobby; both arguments are encoded string
/// literals.
pub open spec fn chat_wire(from: Seq<char>, message: Seq<char>) -> Seq<char> {
    "{\"type\":\"chat\",\"from\":"@ + from + ",\"message\":"@ + message + "}"@
}

/// The text that goes on the wire for a message of the lobby.
pub open spec fn wire_text(msg: ServerMsgView) -> Seq<char> {
    match msg {
        ServerMsgView::Info { message } => notice_wire("info"@, json_string_text(message)),
        ServerMsgView::Error { message } => notice_wire("error"@, json_string_text(message)),
        ServerMsgView::Chat { from, message } => chat_wire(
            json_string_text(from),
            json_string_text(message),
        ),
    }
}

fn encode_chat(from: &str, message: &str) -> (r: Result<String, serde_json::Error>)
    ensures
        r matches Ok(t) && t@ == wire_text(
            ServerMsgView::Chat { from: from@, message: message@ },
        ),
{
    let f = match json_quote(from) {
        Ok(f) => f,
        Err(e) => { return Err(e); },
    };
    let m = match json_quote(message) {
        Ok(m) => m,
        Err(e) => { return Err(e); },
    };
    let mut text = String::from_str("{\"type\":\"chat\",\"from\":");
    text.append(f.as_str());
    text.append(",\"message\":");
    text.append(m.as_str());
    text.append("}");
    Ok(text)
}

/// Encodes a message of the lobby for the wire.
///
/// The result is the JSON object `{"type":"info","message":…}`,
/// `{"type":"error","message":…}` or `{"type":"chat","from":…,"message":…}`,
/// with each string written as a JSON string literal.  Encoding never fails.
pub fn encode_server_msg(msg: &ServerMsg) -> (r: Result<String, serde_json::Error>)
    ensures
        r matches Ok(t) && t@ == wire_text(msg@),
{
    match msg {
        ServerMsg::Info { message } => encode_notice("info", message.as_str()),
        ServerMsg::Error { message } => encode_notice("error", message.as_str()),
        ServerMsg::Chat { from, message } => encode_chat(from.as_str(), message.as_str()),
    }
}

/// The command held by the JSON object `value`: the member `type` names
/// it, and its field is a string member.  Other members are ignored.
pub open spec fn command_of(value: Value) -> Option<CommandView> {
    match json_text_member(value, "type"@) {
        None => None,
        Some(kind) => if kind == "register"@ {
            match json_text_member(value, "name"@) {
                Some(name) => Some(CommandView::Register { name }),
                None => None,
            }
        } else if kind == "say"@ {
            match json_text_member(value, "message"@) {
                Some(message) => Some(CommandView::Say { message }),
                None => None,
            }
        } else {
            None
        },
    }
}

/// The command that a frame with the text `text` carries, if it carries
/// one.
pub open spec fn decoded_command(text: Seq<char>) -> Option<CommandView> {
    match parsed_json(text) {
        Some(value) => command_of(value),
        None => None,
    }
}

/// Reads a command of the lobby out of a JSON value.
///
/// The value must be an object whose member `type` is `"register"`, with a
/// string member `name`, or `"say"`, with a string member `message`.
pub fn command_from_json(value: &Value) -> (r: Option<Command>)
    ensures
        match r {
            Some(command) => command_of(*value) == Some(command@),
            None => command_of(*value) is None,
        },
{
    let kind = match read_text_member(value, "type") {
        Some(kind) => kind,
        None => { return None; },
    };
    if kind == String::from_str("register") {
        match read_text_member(value, "name") {
            Some(name) => Some(Command::Register { name }),
            None => None,
        }
    } else if kind == String::from_str("say") {
        match read_text_member(value, "message") {
            Some(message) => Some(Command::Say { message }),
            None => None,
        }
    } else {
        None
    }
}

/// Decodes the text of a frame as a command of the lobby.
///
/// `None` is returned for a text that is not JSON or does not hold a
/// command.
pub fn decode_command(text: &str) -> (r: Option<Command>)
    ensures
        match r {
            Some(command) => decoded_command(text@) == Some(command@),
            None => decoded_command(text@) is None,
        },
{
    match parse_json(text) {
        Some(value) => command_from_json(&value),
        None => None,
    }
}

} // verus!
