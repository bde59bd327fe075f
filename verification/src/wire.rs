//! The wire form of commands and replies: one JSON object per message,
//! tagged by `type`.

use crate::json::{
    json_quote,
    json_string_text,
    json_text_member,
    parse_json,
    parsed_json,
    read_text_member,
};
use crate::protocol::{Command, CommandView, ServerMsg, ServerMsgView};
use serde_json::Value;
use vstd::prelude::*;
use vstd::string::StringExecFns;

verus! {

/// An object with the tag `kind` and the single member `message`.
pub open spec fn notice_wire(kind: Seq<char>, message: Seq<char>) -> Seq<char> {
    "{\"type\":\""@ + kind + "\",\"message\":"@ + message + "}"@
}

/// The `chat` object; every argument is an encoded string literal.
pub open spec fn chat_wire(conversation: Seq<char>, from: Seq<char>, message: Seq<char>) -> Seq<
    char,
> {
    "{\"type\":\"chat\",\"conversation\":"@ + conversation + ",\"from\":"@ + from
        + ",\"message\":"@ + message + "}"@
}

/// The text that goes on the wire for a reply.
pub open spec fn wire_text(msg: ServerMsgView) -> Seq<char> {
    match msg {
        ServerMsgView::Info { message } => notice_wire("info"@, json_string_text(message)),
        ServerMsgView::Error { message } => notice_wire("error"@, json_string_text(message)),
        ServerMsgView::Chat { conversation, from, message } => chat_wire(
            json_string_text(conversation),
            json_string_text(from),
            json_string_text(message),
        ),
    }
}

/// Encodes an object with the tag `kind` and the single member `message`.
pub(crate) fn encode_notice(kind: &str, message: &str) -> (r: Result<String, serde_json::Error>)
    ensures
        r matches Ok(t) && t@ == notice_wire(kind@, json_string_text(message@)),
{
    match json_quote(message) {
        Ok(quoted) => {
            let mut text = String::from_str("{\"type\":\"");
            text.append(kind);
            text.append("\",\"message\":");
            text.append(quoted.as_str());
            text.append("}");
            Ok(text)
        },
        Err(e) => Err(e),
    }
}

fn encode_chat(conversation: &str, from: &str, message: &str) -> (r: Result<
    String,
    serde_json::Error,
>)
    ensures
        r matches Ok(t) && t@ == wire_text(
            ServerMsgView::Chat { conversation: conversation@, from: from@, message: message@ },
        ),
{
    let c = match json_quote(conversation) {
        Ok(c) => c,
        Err(e) => { return Err(e); },
    };
    let f = match json_quote(from) {
        Ok(f) => f,
        Err(e) => { return Err(e); },
    };
    let m = match json_quote(message) {
        Ok(m) => m,
        Err(e) => { return Err(e); },
    };
    let mut text = String::from_str("{\"type\":\"chat\",\"conversation\":");
    text.append(c.as_str());
    text.append(",\"from\":");
    text.append(f.as_str());
    text.append(",\"message\":");
    text.append(m.as_str());
    text.append("}");
    Ok(text)
}

/// Encodes a reply for the wire.
///
/// The result is the JSON object `{"type":"info","message":…}`,
/// `{"type":"error","message":…}` or
/// `{"type":"chat","conversation":…,"from":…,"message":…}`, with each string
/// written as a JSON string literal.  Encoding never fails.
pub fn encode_server_msg(msg: &ServerMsg) -> (r: Result<String, serde_json::Error>)
    ensures
        r matches Ok(t) && t@ == wire_text(msg@),
{
    match msg {
        ServerMsg::Info { message } => encode_notice("info", message.as_str()),
        ServerMsg::Error { message } => encode_notice("error", message.as_str()),
        ServerMsg::Chat { conversation, from, message } => encode_chat(
            conversation.as_str(),
            from.as_str(),
            message.as_str(),
        ),
    }
}

/// The command held by the JSON object `value`: the member `type` names
/// it, and each of its fields is a string member.  Other members are
/// ignored.
pub open spec fn command_of(value: Value) -> Option<CommandView> {
    match json_text_member(value, "type"@) {
        None => None,
        Some(kind) => if kind == "authenticate"@ {
            match json_text_member(value, "token"@) {
                Some(token) => Some(CommandView::Authenticate { token }),
                None => None,
            }
        } else if kind == "create_conversation"@ {
            match json_text_member(value, "participant"@) {
                Some(participant) => Some(CommandView::CreateConversation { participant }),
                None => None,
            }
        } else if kind == "say"@ {
            match (
                json_text_member(value, "message"@),
                json_text_member(value, "conversation_id"@),
            ) {
                (Some(message), Some(conversation_id)) => Some(
                    CommandView::Say { message, conversation_id },
                ),
                _ => None,
            }
        } else {
            None
        },
    }
}

/// The command that a frame with the text `text` carries, if it carries
/// one.
pub open spec fn decoded_command(text: Seq<char>) -> Option<CommandView> {
    match parsed_json(text) {
        Some(value) => command_of(value),
        None => None,
    }
}

/// Reads a command out of a JSON value.
///
/// The value must be an object whose member `type` is `"authenticate"`,
/// `"create_conversation"` or `"say"`, with the string members that the
/// command needs: `token`; `participant`; `message` and `conversation_id`.
pub fn command_from_json(value: &Value) -> (r: Option<Command>)
    ensures
        match r {
            Some(command) => command_of(*value) == Some(command@),
            None => command_of(*value) is None,
        },
{
    let kind = match read_text_member(value, "type") {
        Some(kind) => kind,
        None => { return None; },
    };
    if kind == String::from_str("authenticate") {
        match read_text_member(value, "token") {
            Some(token) => Some(Command::Authenticate { token }),
            None => None,
        }
    } else if kind == String::from_str("create_conversation") {
        match read_text_member(value, "participant") {
            Some(participant) => Some(Command::CreateConversation { participant }),
            None => None,
        }
    } else if kind == String::from_str("say") {
        let message = read_text_member(value, "message");
        let conversation_id = read_text_member(value, "conversation_id");
        match (message, conversation_id) {
            (Some(message), Some(conversation_id)) => Some(
                Command::Say { message, conversation_id },
            ),
            _ => None,
        }
    } else {
        None
    }
}

/// Decodes the text of a frame as a command.
///
/// `None` is returned for a text that is not JSON or does not hold a
/// command.
pub fn decode_command(text: &str) -> (r: Option<Command>)
    ensures
        match r {
            Some(command) => decoded_command(text@) == Some(command@),
            None => decoded_command(text@) is None,
        },
{
    match parse_json(text) {
        Some(value) => command_from_json(&value),
        None => None,
    }
}

} // verus!
