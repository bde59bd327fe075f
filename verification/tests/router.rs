use chat_relay::commands::authenticate::{
    authenticate_with, handle_authenticate_command, AuthenticateError,
};
use chat_relay::commands::create_conversation::{
    create_conversation, create_conversation_with, fresh_conversation_id,
    handle_create_conversation_command, insert_conversation, CreateConversationError,
};
use chat_relay::commands::say::{handle_say_command, message_is_valid, say_with, SayError};
use chat_relay::ids::id_text;
use chat_relay::conversation::Conversation;
use chat_relay::handlers::connected::handle_connected_event;
use chat_relay::handlers::disconnected::handle_disconnected_event;
use chat_relay::handlers::received::{
    authenticate_reply, create_conversation_reply, handle_received_event, say_error_reply,
};
use chat_relay::protocol::{Claims, Command, Event, ServerMsg, UserInfo};
use chat_relay::router::handle_event;
use chat_relay::send::{push_outcome, send_server_msg, SendServerMsgError};
use tokio::sync::mpsc::error::SendError;
use chat_relay::state::{chat_message, RouterState};
use chat_relay::token::{claims_from_json, user_info_from_json};
use chat_relay::wire::encode_server_msg;
use jsonwebtoken::{encode, DecodingKey, EncodingKey, Header};
use serde_json::Value;
use tokio::sync::mpsc::{unbounded_channel, UnboundedReceiver, UnboundedSender};
use tokio_tungstenite::tungstenite::Message;
use uuid::Uuid;

const SECRET: &[u8] = b"a shared secret";
const FAR_FUTURE: u64 = 4_102_444_800;
const LONG_AGO: u64 = 1_000_000_000;

const ALICE: &str = "a1a2a3a4-b1b2-41c2-91d2-d3d4d5d6d7d8";
const BOB: &str = "0b0b0b0b-0000-4000-8000-00000000000b";
const DAVE: &str = "0d0d0d0d-0000-4000-8000-00000000000d";

fn id(text: &str) -> u128 {
    Uuid::parse_str(text).unwrap().as_u128()
}

fn new_state() -> RouterState {
    RouterState::new(DecodingKey::from_secret(SECRET))
}

fn channel() -> (UnboundedSender<Message>, UnboundedReceiver<Message>) {
    unbounded_channel::<Message>()
}

fn drain(rx: &mut UnboundedReceiver<Message>) -> Vec<String> {
    let mut seen = Vec::new();
    while let Ok(message) = rx.try_recv() {
        seen.push(message.to_text().unwrap().to_string());
    }
    seen
}

fn user_json(user: &str) -> Value {
    let mut object = serde_json::Map::new();
    object.insert("id".to_string(), Value::String(user.to_string()));
    object.insert("username".to_string(), Value::String("someone".to_string()));
    object.insert("created_at".to_string(), Value::from(1_700_000_000i64));
    object.insert("updated_at".to_string(), Value::from(1_700_000_500i64));
    Value::Object(object)
}

fn claims_json(user: &str, exp: u64) -> Value {
    let mut object = serde_json::Map::new();
    object.insert("sub".to_string(), Value::String(user.to_string()));
    object.insert("user".to_string(), user_json(user));
    object.insert("exp".to_string(), Value::from(exp));
    object.insert("iat".to_string(), Value::from(1_700_000_000u64));
    Value::Object(object)
}

fn sign(claims: &Value, secret: &[u8]) -> String {
    encode(&Header::default(), claims, &EncodingKey::from_secret(secret)).unwrap()
}

fn token_for(user: &str) -> String {
    sign(&claims_json(user, FAR_FUTURE), SECRET)
}

fn claims_of(user: &str) -> Claims {
    Claims {
        sub: user.to_string(),
        user: UserInfo {
            id: id(user),
            username: "someone".to_string(),
            created_at: 1_700_000_000,
            updated_at: 1_700_000_500,
        },
        exp: FAR_FUTURE,
        iat: 1_700_000_000,
    }
}

/// Connects `client_id` and authenticates it as `user`; the greeting and the
/// confirmation are taken out of the queue.
fn join(state: &mut RouterState, client_id: u64, user: &str) -> UnboundedReceiver<Message> {
    let (tx, mut rx) = channel();
    handle_connected_event(state, client_id, tx);
    handle_received_event(state, client_id, Command::Authenticate { token: token_for(user) });
    let seen = drain(&mut rx);
    assert_eq!(seen.len(), 2);
    rx
}

fn say(message: &str, conversation: &str) -> Command {
    Command::Say { message: message.to_string(), conversation_id: conversation.to_string() }
}

fn error_json(text: &str) -> String {
    format!("{{\"type\":\"error\",\"message\":\"{}\"}}", text)
}

fn info_json(text: &str) -> String {
    format!("{{\"type\":\"info\",\"message\":\"{}\"}}", text)
}

fn chat_json(conversation: &str, from: &str, text: &str) -> String {
    format!(
        "{{\"type\":\"chat\",\"conversation\":\"{}\",\"from\":\"{}\",\"message\":\"{}\"}}",
        conversation, from, text
    )
}

#[test]
fn new_state_is_empty() {
    let state = new_state();
    assert!(state.connections.is_empty());
    assert!(state.connection_to_user.is_empty());
    assert!(state.conversations.is_empty());
}

#[test]
fn connected_greets_and_registers() {
    let mut state = new_state();
    let (tx, mut rx) = channel();
    handle_connected_event(&mut state, 7, tx);
    assert!(state.connections.contains_key(&7));
    assert_eq!(state.connections.len(), 1);
    assert_eq!(drain(&mut rx), vec![info_json("Welcome!")]);
}

#[test]
fn connected_with_dead_queue_is_not_registered() {
    let mut state = new_state();
    let (tx, rx) = channel();
    drop(rx);
    handle_connected_event(&mut state, 7, tx);
    assert!(state.connections.is_empty());
}

#[test]
fn disconnected_removes_connection_and_session() {
    let mut state = new_state();
    let _rx = join(&mut state, 1, ALICE);
    assert!(state.connection_to_user.contains_key(&1));
    handle_disconnected_event(&mut state, 1);
    assert!(!state.connections.contains_key(&1));
    assert!(!state.connection_to_user.contains_key(&1));
}

#[test]
fn disconnect_client_leaves_others_alone() {
    let mut state = new_state();
    let _a = join(&mut state, 1, ALICE);
    let _b = join(&mut state, 2, BOB);
    state.disconnect_client(1);
    assert!(!state.connections.contains_key(&1));
    assert_eq!(state.connection_to_user.get(&2), Some(&id(BOB)));
    assert!(state.connections.contains_key(&2));
}

#[test]
fn authenticate_binds_user_of_token() {
    let mut state = new_state();
    let outcome = handle_authenticate_command(&mut state, 3, &token_for(ALICE));
    assert_eq!(outcome, Ok(ALICE.to_string()));
    assert_eq!(state.connection_to_user.get(&3), Some(&id(ALICE)));
    assert_eq!(state.connection_to_user.len(), 1);
}

#[test]
fn authenticate_twice_is_refused_and_keeps_binding() {
    let mut state = new_state();
    assert!(handle_authenticate_command(&mut state, 3, &token_for(ALICE)).is_ok());
    let again = handle_authenticate_command(&mut state, 3, &token_for(BOB));
    assert_eq!(again, Err(AuthenticateError::AlreadyAuthenticated));
    assert_eq!(state.connection_to_user.get(&3), Some(&id(ALICE)));
    assert_eq!(state.connection_to_user.len(), 1);
}

#[test]
fn authenticate_twice_does_not_look_at_the_token() {
    let mut state = new_state();
    assert!(handle_authenticate_command(&mut state, 3, &token_for(ALICE)).is_ok());
    let again = handle_authenticate_command(&mut state, 3, "not a token at all");
    assert_eq!(again, Err(AuthenticateError::AlreadyAuthenticated));
}

#[test]
fn authenticate_rejects_garbage() {
    let mut state = new_state();
    let outcome = handle_authenticate_command(&mut state, 3, "not.a.token");
    assert_eq!(outcome, Err(AuthenticateError::InvalidToken));
    assert!(state.connection_to_user.is_empty());
}

#[test]
fn authenticate_rejects_wrong_secret() {
    let mut state = new_state();
    let forged = sign(&claims_json(ALICE, FAR_FUTURE), b"another secret");
    let outcome = handle_authenticate_command(&mut state, 3, &forged);
    assert_eq!(outcome, Err(AuthenticateError::InvalidToken));
    assert!(state.connection_to_user.is_empty());
}

#[test]
fn authenticate_rejects_expired_token() {
    let mut state = new_state();
    let stale = sign(&claims_json(ALICE, LONG_AGO), SECRET);
    let outcome = handle_authenticate_command(&mut state, 3, &stale);
    assert_eq!(outcome, Err(AuthenticateError::InvalidToken));
    assert!(state.connection_to_user.is_empty());
}

#[test]
fn authenticate_rejects_token_without_user() {
    let mut state = new_state();
    let mut object = serde_json::Map::new();
    object.insert("sub".to_string(), Value::String(ALICE.to_string()));
    object.insert("exp".to_string(), Value::from(FAR_FUTURE));
    object.insert("iat".to_string(), Value::from(1_700_000_000u64));
    let token = sign(&Value::Object(object), SECRET);
    let outcome = handle_authenticate_command(&mut state, 3, &token);
    assert_eq!(outcome, Err(AuthenticateError::InvalidToken));
}

#[test]
fn authenticate_may_retry_after_failure() {
    let mut state = new_state();
    assert!(handle_authenticate_command(&mut state, 3, "bad").is_err());
    assert_eq!(handle_authenticate_command(&mut state, 3, &token_for(BOB)), Ok(BOB.to_string()));
}

#[test]
fn authenticate_with_claims_binds() {
    let mut state = new_state();
    let outcome = authenticate_with(&mut state, 9, Some(claims_of(BOB)));
    assert_eq!(outcome, Ok(BOB.to_string()));
    assert_eq!(state.connection_to_user.get(&9), Some(&id(BOB)));
}

#[test]
fn authenticate_with_nothing_fails() {
    let mut state = new_state();
    assert_eq!(authenticate_with(&mut state, 9, None), Err(AuthenticateError::InvalidToken));
    assert!(state.connection_to_user.is_empty());
}

#[test]
fn authenticate_with_claims_keeps_existing_session() {
    let mut state = new_state();
    assert!(authenticate_with(&mut state, 9, Some(claims_of(BOB))).is_ok());
    let again = authenticate_with(&mut state, 9, Some(claims_of(ALICE)));
    assert_eq!(again, Err(AuthenticateError::AlreadyAuthenticated));
    assert_eq!(state.connection_to_user.get(&9), Some(&id(BOB)));
}

#[test]
fn claims_are_read_from_json() {
    let claims = claims_from_json(&claims_json(ALICE, FAR_FUTURE));
    assert_eq!(claims, Some(claims_of(ALICE)));
}

#[test]
fn claims_need_every_member() {
    for missing in ["sub", "user", "exp", "iat"] {
        let mut value = claims_json(ALICE, FAR_FUTURE);
        value.as_object_mut().unwrap().remove(missing);
        assert_eq!(claims_from_json(&value), None);
    }
}

#[test]
fn claims_ignore_other_members() {
    let mut value = claims_json(ALICE, FAR_FUTURE);
    value.as_object_mut().unwrap().insert("aud".to_string(), Value::from(1u64));
    assert_eq!(claims_from_json(&value), Some(claims_of(ALICE)));
}

#[test]
fn claims_need_well_typed_members() {
    let mut value = claims_json(ALICE, FAR_FUTURE);
    value.as_object_mut().unwrap().insert("exp".to_string(), Value::String("soon".to_string()));
    assert_eq!(claims_from_json(&value), None);
    let mut value = claims_json(ALICE, FAR_FUTURE);
    value.as_object_mut().unwrap().insert("sub".to_string(), Value::from(5u64));
    assert_eq!(claims_from_json(&value), None);
    assert_eq!(claims_from_json(&Value::Null), None);
    assert_eq!(claims_from_json(&Value::String("claims".to_string())), None);
}

#[test]
fn user_info_is_read_from_json() {
    let user = user_info_from_json(&user_json(BOB));
    assert_eq!(user, Some(claims_of(BOB).user));
}

#[test]
fn user_info_needs_a_uuid_and_timestamps() {
    let mut value = user_json(BOB);
    value.as_object_mut().unwrap().insert("id".to_string(), Value::String("bob".to_string()));
    assert_eq!(user_info_from_json(&value), None);
    let mut value = user_json(BOB);
    value.as_object_mut().unwrap().insert("created_at".to_string(), Value::String("now".into()));
    assert_eq!(user_info_from_json(&value), None);
    let mut value = user_json(BOB);
    value.as_object_mut().unwrap().remove("username");
    assert_eq!(user_info_from_json(&value), None);
    let mut value = user_json(BOB);
    value.as_object_mut().unwrap().insert("updated_at".to_string(), Value::from(-5i64));
    assert_eq!(user_info_from_json(&value).map(|u| u.updated_at), Some(-5));
}

#[test]
fn say_with_257_characters_is_invalid() {
    let mut state = new_state();
    assert!(authenticate_with(&mut state, 1, Some(claims_of(ALICE))).is_ok());
    let conversation = handle_create_conversation_command(&mut state, vec![id(ALICE), id(BOB)]);
    let text = Uuid::from_u128(conversation).to_string();
    let long = "x".repeat(257);
    assert_eq!(handle_say_command(&mut state, 1, &text, &long), Err(SayError::InvalidMessage));
}

#[test]
fn say_with_256_characters_is_accepted() {
    let mut state = new_state();
    assert!(authenticate_with(&mut state, 1, Some(claims_of(ALICE))).is_ok());
    let conversation = handle_create_conversation_command(&mut state, vec![id(ALICE), id(BOB)]);
    let text = Uuid::from_u128(conversation).to_string();
    let full = "x".repeat(256);
    assert_eq!(handle_say_command(&mut state, 1, &text, &full), Ok(conversation));
}

#[test]
fn say_with_non_ascii_is_invalid() {
    let mut state = new_state();
    assert!(authenticate_with(&mut state, 1, Some(claims_of(ALICE))).is_ok());
    let conversation = handle_create_conversation_command(&mut state, vec![id(ALICE), id(BOB)]);
    let text = Uuid::from_u128(conversation).to_string();
    assert_eq!(handle_say_command(&mut state, 1, &text, "caf\u{e9}"), Err(SayError::InvalidMessage));
    assert_eq!(handle_say_command(&mut state, 1, &text, "\u{e9}"), Err(SayError::InvalidMessage));
    let long = format!("{}\u{e9}", "x".repeat(300));
    assert_eq!(handle_say_command(&mut state, 1, &text, &long), Err(SayError::InvalidMessage));
}

#[test]
fn say_with_empty_message_is_invalid() {
    let mut state = new_state();
    assert!(authenticate_with(&mut state, 1, Some(claims_of(ALICE))).is_ok());
    assert_eq!(handle_say_command(&mut state, 1, BOB, ""), Err(SayError::InvalidMessage));
}

#[test]
fn message_validity_bounds() {
    assert!(!message_is_valid(""));
    assert!(message_is_valid("a"));
    assert!(message_is_valid(&"a".repeat(256)));
    assert!(!message_is_valid(&"a".repeat(257)));
    assert!(message_is_valid("\u{7f}"));
    assert!(!message_is_valid("\u{80}"));
    assert!(!message_is_valid(&"\u{e9}".repeat(100)));
}

#[test]
fn say_without_session_is_unauthenticated() {
    let mut state = new_state();
    assert_eq!(handle_say_command(&mut state, 1, BOB, "hi"), Err(SayError::Unauthenticated));
    assert_eq!(handle_say_command(&mut state, 1, "junk", ""), Err(SayError::Unauthenticated));
}

#[test]
fn say_with_malformed_conversation_is_invalid_conversation() {
    let mut state = new_state();
    assert!(authenticate_with(&mut state, 1, Some(claims_of(ALICE))).is_ok());
    assert_eq!(
        handle_say_command(&mut state, 1, "not-a-uuid", "hi"),
        Err(SayError::InvalidConversation)
    );
}

#[test]
fn say_in_unknown_conversation_does_not_exist() {
    let mut state = new_state();
    assert!(authenticate_with(&mut state, 1, Some(claims_of(ALICE))).is_ok());
    assert_eq!(
        handle_say_command(&mut state, 1, DAVE, "hi"),
        Err(SayError::ConversationDoesntExist)
    );
}

#[test]
fn say_by_outsider_is_not_involved() {
    let mut state = new_state();
    assert!(authenticate_with(&mut state, 1, Some(claims_of(DAVE))).is_ok());
    let conversation = handle_create_conversation_command(&mut state, vec![id(ALICE), id(BOB)]);
    let text = Uuid::from_u128(conversation).to_string();
    assert_eq!(handle_say_command(&mut state, 1, &text, "hi"), Err(SayError::NotInvolved));
}

#[test]
fn say_checks_message_before_conversation() {
    let mut state = new_state();
    assert!(authenticate_with(&mut state, 1, Some(claims_of(ALICE))).is_ok());
    assert_eq!(handle_say_command(&mut state, 1, "junk", ""), Err(SayError::InvalidMessage));
}

#[test]
fn say_accepts_other_spellings_of_the_identifier() {
    let mut state = new_state();
    assert!(authenticate_with(&mut state, 1, Some(claims_of(ALICE))).is_ok());
    let conversation = handle_create_conversation_command(&mut state, vec![id(ALICE), id(BOB)]);
    let simple = Uuid::from_u128(conversation).simple().to_string().to_uppercase();
    assert_eq!(handle_say_command(&mut state, 1, &simple, "hi"), Ok(conversation));
}

#[test]
fn say_leaves_state_alone() {
    let mut state = new_state();
    let _a = join(&mut state, 1, ALICE);
    let conversation = handle_create_conversation_command(&mut state, vec![id(ALICE), id(BOB)]);
    let text = Uuid::from_u128(conversation).to_string();
    assert!(handle_say_command(&mut state, 1, &text, "hi").is_ok());
    assert_eq!(state.connections.len(), 1);
    assert_eq!(state.connection_to_user.len(), 1);
    assert_eq!(state.conversations.len(), 1);
}

#[test]
fn create_conversation_with_self_is_refused() {
    let mut state = new_state();
    assert!(authenticate_with(&mut state, 1, Some(claims_of(ALICE))).is_ok());
    let outcome = create_conversation(&mut state, 1, ALICE);
    assert_eq!(outcome, Err(CreateConversationError::SelfConversation));
    assert_eq!(state.conversations.len(), 0);
}

#[test]
fn create_conversation_with_self_keeps_registry_size() {
    let mut state = new_state();
    assert!(authenticate_with(&mut state, 1, Some(claims_of(ALICE))).is_ok());
    assert!(create_conversation(&mut state, 1, BOB).is_ok());
    assert!(create_conversation(&mut state, 1, DAVE).is_ok());
    let upper = ALICE.to_uppercase();
    let outcome = create_conversation(&mut state, 1, &upper);
    assert_eq!(outcome, Err(CreateConversationError::SelfConversation));
    assert_eq!(state.conversations.len(), 2);
}

#[test]
fn create_conversation_needs_session() {
    let mut state = new_state();
    let outcome = create_conversation(&mut state, 1, BOB);
    assert_eq!(outcome, Err(CreateConversationError::Unauthenticated));
    assert_eq!(create_conversation(&mut state, 1, "junk"), Err(CreateConversationError::Unauthenticated));
    assert!(state.conversations.is_empty());
}

#[test]
fn create_conversation_needs_well_formed_participant() {
    let mut state = new_state();
    assert!(authenticate_with(&mut state, 1, Some(claims_of(ALICE))).is_ok());
    let outcome = create_conversation(&mut state, 1, "bob");
    assert_eq!(outcome, Err(CreateConversationError::InvalidParticipant));
    assert!(state.conversations.is_empty());
}

#[test]
fn create_conversation_registers_caller_and_peer() {
    let mut state = new_state();
    assert!(authenticate_with(&mut state, 1, Some(claims_of(ALICE))).is_ok());
    let conversation = create_conversation(&mut state, 1, BOB).unwrap();
    let stored = state.conversations.get(&conversation).unwrap();
    assert_eq!(stored.id, conversation);
    assert_eq!(stored.participants, vec![id(ALICE), id(BOB)]);
    assert_eq!(state.conversations.len(), 1);
}

#[test]
fn create_conversation_does_not_deduplicate() {
    let mut state = new_state();
    assert!(authenticate_with(&mut state, 1, Some(claims_of(ALICE))).is_ok());
    let first = create_conversation(&mut state, 1, BOB).unwrap();
    let second = create_conversation(&mut state, 1, BOB).unwrap();
    assert_ne!(first, second);
    assert_eq!(state.conversations.len(), 2);
}

#[test]
fn create_conversation_command_returns_fresh_random_id() {
    let mut state = new_state();
    let conversation = handle_create_conversation_command(&mut state, vec![id(ALICE), id(BOB)]);
    let uuid = Uuid::from_u128(conversation);
    assert_eq!(uuid.get_version_num(), 4);
    assert_eq!(conversation & 0xF000_C000_0000_0000_0000, 0x4000_8000_0000_0000_0000);
    assert_eq!(state.conversations.get(&conversation).unwrap().participants.len(), 2);
}

#[test]
fn conversation_new_keeps_participants() {
    let conversation = Conversation::new(vec![id(ALICE), id(BOB)]);
    assert_eq!(conversation.participants, vec![id(ALICE), id(BOB)]);
    assert_eq!(Uuid::from_u128(conversation.id).get_version_num(), 4);
    assert!(conversation.involves(id(ALICE)));
    assert!(conversation.involves(id(BOB)));
    assert!(!conversation.involves(id(DAVE)));
    assert!(!Conversation::new(vec![]).involves(id(ALICE)));
}

#[test]
fn fan_out_reaches_members_and_nobody_else() {
    let mut state = new_state();
    let mut a = join(&mut state, 1, ALICE);
    let mut b = join(&mut state, 2, BOB);
    let mut d = join(&mut state, 3, DAVE);
    let conversation = create_conversation(&mut state, 1, BOB).unwrap();
    let text = Uuid::from_u128(conversation).to_string();
    handle_received_event(&mut state, 1, say("hello", &text));
    let expected = chat_json(&text, ALICE, "hello");
    assert_eq!(drain(&mut a), vec![expected.clone()]);
    assert_eq!(drain(&mut b), vec![expected]);
    assert!(drain(&mut d).is_empty());
    assert_eq!(state.connections.len(), 3);
}

#[test]
fn fan_out_recipients_are_the_connected_members() {
    let mut state = new_state();
    let _a = join(&mut state, 1, ALICE);
    let _a2 = join(&mut state, 4, ALICE);
    let _b = join(&mut state, 2, BOB);
    let _d = join(&mut state, 3, DAVE);
    assert!(authenticate_with(&mut state, 99, Some(claims_of(BOB))).is_ok());
    let conversation = create_conversation(&mut state, 1, BOB).unwrap();
    let mut ids: Vec<u64> =
        state.fan_out_recipients(conversation).into_iter().map(|r| r.0).collect();
    ids.sort();
    assert_eq!(ids, vec![1, 2, 4]);
    assert!(state.fan_out_recipients(id(DAVE)).is_empty());
}

#[test]
fn fan_out_serves_every_connection_of_a_member() {
    let mut state = new_state();
    let mut a1 = join(&mut state, 1, ALICE);
    let mut a2 = join(&mut state, 2, ALICE);
    let mut b = join(&mut state, 3, BOB);
    let conversation = create_conversation(&mut state, 3, ALICE).unwrap();
    assert!(drain(&mut b).is_empty());
    let text = Uuid::from_u128(conversation).to_string();
    handle_received_event(&mut state, 3, say("ping", &text));
    let expected = chat_json(&text, BOB, "ping");
    assert_eq!(drain(&mut a1), vec![expected.clone()]);
    assert_eq!(drain(&mut a2), vec![expected.clone()]);
    assert_eq!(drain(&mut b), vec![expected]);
}

#[test]
fn fan_out_evicts_dead_recipient_and_serves_the_rest() {
    let mut state = new_state();
    let mut a = join(&mut state, 1, ALICE);
    let b = join(&mut state, 2, BOB);
    let conversation = create_conversation(&mut state, 1, BOB).unwrap();
    drop(b);
    let text = Uuid::from_u128(conversation).to_string();
    handle_received_event(&mut state, 1, say("still there?", &text));
    assert_eq!(drain(&mut a), vec![chat_json(&text, ALICE, "still there?")]);
    assert!(!state.connections.contains_key(&2));
    assert!(!state.connection_to_user.contains_key(&2));
    assert!(state.connections.contains_key(&1));
    assert_eq!(state.connection_to_user.get(&1), Some(&id(ALICE)));
    assert_eq!(state.conversations.get(&conversation).unwrap().participants.len(), 2);
}

#[test]
fn send_to_conversation_without_sender_session_does_nothing() {
    let mut state = new_state();
    let mut a = join(&mut state, 1, ALICE);
    let conversation = handle_create_conversation_command(&mut state, vec![id(ALICE), id(BOB)]);
    state.send_server_msg_to_conversation(conversation, 55, "hi");
    assert!(drain(&mut a).is_empty());
    state.send_server_msg_to_conversation(id(DAVE), 1, "hi");
    assert!(drain(&mut a).is_empty());
}

#[test]
fn commands_after_disconnect_are_ignored() {
    let mut state = new_state();
    let mut a = join(&mut state, 1, ALICE);
    let mut b = join(&mut state, 2, BOB);
    let conversation = create_conversation(&mut state, 1, BOB).unwrap();
    let text = Uuid::from_u128(conversation).to_string();
    assert_eq!(drain(&mut a).len(), 0);
    handle_event(&mut state, Event::Disconnected { client_id: 1 });
    handle_received_event(&mut state, 1, say("anyone?", &text));
    handle_received_event(&mut state, 1, Command::CreateConversation { participant: BOB.into() });
    assert!(drain(&mut a).is_empty());
    assert!(drain(&mut b).is_empty());
    assert_eq!(handle_say_command(&mut state, 1, &text, "anyone?"), Err(SayError::Unauthenticated));
    assert_eq!(
        create_conversation(&mut state, 1, BOB),
        Err(CreateConversationError::Unauthenticated)
    );
    assert_eq!(state.conversations.len(), 1);
    assert_eq!(state.conversations.get(&conversation).unwrap().participants.len(), 2);
}

#[test]
fn received_from_unregistered_connection_is_ignored() {
    let mut state = new_state();
    handle_received_event(&mut state, 5, Command::Authenticate { token: token_for(ALICE) });
    assert!(state.connection_to_user.is_empty());
    assert!(state.connections.is_empty());
}

#[test]
fn reauthentication_is_answered_and_changes_nothing() {
    let mut state = new_state();
    let mut a = join(&mut state, 1, ALICE);
    handle_received_event(&mut state, 1, Command::Authenticate { token: token_for(BOB) });
    assert_eq!(drain(&mut a), vec![error_json("REAUTH FORBIDDEN")]);
    assert_eq!(state.connection_to_user.get(&1), Some(&id(ALICE)));
}

#[test]
fn failed_authentication_is_answered() {
    let mut state = new_state();
    let (tx, mut rx) = channel();
    handle_connected_event(&mut state, 1, tx);
    handle_received_event(&mut state, 1, Command::Authenticate { token: "nope".to_string() });
    assert_eq!(drain(&mut rx), vec![info_json("Welcome!"), error_json("AUTH FAILED")]);
    assert!(state.connection_to_user.is_empty());
}

#[test]
fn reply_to_dead_connection_evicts_it() {
    let mut state = new_state();
    let a = join(&mut state, 1, ALICE);
    drop(a);
    handle_received_event(&mut state, 1, say("", "junk"));
    assert!(!state.connections.contains_key(&1));
    assert!(!state.connection_to_user.contains_key(&1));
}

#[test]
fn end_to_end() {
    let mut state = new_state();
    let (tx_a, mut a) = channel();
    let (tx_b, mut b) = channel();
    handle_event(&mut state, Event::Connected { client_id: 1, out_tx: tx_a });
    handle_event(&mut state, Event::Connected { client_id: 2, out_tx: tx_b });
    assert_eq!(drain(&mut a), vec![info_json("Welcome!")]);
    assert_eq!(drain(&mut b), vec![info_json("Welcome!")]);

    handle_event(&mut state, Event::Received { client_id: 1, command: say("hi", BOB) });
    assert_eq!(drain(&mut a), vec![error_json("You must authenticate first")]);

    let token = token_for(ALICE);
    handle_event(
        &mut state,
        Event::Received { client_id: 1, command: Command::Authenticate { token } },
    );
    assert_eq!(drain(&mut a), vec![info_json(&format!("AUTH OK {}", ALICE))]);
    let token = token_for(BOB);
    handle_event(
        &mut state,
        Event::Received { client_id: 2, command: Command::Authenticate { token } },
    );
    assert_eq!(drain(&mut b), vec![info_json(&format!("AUTH OK {}", BOB))]);

    handle_event(
        &mut state,
        Event::Received {
            client_id: 1,
            command: Command::CreateConversation { participant: BOB.to_string() },
        },
    );
    let replies = drain(&mut a);
    assert_eq!(replies.len(), 1);
    assert_eq!(state.conversations.len(), 1);
    let conversation = *state.conversations.keys().next().unwrap();
    let text = Uuid::from_u128(conversation).to_string();
    assert_eq!(replies[0], info_json(&format!("Created conversation: {}", text)));

    handle_event(&mut state, Event::Received { client_id: 1, command: say("hello bob", &text) });
    let expected = chat_json(&text, ALICE, "hello bob");
    assert_eq!(drain(&mut a), vec![expected.clone()]);
    assert_eq!(drain(&mut b), vec![expected]);
}

#[test]
fn create_conversation_errors_are_answered() {
    let mut state = new_state();
    let (tx, mut rx) = channel();
    handle_connected_event(&mut state, 1, tx);
    assert_eq!(drain(&mut rx).len(), 1);
    handle_received_event(&mut state, 1, Command::CreateConversation { participant: BOB.into() });
    assert_eq!(drain(&mut rx), vec![error_json("You must authenticate first")]);
    handle_received_event(&mut state, 1, Command::Authenticate { token: token_for(ALICE) });
    assert_eq!(drain(&mut rx).len(), 1);
    handle_received_event(&mut state, 1, Command::CreateConversation { participant: "x".into() });
    assert_eq!(drain(&mut rx), vec![error_json("Failed to parse participant ID")]);
    handle_received_event(&mut state, 1, Command::CreateConversation { participant: ALICE.into() });
    assert_eq!(drain(&mut rx), vec![error_json("You cannot create a conversation with yourself")]);
    assert!(state.conversations.is_empty());
}

#[test]
fn say_errors_are_answered() {
    let mut state = new_state();
    let mut a = join(&mut state, 1, ALICE);
    handle_received_event(&mut state, 1, say("", BOB));
    assert_eq!(drain(&mut a), vec![error_json("Invalid message")]);
    handle_received_event(&mut state, 1, say("hi", "junk"));
    assert_eq!(drain(&mut a), vec![error_json("Conversation ID is invalid")]);
    handle_received_event(&mut state, 1, say("hi", BOB));
    assert_eq!(drain(&mut a), vec![error_json("Conversation doesn't exist")]);
    let conversation = handle_create_conversation_command(&mut state, vec![id(BOB), id(DAVE)]);
    let text = Uuid::from_u128(conversation).to_string();
    handle_received_event(&mut state, 1, say("hi", &text));
    assert_eq!(drain(&mut a), vec![error_json("You are not in this conversation")]);
}

#[test]
fn replies_are_built_from_outcomes() {
    assert_eq!(
        authenticate_reply(Ok("someone".to_string())),
        ServerMsg::Info { message: "AUTH OK someone".to_string() }
    );
    assert_eq!(
        authenticate_reply(Err(AuthenticateError::InvalidToken)),
        ServerMsg::Error { message: "AUTH FAILED".to_string() }
    );
    assert_eq!(
        authenticate_reply(Err(AuthenticateError::AlreadyAuthenticated)),
        ServerMsg::Error { message: "REAUTH FORBIDDEN".to_string() }
    );
    assert_eq!(
        create_conversation_reply(Ok(id(BOB))),
        ServerMsg::Info { message: format!("Created conversation: {}", BOB) }
    );
    assert_eq!(
        create_conversation_reply(Err(CreateConversationError::InvalidParticipant)),
        ServerMsg::Error { message: "Failed to parse participant ID".to_string() }
    );
    assert_eq!(
        say_error_reply(SayError::NotInvolved),
        ServerMsg::Error { message: "You are not in this conversation".to_string() }
    );
    assert_eq!(
        say_error_reply(SayError::Unauthenticated),
        ServerMsg::Error { message: "You must authenticate first".to_string() }
    );
}

#[test]
fn chat_message_names_conversation_and_sender() {
    assert_eq!(
        chat_message(id(DAVE), id(ALICE), "hi"),
        ServerMsg::Chat {
            conversation: DAVE.to_string(),
            from: ALICE.to_string(),
            message: "hi".to_string()
        }
    );
}

#[test]
fn wire_form_of_info() {
    let msg = ServerMsg::Info { message: "Welcome!".to_string() };
    assert_eq!(encode_server_msg(&msg).unwrap(), "{\"type\":\"info\",\"message\":\"Welcome!\"}");
}

#[test]
fn wire_form_of_error() {
    let msg = ServerMsg::Error { message: "AUTH FAILED".to_string() };
    assert_eq!(
        encode_server_msg(&msg).unwrap(),
        "{\"type\":\"error\",\"message\":\"AUTH FAILED\"}"
    );
}

#[test]
fn wire_form_of_chat() {
    let msg = ServerMsg::Chat {
        conversation: "c".to_string(),
        from: "f".to_string(),
        message: "m".to_string(),
    };
    assert_eq!(
        encode_server_msg(&msg).unwrap(),
        "{\"type\":\"chat\",\"conversation\":\"c\",\"from\":\"f\",\"message\":\"m\"}"
    );
}

#[test]
fn wire_form_escapes_strings() {
    let msg = ServerMsg::Info { message: "say \"hi\"\\\n\t\u{1}".to_string() };
    let text = encode_server_msg(&msg).unwrap();
    assert_eq!(text, "{\"type\":\"info\",\"message\":\"say \\\"hi\\\"\\\\\\n\\t\\u0001\"}");
    let parsed: Value = serde_json::from_str(&text).unwrap();
    assert_eq!(parsed.get("type"), Some(&Value::String("info".to_string())));
    assert_eq!(parsed.get("message"), Some(&Value::String("say \"hi\"\\\n\t\u{1}".to_string())));
}

#[test]
fn send_server_msg_delivers_or_reports_dead_queue() {
    let (tx, mut rx) = channel();
    let msg = ServerMsg::Info { message: "one".to_string() };
    assert!(send_server_msg(&tx, &msg).is_ok());
    assert_eq!(drain(&mut rx), vec![info_json("one")]);
    drop(rx);
    assert!(matches!(send_server_msg(&tx, &msg), Err(SendServerMsgError::ClientError)));
}

#[test]
fn send_or_disconnect_keeps_live_and_evicts_dead() {
    let mut state = new_state();
    let mut a = join(&mut state, 1, ALICE);
    let (tx_live, mut live) = channel();
    let msg = ServerMsg::Info { message: "x".to_string() };
    state.send_or_disconnect_server_msg(1, &tx_live, &msg);
    assert_eq!(drain(&mut live), vec![info_json("x")]);
    assert!(state.connections.contains_key(&1));
    let (tx_dead, dead) = channel();
    drop(dead);
    state.send_or_disconnect_server_msg(1, &tx_dead, &msg);
    assert!(!state.connections.contains_key(&1));
    assert!(!state.connection_to_user.contains_key(&1));
    assert!(drain(&mut a).is_empty());
}

#[test]
fn apply_send_outcome_evicts_only_on_client_error() {
    let mut state = new_state();
    let _a = join(&mut state, 1, ALICE);
    state.apply_send_outcome(1, Ok(()));
    assert!(state.connections.contains_key(&1));
    let broken = serde_json::from_str::<Value>("{").unwrap_err();
    state.apply_send_outcome(1, Err(SendServerMsgError::SerializationError { error: broken }));
    assert!(state.connections.contains_key(&1));
    assert!(state.connection_to_user.contains_key(&1));
    state.apply_send_outcome(1, Err(SendServerMsgError::ClientError));
    assert!(!state.connections.contains_key(&1));
    assert!(!state.connection_to_user.contains_key(&1));
}

#[test]
fn deliver_to_each_serves_in_order_and_evicts_dead() {
    let mut state = new_state();
    let mut a = join(&mut state, 1, ALICE);
    let b = join(&mut state, 2, BOB);
    let mut d = join(&mut state, 3, DAVE);
    drop(b);
    let recipients: Vec<(u64, UnboundedSender<Message>)> = vec![
        (2, state.connections.get(&2).unwrap().clone()),
        (1, state.connections.get(&1).unwrap().clone()),
    ];
    let msg = ServerMsg::Info { message: "x".to_string() };
    state.deliver_to_each(&recipients, &msg);
    assert_eq!(drain(&mut a), vec![info_json("x")]);
    assert!(drain(&mut d).is_empty());
    assert!(!state.connections.contains_key(&2));
    assert!(state.connections.contains_key(&1));
    assert!(state.connections.contains_key(&3));
}

#[test]
fn fresh_id_keeps_a_free_draw() {
    let state = new_state();
    assert_eq!(fresh_conversation_id(&state, 77), 77);
    assert_eq!(fresh_conversation_id(&state, u128::MAX), u128::MAX);
}

#[test]
fn fresh_id_steps_past_taken_identifiers() {
    let mut state = new_state();
    insert_conversation(&mut state, Conversation { id: 77, participants: vec![1, 2] });
    insert_conversation(&mut state, Conversation { id: 78, participants: vec![1, 2] });
    insert_conversation(&mut state, Conversation { id: 80, participants: vec![1, 2] });
    assert_eq!(fresh_conversation_id(&state, 77), 79);
    assert_eq!(fresh_conversation_id(&state, 78), 79);
    assert_eq!(fresh_conversation_id(&state, 80), 81);
    assert_eq!(fresh_conversation_id(&state, 76), 76);
}

#[test]
fn fresh_id_wraps_round() {
    let mut state = new_state();
    insert_conversation(&mut state, Conversation { id: u128::MAX, participants: vec![] });
    insert_conversation(&mut state, Conversation { id: 0, participants: vec![] });
    assert_eq!(fresh_conversation_id(&state, u128::MAX), 1);
}

#[test]
fn created_conversations_never_replace_one_another() {
    let mut state = new_state();
    let mut seen = Vec::new();
    for round in 0..50usize {
        let id = handle_create_conversation_command(&mut state, vec![id(ALICE), id(BOB)]);
        assert!(!seen.contains(&id));
        seen.push(id);
        assert_eq!(state.conversations.len(), round + 1);
    }
    for id in seen {
        assert_eq!(state.conversations.get(&id).unwrap().id, id);
    }
}

#[test]
fn create_conversation_with_parsed_peer() {
    let mut state = new_state();
    assert_eq!(
        create_conversation_with(&mut state, 1, Some(id(BOB))),
        Err(CreateConversationError::Unauthenticated)
    );
    assert!(authenticate_with(&mut state, 1, Some(claims_of(ALICE))).is_ok());
    assert_eq!(
        create_conversation_with(&mut state, 1, None),
        Err(CreateConversationError::InvalidParticipant)
    );
    assert_eq!(
        create_conversation_with(&mut state, 1, Some(id(ALICE))),
        Err(CreateConversationError::SelfConversation)
    );
    assert!(state.conversations.is_empty());
    let made = create_conversation_with(&mut state, 1, Some(id(BOB))).unwrap();
    assert_eq!(state.conversations.get(&made).unwrap().participants, vec![id(ALICE), id(BOB)]);
}

#[test]
fn say_with_parsed_conversation() {
    let mut state = new_state();
    assert_eq!(say_with(&state, 1, Some(5), "hi"), Err(SayError::Unauthenticated));
    assert!(authenticate_with(&mut state, 1, Some(claims_of(ALICE))).is_ok());
    assert_eq!(say_with(&state, 1, Some(5), ""), Err(SayError::InvalidMessage));
    assert_eq!(say_with(&state, 1, None, "hi"), Err(SayError::InvalidConversation));
    assert_eq!(say_with(&state, 1, Some(5), "hi"), Err(SayError::ConversationDoesntExist));
    insert_conversation(&mut state, Conversation { id: 5, participants: vec![id(BOB), id(DAVE)] });
    assert_eq!(say_with(&state, 1, Some(5), "hi"), Err(SayError::NotInvolved));
    insert_conversation(&mut state, Conversation { id: 6, participants: vec![id(BOB), id(ALICE)] });
    assert_eq!(say_with(&state, 1, Some(6), "hi"), Ok(6));
}

#[test]
fn id_text_is_hyphenated_lower_case_and_reads_back() {
    assert_eq!(id_text(0xa1a2a3a4b1b2c1c2d1d2d3d4d5d6d7d8), "a1a2a3a4-b1b2-c1c2-d1d2-d3d4d5d6d7d8");
    assert_eq!(id_text(0), "00000000-0000-0000-0000-000000000000");
    assert_eq!(id_text(u128::MAX), "ffffffff-ffff-ffff-ffff-ffffffffffff");
    assert_eq!(id_text(0x0123456789abcdef0123456789abcdef), "01234567-89ab-cdef-0123-456789abcdef");
    let mut state = new_state();
    assert!(authenticate_with(&mut state, 1, Some(claims_of(ALICE))).is_ok());
    let made = create_conversation(&mut state, 1, BOB).unwrap();
    assert_eq!(handle_say_command(&mut state, 1, &id_text(made), "hi"), Ok(made));
}

#[test]
fn push_outcome_tells_taken_from_closed() {
    assert!(push_outcome(Ok(())).is_ok());
    assert!(matches!(
        push_outcome(Err(SendError(Message::Text("lost".into())))),
        Err(SendServerMsgError::ClientError)
    ));
}

#[test]
fn queue_of_hands_out_the_registered_queue() {
    let mut state = new_state();
    assert!(state.queue_of(1).is_none());
    let (tx_a, mut a) = channel();
    let (tx_b, mut b) = channel();
    handle_connected_event(&mut state, 1, tx_a);
    handle_connected_event(&mut state, 2, tx_b);
    assert_eq!(drain(&mut a).len(), 1);
    assert_eq!(drain(&mut b).len(), 1);
    let queue = state.queue_of(2).unwrap();
    assert!(queue.same_channel(state.connections.get(&2).unwrap()));
    assert!(send_server_msg(&queue, &ServerMsg::Info { message: "x".to_string() }).is_ok());
    assert!(drain(&mut a).is_empty());
    assert_eq!(drain(&mut b), vec![info_json("x")]);
}

#[test]
fn fan_out_recipients_carry_their_own_queues() {
    let mut state = new_state();
    let _a = join(&mut state, 1, ALICE);
    let _b = join(&mut state, 2, BOB);
    let _d = join(&mut state, 3, DAVE);
    let conversation = create_conversation(&mut state, 1, BOB).unwrap();
    let recipients = state.fan_out_recipients(conversation);
    assert_eq!(recipients.len(), 2);
    for (connection, queue) in recipients {
        assert!(queue.same_channel(state.connections.get(&connection).unwrap()));
    }
}

#[test]
fn authenticate_binds_the_user_of_this_token() {
    let mut state = new_state();
    assert_eq!(handle_authenticate_command(&mut state, 1, &token_for(DAVE)), Ok(DAVE.to_string()));
    assert_eq!(handle_authenticate_command(&mut state, 2, &token_for(BOB)), Ok(BOB.to_string()));
    assert_eq!(state.connection_to_user.get(&1), Some(&id(DAVE)));
    assert_eq!(state.connection_to_user.get(&2), Some(&id(BOB)));
}
