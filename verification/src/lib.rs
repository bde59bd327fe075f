//! A real-time chat relay: connections authenticate with a bearer token, open
//! pairwise conversations and exchange short text messages, which are fanned
//! out to every connected participant.
//!
//! The heart of the crate is [`state::RouterState`], the single owner of all
//! connection, session and conversation state, together with the handlers in
//! [`handlers`] and [`commands`] that process one event at a time.

pub mod ids;
pub mod json;
pub mod protocol;
pub mod transport;
pub mod wire;
pub mod conversation;
pub mod send;
pub mod state;
pub mod token;
pub mod commands;
pub mod handlers;
pub mod router;
pub mod laws;
pub mod lifecycle;
pub mod lobby;
pub mod identity;
