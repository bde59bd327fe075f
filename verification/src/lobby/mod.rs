//! The lobby: a single chat room.
//!
//! Connections register under a unique name and what one of them says is
//! broadcast to all the others.  The lobby is a router of its own, with its
//! own state and its own protocol; it shares the outbound queues and the wire
//! encoding with the conversation router.

pub mod commands;
pub mod handlers;
pub mod laws;
pub mod protocol;
pub mod router;
pub mod send;
pub mod state;
