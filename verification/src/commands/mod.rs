//! The commands a client can issue, each with its checks and its effect.

pub mod authenticate;
pub mod create_conversation;
pub mod say;
