//! The commands of the lobby.

pub mod register;
pub mod say;
