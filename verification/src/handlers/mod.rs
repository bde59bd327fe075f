//! What the router does on each kind of event.

pub mod connected;
pub mod disconnected;
pub mod received;
