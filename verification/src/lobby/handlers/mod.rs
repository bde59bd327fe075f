//! What the lobby does on each kind of event.

pub mod connected;
pub mod disconnected;
pub mod received;
