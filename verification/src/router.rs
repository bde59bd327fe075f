//! The router: one event at a time, each handled to completion.

use crate::handlers::connected::handle_connected_event;
use crate::handlers::disconnected::handle_disconnected_event;
use crate::handlers::received::{handle_received_event, received};
use crate::protocol::Event;
use crate::state::{RouterState, RouterView};
use vstd::prelude::*;

verus! {

/// Whether `post` can be the state after `event` was handled in the state
/// `pre`.
pub open spec fn stepped(pre: RouterView, event: Event, post: RouterView) -> bool {
    match event {
        Event::Connected { client_id, out_tx } => post == pre || post == pre.register(
            client_id,
            out_tx,
        ),
        Event::Received { client_id, command } => received(pre, client_id, command@, post),
        Event::Disconnected { client_id } => post == pre.disconnect(client_id),
    }
}

/// Handles one event to completion.
pub fn handle_event(router_state: &mut RouterState, event: Event)
    ensures
        stepped(old(router_state)@, event, final(router_state)@),
{
    match event {
        Event::Connected { client_id, out_tx } => {
            handle_connected_event(router_state, client_id, out_tx);
        },
        Event::Received { client_id, command } => {
            handle_received_event(router_state, client_id, command);
        },
        Event::Disconnected { client_id } => {
            handle_disconnected_event(router_state, client_id);
        },
    }
}

} // verus!
