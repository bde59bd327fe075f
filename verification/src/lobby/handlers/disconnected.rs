//! A connection to the lobby was closed.

use crate::lobby::state::RouterState;
use vstd::prelude::*;

verus! {

/// Handles the end of a connection: its outbound queue is forgotten and its
/// name is free again.
pub fn handle_disconnected_event(router_state: &mut RouterState, client_id: u64)
    ensures
        final(router_state)@ == old(router_state)@.disconnect(client_id),
{
    router_state.disconnect_client(client_id);
}

} // verus!
