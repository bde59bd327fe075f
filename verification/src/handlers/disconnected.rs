//! A connection was closed.

use crate::state::RouterState;
use vstd::prelude::*;

verus! {

/// Handles the end of a connection: its outbound queue and its session are
/// forgotten.  The conversations it took part in stay as they are.
pub fn handle_disconnected_event(router_state: &mut RouterState, client_id: u64)
    ensures
        final(router_state)@ == old(router_state)@.disconnect(client_id),
{
    router_state.disconnect_client(client_id);
}

} // verus!
