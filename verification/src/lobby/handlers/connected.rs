//! A connection to the lobby was accepted.

use crate::lobby::protocol::{ServerMsg, ServerMsgView};
use crate::lobby::send::{send_server_msg, SendServerMsgError};
use crate::lobby::state::{LobbyView, RouterState};
use crate::transport::Outbound;
use vstd::prelude::*;
use vstd::string::StringExecFns;

verus! {

broadcast use vstd::std_specs::hash::group_hash_axioms;

/// The greeting every new client gets.
pub open spec fn welcome_of() -> ServerMsgView {
    ServerMsgView::Info { message: "Welcome!"@ }
}

/// Builds the greeting every new client gets.
pub fn welcome() -> (msg: ServerMsg)
    ensures
        msg@ == welcome_of(),
{
    ServerMsg::Info { message: String::from_str("Welcome!") }
}

/// The state after the greeting to a new client reported `greeted`: the
/// client is connected only if the greeting went through.
pub open spec fn admitted(
    pre: LobbyView,
    client_id: u64,
    out_tx: Outbound,
    greeted: Result<(), SendServerMsgError>,
) -> LobbyView {
    if greeted is Ok {
        pre.connect(client_id, out_tx)
    } else {
        pre
    }
}

/// Connects a new client once its greeting has been attempted.  A client
/// whose greeting failed, for whatever reason, is not connected at all.
pub fn admit_connection(
    router_state: &mut RouterState,
    client_id: u64,
    out_tx: Outbound,
    greeted: Result<(), SendServerMsgError>,
)
    ensures
        final(router_state)@ == admitted(old(router_state)@, client_id, out_tx, greeted),
{
    if greeted.is_err() {
        return ;
    }
    router_state.clients.insert(client_id, out_tx);
}

/// Handles a new connection: greets it through its outbound queue and, if
/// the greeting went through, connects it under `client_id`.
pub fn handle_connected_event(router_state: &mut RouterState, client_id: u64, out_tx: Outbound)
    ensures
        final(router_state)@ == old(router_state)@ || final(router_state)@ == old(
            router_state,
        )@.connect(client_id, out_tx),
{
    let greeting = welcome();
    let greeted = send_server_msg(&out_tx, &greeting);
    admit_connection(router_state, client_id, out_tx, greeted);
}

} // verus!
