//! What holds of the lobby in every state and on every path.

use crate::lobby::commands::register::{register_check, RegisterError};
use crate::lobby::handlers::received::received;
use crate::lobby::protocol::{CommandView, Event};
use crate::lobby::router::stepped;
use crate::lobby::state::LobbyView;
use vstd::prelude::*;

verus! {

/// Disconnecting a client keeps names and clients in agreement.
pub proof fn lemma_disconnect_keeps_consistency(pre: LobbyView, client_id: u64)
    requires
        pre.consistent(),
    ensures
        pre.disconnect(client_id).consistent(),
{
    let post = pre.disconnect(client_id);
    assert forall|c: u64| #[trigger]
        post.names.contains_key(c) implies post.taken.contains_key(post.names[c])
        && post.taken[post.names[c]] == c by {
        assert(pre.names.contains_key(c));
    }
    assert forall|n: Seq<char>| #[trigger]
        post.taken.contains_key(n) implies post.names.contains_key(post.taken[n])
        && post.names[post.taken[n]] == n by {
        assert(pre.taken.contains_key(n));
    }
}

/// Disconnecting clients one after the other keeps names and clients in
/// agreement.
pub proof fn lemma_sweep_keeps_consistency(pre: LobbyView, dead: Seq<u64>)
    requires
        pre.consistent(),
    ensures
        pre.disconnect_each(dead).consistent(),
    decreases dead.len(),
{
    if dead.len() > 0 {
        lemma_sweep_keeps_consistency(pre, dead.drop_last());
        lemma_disconnect_keeps_consistency(pre.disconnect_each(dead.drop_last()), dead.last());
    }
}

/// A registration that passes its checks keeps names and clients in
/// agreement.
pub proof fn lemma_register_keeps_consistency(pre: LobbyView, client_id: u64, name: Seq<char>)
    requires
        pre.consistent(),
        register_check(pre, client_id, name) is Ok,
    ensures
        pre.name(client_id, name).consistent(),
{
    let post = pre.name(client_id, name);
    assert forall|c: u64| #[trigger]
        post.names.contains_key(c) implies post.taken.contains_key(post.names[c])
        && post.taken[post.names[c]] == c by {
        if c != client_id {
            assert(pre.names.contains_key(c));
        }
    }
    assert forall|n: Seq<char>| #[trigger]
        post.taken.contains_key(n) implies post.names.contains_key(post.taken[n])
        && post.names[post.taken[n]] == n by {
        if n != name {
            assert(pre.taken.contains_key(n));
        }
    }
}

/// Names and clients stay in agreement: whatever event the lobby handles
/// in a state where they agree, they agree afterwards.
pub proof fn lemma_lobby_stays_consistent(pre: LobbyView, event: Event, post: LobbyView)
    requires
        pre.consistent(),
        stepped(pre, event, post),
    ensures
        post.consistent(),
{
    match event {
        Event::Connected { client_id, out_tx } => {},
        Event::Disconnected { client_id } => {
            lemma_disconnect_keeps_consistency(pre, client_id);
        },
        Event::Received { client_id, command } => {
            lemma_disconnect_keeps_consistency(pre, client_id);
            if pre.clients.contains_key(client_id) {
                match command@ {
                    CommandView::Register { name } => {
                        if register_check(pre, client_id, name) is Ok {
                            lemma_register_keeps_consistency(pre, client_id, name);
                            lemma_disconnect_keeps_consistency(
                                pre.name(client_id, name),
                                client_id,
                            );
                        }
                    },
                    CommandView::Say { message } => {
                        if received(pre, client_id, command@, post) && post != pre && post
                            != pre.disconnect(client_id) {
                            let dead = choose|dead: Seq<u64>|
                                (forall|i: int|
                                    0 <= i < dead.len() ==> pre.broadcast_targets(
                                        Some(client_id),
                                    ).contains(#[trigger] dead[i])) && post
                                    == #[trigger] pre.disconnect_each(dead);
                            lemma_sweep_keeps_consistency(pre, dead);
                        }
                    },
                }
            }
        },
    }
}

/// Where names and clients agree, no two clients have the same name, and a
/// name is refused as taken exactly if some client has it.
pub proof fn lemma_names_are_unique(state: LobbyView, a: u64, b: u64)
    requires
        state.consistent(),
        state.names.contains_key(a),
        state.names.contains_key(b),
        a != b,
    ensures
        state.names[a] != state.names[b],
        state.taken.contains_key(state.names[a]),
{
}

/// Where names and clients agree, the name of a client that is disconnected
/// is free again: a newcomer may register under it.
pub proof fn lemma_disconnect_frees_name(state: LobbyView, client_id: u64, newcomer: u64)
    requires
        state.consistent(),
        state.names.contains_key(client_id),
        !state.names.contains_key(newcomer),
    ensures
        register_check(state.disconnect(client_id), newcomer, state.names[client_id])
            != Err::<(), RegisterError>(RegisterError::UsernameTaken),
{
}

} // verus!
