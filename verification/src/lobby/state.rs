//! The state of the lobby: who is connected and under which name.

use crate::lobby::protocol::{encode_server_msg, ServerMsg};
use crate::lobby::send::{send_server_msg, send_ws_msg, SendServerMsgError};
use crate::state::{own_queues, recipient_ids};
use crate::transport::{clone_message, clone_sender, text_message, Outbound};
use std::collections::HashMap;
use tokio_tungstenite::tungstenite::Message;
use vstd::hash_map::StringHashMap;
use vstd::prelude::*;
use vstd::std_specs::hash::spec_hash_map_iter;
use vstd::std_specs::iter::IteratorSpec;

verus! {

broadcast use vstd::std_specs::hash::group_hash_axioms;

/// Everything the lobby owns.
pub struct RouterState {
    /// The outbound queue of every connected client.
    pub clients: HashMap<u64, Outbound>,
    /// The name of every registered client.
    pub client_names: HashMap<u64, String>,
    /// The client behind every name that is taken.
    pub client_rev_lookup: StringHashMap<u64>,
}

/// The mathematical value of a lobby's [`RouterState`].
#[verifier::ext_equal]
pub struct LobbyView {
    pub clients: Map<u64, Outbound>,
    pub names: Map<u64, Seq<char>>,
    pub taken: Map<Seq<char>, u64>,
}

impl View for RouterState {
    type V = LobbyView;

    open spec fn view(&self) -> LobbyView {
        LobbyView {
            clients: self.clients@,
            names: self.client_names@.map_values(|name: String| name@),
            taken: self.client_rev_lookup@,
        }
    }
}

impl LobbyView {
    /// The state of a lobby that has seen no event.
    pub open spec fn initial() -> LobbyView {
        LobbyView { clients: Map::empty(), names: Map::empty(), taken: Map::empty() }
    }

    /// The state without the client `client_id`: its queue is gone, and so
    /// is its name, which is free again.
    pub open spec fn disconnect(self, client_id: u64) -> LobbyView {
        LobbyView {
            clients: self.clients.remove(client_id),
            names: self.names.remove(client_id),
            taken: if self.names.contains_key(client_id) {
                self.taken.remove(self.names[client_id])
            } else {
                self.taken
            },
        }
    }

    /// The state with `client_id` connected through the queue `out_tx`.
    pub open spec fn connect(self, client_id: u64, out_tx: Outbound) -> LobbyView {
        LobbyView { clients: self.clients.insert(client_id, out_tx), ..self }
    }

    /// The state with `client_id` registered under `name`.
    pub open spec fn name(self, client_id: u64, name: Seq<char>) -> LobbyView {
        LobbyView {
            names: self.names.insert(client_id, name),
            taken: self.taken.insert(name, client_id),
            ..self
        }
    }

    /// The state after a send to `client_id` reported `outcome`: a closed
    /// queue costs the client its place, anything else changes nothing.
    pub open spec fn after_send(
        self,
        client_id: u64,
        outcome: Result<(), SendServerMsgError>,
    ) -> LobbyView {
        if outcome matches Err(SendServerMsgError::ClientError { .. }) {
            self.disconnect(client_id)
        } else {
            self
        }
    }

    /// The clients that a broadcast goes to: all that are connected, but
    /// `skip_client`.
    pub open spec fn broadcast_targets(self, skip_client: Option<u64>) -> Set<u64> {
        Set::new(|c: u64| self.clients.contains_key(c) && skip_client != Some(c))
    }

    /// The state after the clients in `dead` were disconnected one after the
    /// other.
    pub open spec fn disconnect_each(self, dead: Seq<u64>) -> LobbyView
        decreases dead.len(),
    {
        if dead.len() == 0 {
            self
        } else {
            self.disconnect_each(dead.drop_last()).disconnect(dead.last())
        }
    }

    /// Whether `post` is what a broadcast to `targets` can leave of `self`:
    /// some of the targets were found dead and disconnected, nothing else
    /// changed.
    pub open spec fn swept(self, targets: Set<u64>, post: LobbyView) -> bool {
        exists|dead: Seq<u64>|
            (forall|i: int| 0 <= i < dead.len() ==> targets.contains(#[trigger] dead[i])) && post
                == #[trigger] self.disconnect_each(dead)
    }

    /// Names and clients agree: every registered client is the one behind
    /// its name, and every taken name is the name of the client behind it.
    pub open spec fn consistent(self) -> bool {
        &&& forall|c: u64| #[trigger]
            self.names.contains_key(c) ==> self.taken.contains_key(self.names[c])
                && self.taken[self.names[c]] == c
        &&& forall|n: Seq<char>| #[trigger]
            self.taken.contains_key(n) ==> self.names.contains_key(self.taken[n])
                && self.names[self.taken[n]] == n
    }
}

impl RouterState {
    /// A lobby with no client.
    pub fn new() -> (state: RouterState)
        ensures
            state@ == LobbyView::initial(),
    {
        let state = RouterState {
            clients: HashMap::new(),
            client_names: HashMap::new(),
            client_rev_lookup: StringHashMap::new(),
        };
        assert(state@ =~= LobbyView::initial());
        state
    }

    /// Forgets the client `client_id`: its outbound queue and its name.
    pub fn disconnect_client(&mut self, client_id: u64)
        ensures
            final(self)@ == old(self)@.disconnect(client_id),
    {
        self.clients.remove(&client_id);
        if let Some(name) = self.client_names.remove(&client_id) {
            self.client_rev_lookup.remove(name.as_str());
        }
        assert(self@ =~= old(self)@.disconnect(client_id));
    }

    /// A handle to the outbound queue of the client `client_id`, if it is
    /// connected.
    pub fn queue_of(&self, client_id: u64) -> (queue: Option<Outbound>)
        ensures
            queue == if self@.clients.contains_key(client_id) {
                Some(self@.clients[client_id])
            } else {
                None
            },
    {
        match self.clients.get(&client_id) {
            Some(tx) => Some(clone_sender(tx)),
            None => None,
        }
    }

    /// Takes note of what a send to `client_id` reported: a client whose
    /// queue was found closed is disconnected at once.
    pub fn apply_send_outcome(&mut self, client_id: u64, outcome: Result<(), SendServerMsgError>)
        ensures
            final(self)@ == old(self)@.after_send(client_id, outcome),
    {
        match outcome {
            Err(SendServerMsgError::ClientError { error: _ }) => self.disconnect_client(client_id),
            Err(SendServerMsgError::SerializationError { error: _ }) => {},
            Ok(()) => {},
        }
    }

    /// Sends `msg` to the client `client_id` through `tx`, and disconnects
    /// the client if its queue turns out to be closed.
    pub fn send_or_disconnect_server_msg(&mut self, client_id: u64, tx: &Outbound, msg: &ServerMsg)
        ensures
            final(self)@ == old(self)@ || final(self)@ == old(self)@.disconnect(client_id),
    {
        let outcome = send_server_msg(tx, msg);
        self.apply_send_outcome(client_id, outcome);
    }

    /// Sends a copy of the ready-made message `msg` to the client
    /// `client_id` through `tx`, and disconnects the client if its queue
    /// turns out to be closed.
    pub fn send_or_disconnect_ws_msg(&mut self, client_id: u64, tx: &Outbound, msg: &Message)
        ensures
            final(self)@ == old(self)@ || final(self)@ == old(self)@.disconnect(client_id),
    {
        let outcome = send_ws_msg(tx, clone_message(msg));
        self.apply_send_outcome(client_id, outcome);
    }

    /// Collects the clients that a broadcast goes to, each with a handle to
    /// its outbound queue: every connected client but `skip_client`, each
    /// exactly once.
    pub fn recipients_except(&self, skip_client: Option<u64>) -> (recipients: Vec<(u64, Outbound)>)
        ensures
            recipient_ids(recipients@).no_duplicates(),
            recipient_ids(recipients@).to_set() == self@.broadcast_targets(skip_client),
            own_queues(recipients@, self@.clients),
    {
        let mut senders: Vec<(u64, Outbound)> = Vec::new();
        let ghost targets = self@.broadcast_targets(skip_client);
        let ghost all = spec_hash_map_iter(&self.clients).remaining();
        let ghost mut scanned: int = 0;
        let ghost mut picked: Seq<int> = Seq::empty();
        for (recipient_id, rtx) in it: self.clients.iter()
            invariant
                targets == self@.broadcast_targets(skip_client),
                all == spec_hash_map_iter(&self.clients).remaining(),
                all == it.seq(),
                all.no_duplicates(),
                scanned == it.index(),
                picked.len() == senders@.len(),
                forall|i: int|
                    0 <= i < picked.len() ==> 0 <= #[trigger] picked[i] < scanned
                        && *all[picked[i]].0 == senders@[i].0,
                forall|i: int|
                    0 <= i < senders@.len() ==> targets.contains(#[trigger] senders@[i].0),
                recipient_ids(senders@).no_duplicates(),
                own_queues(senders@, self@.clients),
                forall|j: int|
                    0 <= j < scanned && targets.contains(*(#[trigger] all[j]).0)
                        ==> recipient_ids(senders@).contains(*all[j].0),
        {
            let ghost before = senders@;
            assert(all[scanned] == (recipient_id, rtx));
            assert(self.clients@.contains_key(*all[scanned].0));
            let skipped = match skip_client {
                Some(skip) => skip == *recipient_id,
                None => false,
            };
            if !skipped {
                senders.push((*recipient_id, clone_sender(rtx)));
                proof {
                    picked = picked.push(scanned);
                    assert(targets.contains(*recipient_id));
                    assert forall|i: int| 0 <= i < before.len() implies before[i].0
                        != *recipient_id by {
                        let j = picked[i];
                        assert(self.clients@[*all[j].0] == *all[j].1);
                        assert(all[j] != all[scanned]);
                    }
                    assert(recipient_ids(senders@) =~= recipient_ids(before).push(*recipient_id));
                }
            }
            proof {
                assert forall|j: int|
                    0 <= j < scanned + 1 && targets.contains(
                        *(#[trigger] all[j]).0,
                    ) implies recipient_ids(senders@).contains(*all[j].0) by {
                    let c = *all[j].0;
                    if j < scanned {
                        let i = choose|i: int|
                            0 <= i < before.len() && recipient_ids(before)[i] == c;
                        assert(recipient_ids(senders@)[i] == c);
                    } else {
                        assert(recipient_ids(senders@)[senders@.len() - 1] == c);
                    }
                }
                scanned = scanned + 1;
            }
        }
        proof {
            let ids = recipient_ids(senders@);
            assert(scanned == all.len());
            assert forall|c: u64| targets.contains(c) implies ids.contains(c) by {
                let pair = (&c, &self.clients@[c]);
                assert(all.contains(pair));
                let j = choose|j: int| 0 <= j < all.len() && all[j] == pair;
                assert(*all[j].0 == c);
            }
            assert forall|c: u64| ids.contains(c) implies targets.contains(c) by {
                let i = choose|i: int| 0 <= i < ids.len() && ids[i] == c;
                assert(senders@[i].0 == c);
            }
            assert(ids.to_set() =~= targets);
        }
        senders
    }

    /// Sends `msg` to every listed recipient, one after the other, encoding
    /// it anew for each.  A recipient whose queue is closed is disconnected;
    /// the others still get their copy.
    pub fn deliver_to_each(&mut self, recipients: &Vec<(u64, Outbound)>, msg: &ServerMsg)
        ensures
            old(self)@.swept(recipient_ids(recipients@).to_set(), final(self)@),
    {
        let ghost ids = recipient_ids(recipients@);
        let ghost mut dead: Seq<u64> = Seq::empty();
        let mut i: usize = 0;
        while i < recipients.len()
            invariant
                i <= recipients.len(),
                ids == recipient_ids(recipients@),
                forall|k: int| 0 <= k < dead.len() ==> ids.to_set().contains(#[trigger] dead[k]),
                self@ == old(self)@.disconnect_each(dead),
            decreases recipients.len() - i,
        {
            let ghost before = self@;
            let client_id = recipients[i].0;
            self.send_or_disconnect_server_msg(client_id, &recipients[i].1, msg);
            proof {
                assert(ids[i as int] == client_id);
                if self@ != before {
                    assert(dead.push(client_id).drop_last() =~= dead);
                    dead = dead.push(client_id);
                }
            }
            i += 1;
        }
    }

    /// Sends a copy of the ready-made message `message` to every listed
    /// recipient, one after the other.  A recipient whose queue is closed is
    /// disconnected; the others still get their copy.
    pub fn deliver_copy_to_each(&mut self, recipients: &Vec<(u64, Outbound)>, message: &Message)
        ensures
            old(self)@.swept(recipient_ids(recipients@).to_set(), final(self)@),
    {
        let ghost ids = recipient_ids(recipients@);
        let ghost mut dead: Seq<u64> = Seq::empty();
        let mut i: usize = 0;
        while i < recipients.len()
            invariant
                i <= recipients.len(),
                ids == recipient_ids(recipients@),
                forall|k: int| 0 <= k < dead.len() ==> ids.to_set().contains(#[trigger] dead[k]),
                self@ == old(self)@.disconnect_each(dead),
            decreases recipients.len() - i,
        {
            let ghost before = self@;
            let client_id = recipients[i].0;
            self.send_or_disconnect_ws_msg(client_id, &recipients[i].1, message);
            proof {
                assert(ids[i as int] == client_id);
                if self@ != before {
                    assert(dead.push(client_id).drop_last() =~= dead);
                    dead = dead.push(client_id);
                }
            }
            i += 1;
        }
    }

    /// Encodes `msg` once and sends it to every client but `skip_client`.
    /// A client whose queue is closed is disconnected; the others are served
    /// all the same.
    pub fn broadcast_server_msg(&mut self, msg: &ServerMsg, skip_client: Option<u64>)
        ensures
            old(self)@.swept(old(self)@.broadcast_targets(skip_client), final(self)@),
    {
        let raw = match encode_server_msg(msg) {
            Ok(v) => v,
            Err(_) => {
                assert(self@ == old(self)@.disconnect_each(Seq::<u64>::empty()));
                return ;
            },
        };
        self.broadcast_ws_msg(text_message(raw), skip_client);
    }

    /// Sends a ready-made message to every client but `skip_client`.  A
    /// client whose queue is closed is disconnected; the others are served
    /// all the same.
    pub fn broadcast_ws_msg(&mut self, message: Message, skip_client: Option<u64>)
        ensures
            old(self)@.swept(old(self)@.broadcast_targets(skip_client), final(self)@),
    {
        let senders = self.recipients_except(skip_client);
        self.deliver_copy_to_each(&senders, &message);
    }
}

} // verus!
