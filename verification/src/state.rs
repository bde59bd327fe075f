//! The state of the router: who is connected, who is authenticated, and which
//! conversations exist.

use crate::conversation::{Conversation, ConversationView};
use crate::ids::{id_text, uuid_text, ConnectionId, ConversationId, UserId};
use crate::protocol::{ServerMsg, ServerMsgView};
use crate::send::{send_server_msg, SendServerMsgError};
use crate::transport::{clone_sender, Outbound};
use jsonwebtoken::DecodingKey;
use std::collections::HashMap;
use vstd::prelude::*;
use vstd::std_specs::hash::spec_hash_map_iter;
use vstd::std_specs::iter::IteratorSpec;
use vstd::string::StringExecFns;

verus! {

broadcast use vstd::std_specs::hash::group_hash_axioms;

/// Everything the router owns.  Only the router task touches it, one event at
/// a time.
pub struct RouterState {
    /// The shared secret against which tokens are verified.
    pub decoding_key: DecodingKey,
    /// The outbound queue of every registered connection.
    pub connections: HashMap<ConnectionId, Outbound>,
    /// The session of every authenticated connection: the user it is bound to.
    pub connection_to_user: HashMap<ConnectionId, UserId>,
    /// Every conversation ever created, by identifier.
    pub conversations: HashMap<ConversationId, Conversation>,
}

/// The mathematical value of a [`RouterState`].
#[verifier::ext_equal]
pub struct RouterView {
    pub decoding_key: DecodingKey,
    pub connections: Map<ConnectionId, Outbound>,
    pub sessions: Map<ConnectionId, UserId>,
    pub conversations: Map<ConversationId, ConversationView>,
}

impl View for RouterState {
    type V = RouterView;

    open spec fn view(&self) -> RouterView {
        RouterView {
            decoding_key: self.decoding_key,
            connections: self.connections@,
            sessions: self.connection_to_user@,
            conversations: self.conversations@.map_values(|c: Conversation| c@),
        }
    }
}

impl RouterView {
    /// The state of a router that has seen no event.
    pub open spec fn initial(decoding_key: DecodingKey) -> RouterView {
        RouterView {
            decoding_key,
            connections: Map::empty(),
            sessions: Map::empty(),
            conversations: Map::empty(),
        }
    }

    /// The state without the connection `client_id`: its queue and its
    /// session are gone, the conversations stay.
    pub open spec fn disconnect(self, client_id: u64) -> RouterView {
        RouterView {
            connections: self.connections.remove(client_id),
            sessions: self.sessions.remove(client_id),
            ..self
        }
    }

    /// The state with `client_id` registered under the queue `out_tx`.
    pub open spec fn register(self, client_id: u64, out_tx: Outbound) -> RouterView {
        RouterView { connections: self.connections.insert(client_id, out_tx), ..self }
    }

    /// The state with `client_id` bound to `user`.
    pub open spec fn bind(self, client_id: u64, user: u128) -> RouterView {
        RouterView { sessions: self.sessions.insert(client_id, user), ..self }
    }

    /// The connections that a message said in `conversation` goes to: every
    /// registered connection whose session is bound to one of its
    /// participants.  The sender's own connections are among them.
    pub open spec fn fan_out_targets(self, conversation: u128) -> Set<u64> {
        Set::new(
            |c: u64|
                self.conversations.contains_key(conversation) && self.sessions.contains_key(c)
                    && self.conversations[conversation].participants.contains(self.sessions[c])
                    && self.connections.contains_key(c),
        )
    }

    /// The state after every connection in `dead` was disconnected.
    pub open spec fn evict_all(self, dead: Set<u64>) -> RouterView {
        RouterView {
            connections: self.connections.remove_keys(dead),
            sessions: self.sessions.remove_keys(dead),
            ..self
        }
    }

    /// The state after a send to `client_id` reported `outcome`: a closed
    /// queue costs the connection its place, anything else changes nothing.
    pub open spec fn after_send(
        self,
        client_id: u64,
        outcome: Result<(), SendServerMsgError>,
    ) -> RouterView {
        if outcome matches Err(SendServerMsgError::ClientError) {
            self.disconnect(client_id)
        } else {
            self
        }
    }

    /// Whether `post` is what a fan-out to `targets` can leave of `self`:
    /// some of the targets were found dead and evicted, nothing else changed.
    pub open spec fn fanned_out(self, targets: Set<u64>, post: RouterView) -> bool {
        exists|dead: Set<u64>| #[trigger] dead.subset_of(targets) && post == self.evict_all(dead)
    }

    /// The state with the conversation `id` between `participants` added.
    pub open spec fn add_conversation(self, id: u128, participants: Seq<u128>) -> RouterView {
        RouterView {
            conversations: self.conversations.insert(id, ConversationView { id, participants }),
            ..self
        }
    }
}

/// The connections named in a list of recipients, in order.
pub open spec fn recipient_ids(recipients: Seq<(u64, Outbound)>) -> Seq<u64> {
    recipients.map_values(|r: (u64, Outbound)| r.0)
}

/// Whether every recipient in the list is named with its own queue: the one
/// that `queues` holds for it.
pub open spec fn own_queues(recipients: Seq<(u64, Outbound)>, queues: Map<u64, Outbound>) -> bool {
    forall|i: int|
        0 <= i < recipients.len() ==> queues.contains_key((#[trigger] recipients[i]).0)
            && recipients[i].1 == queues[recipients[i].0]
}

/// The chat message that tells of `message`, said by `from` in
/// `conversation`.
pub open spec fn chat_of(conversation: u128, from: u128, message: Seq<char>) -> ServerMsgView {
    ServerMsgView::Chat {
        conversation: uuid_text(conversation),
        from: uuid_text(from),
        message,
    }
}

/// Builds the chat message that tells of `message`, said by `from` in
/// `conversation`.
pub fn chat_message(conversation: u128, from: u128, message: &str) -> (msg: ServerMsg)
    ensures
        msg@ == chat_of(conversation, from, message@),
{
    ServerMsg::Chat {
        conversation: id_text(conversation),
        from: id_text(from),
        message: String::from_str(message),
    }
}

impl RouterState {
    /// A router state with no connection, no session and no conversation.
    pub fn new(decoding_key: DecodingKey) -> (state: RouterState)
        ensures
            state@ == RouterView::initial(decoding_key),
    {
        let state = RouterState {
            decoding_key,
            connections: HashMap::new(),
            connection_to_user: HashMap::new(),
            conversations: HashMap::new(),
        };
        assert(state@ =~= RouterView::initial(decoding_key));
        state
    }

    /// Forgets the connection `client_id`: its outbound queue and its
    /// session.  Conversations are left as they are.
    pub fn disconnect_client(&mut self, client_id: u64)
        ensures
            final(self)@ == old(self)@.disconnect(client_id),
    {
        self.connections.remove(&client_id);
        self.connection_to_user.remove(&client_id);
    }

    /// A handle to the outbound queue of the connection `client_id`, if it is
    /// registered.
    pub fn queue_of(&self, client_id: u64) -> (queue: Option<Outbound>)
        ensures
            queue == if self@.connections.contains_key(client_id) {
                Some(self@.connections[client_id])
            } else {
                None
            },
    {
        match self.connections.get(&client_id) {
            Some(tx) => Some(clone_sender(tx)),
            None => None,
        }
    }

    /// Takes note of what a send to `client_id` reported: a connection whose
    /// queue was found closed is disconnected at once.  Any other outcome
    /// changes nothing.
    pub fn apply_send_outcome(&mut self, client_id: u64, outcome: Result<(), SendServerMsgError>)
        ensures
            final(self)@ == old(self)@.after_send(client_id, outcome),
    {
        match outcome {
            Err(SendServerMsgError::ClientError) => self.disconnect_client(client_id),
            Err(SendServerMsgError::SerializationError { error: _ }) => {},
            Ok(()) => {},
        }
    }

    /// Sends `msg` to the connection `client_id` through `tx`, and
    /// disconnects the connection if its queue turns out to be closed.
    ///
    /// Whatever the queue answers, the state is left as it was or without
    /// `client_id`.
    pub fn send_or_disconnect_server_msg(&mut self, client_id: u64, tx: &Outbound, msg: &ServerMsg)
        ensures
            final(self)@ == old(self)@ || final(self)@ == old(self)@.disconnect(client_id),
    {
        let outcome = send_server_msg(tx, msg);
        self.apply_send_outcome(client_id, outcome);
    }

    /// Collects the connections that a message said in `conversation_id`
    /// goes to, each with a handle to its outbound queue.
    ///
    /// Every registered connection whose session is bound to a participant
    /// is listed exactly once; no other connection is listed.  Without such a
    /// conversation the list is empty.
    pub fn fan_out_recipients(&self, conversation_id: u128) -> (recipients: Vec<(u64, Outbound)>)
        ensures
            recipient_ids(recipients@).no_duplicates(),
            recipient_ids(recipients@).to_set() == self@.fan_out_targets(conversation_id),
            own_queues(recipients@, self@.connections),
    {
        let mut senders: Vec<(u64, Outbound)> = Vec::new();
        let conversation = match self.conversations.get(&conversation_id) {
            Some(c) => c,
            None => {
                assert(recipient_ids(senders@).to_set() =~= self@.fan_out_targets(conversation_id));
                return senders;
            },
        };
        let ghost targets = self@.fan_out_targets(conversation_id);
        let ghost all = spec_hash_map_iter(&self.connection_to_user).remaining();
        let ghost mut scanned: int = 0;
        let ghost mut picked: Seq<int> = Seq::empty();
        for (connection_id, user_id) in it: self.connection_to_user.iter()
            invariant
                targets == self@.fan_out_targets(conversation_id),
                self.conversations@.contains_key(conversation_id),
                self.conversations@[conversation_id] == *conversation,
                all == spec_hash_map_iter(&self.connection_to_user).remaining(),
                all == it.seq(),
                all.no_duplicates(),
                scanned == it.index(),
                picked.len() == senders@.len(),
                forall|i: int|
                    0 <= i < picked.len() ==> 0 <= #[trigger] picked[i] < scanned
                        && *all[picked[i]].0 == senders@[i].0,
                forall|i: int|
                    0 <= i < senders@.len() ==> targets.contains(#[trigger] senders@[i].0),
                recipient_ids(senders@).no_duplicates(),
                own_queues(senders@, self@.connections),
                forall|j: int|
                    0 <= j < scanned && targets.contains(*(#[trigger] all[j]).0)
                        ==> recipient_ids(senders@).contains(*all[j].0),
        {
            let ghost before = senders@;
            assert(all[scanned] == (connection_id, user_id));
            assert(self.connection_to_user@.contains_key(*all[scanned].0));
            if conversation.involves(*user_id) {
                if let Some(sender) = self.connections.get(connection_id) {
                    senders.push((*connection_id, clone_sender(sender)));
                    proof {
                        picked = picked.push(scanned);
                        assert(targets.contains(*connection_id));
                        assert forall|i: int| 0 <= i < before.len() implies before[i].0
                            != *connection_id by {
                            let j = picked[i];
                            assert(self.connection_to_user@[*all[j].0] == *all[j].1);
                            assert(all[j] != all[scanned]);
                        }
                        assert(recipient_ids(senders@) =~= recipient_ids(before).push(
                            *connection_id,
                        ));
                    }
                }
            }
            proof {
                assert forall|j: int|
                    0 <= j < scanned + 1 && targets.contains(
                        *(#[trigger] all[j]).0,
                    ) implies recipient_ids(senders@).contains(*all[j].0) by {
                    let c = *all[j].0;
                    if j < scanned {
                        let i = choose|i: int|
                            0 <= i < before.len() && recipient_ids(before)[i] == c;
                        assert(recipient_ids(senders@)[i] == c);
                    } else {
                        assert(recipient_ids(senders@)[senders@.len() - 1] == c);
                    }
                }
                scanned = scanned + 1;
            }
        }
        proof {
            let ids = recipient_ids(senders@);
            assert(scanned == all.len());
            assert forall|c: u64| targets.contains(c) implies ids.contains(c) by {
                let pair = (&c, &self.connection_to_user@[c]);
                assert(all.contains(pair));
                let j = choose|j: int| 0 <= j < all.len() && all[j] == pair;
                assert(*all[j].0 == c);
            }
            assert forall|c: u64| ids.contains(c) implies targets.contains(c) by {
                let i = choose|i: int| 0 <= i < ids.len() && ids[i] == c;
                assert(senders@[i].0 == c);
            }
            assert(ids.to_set() =~= targets);
        }
        senders
    }

    /// Sends `msg` to every listed recipient, one after the other.  A
    /// recipient whose queue is closed is disconnected; the others still get
    /// their copy.
    pub fn deliver_to_each(&mut self, recipients: &Vec<(u64, Outbound)>, msg: &ServerMsg)
        ensures
            old(self)@.fanned_out(recipient_ids(recipients@).to_set(), final(self)@),
    {
        let ghost ids = recipient_ids(recipients@);
        let ghost mut dead: Set<u64> = Set::empty();
        assert(self@ =~= old(self)@.evict_all(dead));
        let mut i: usize = 0;
        while i < recipients.len()
            invariant
                i <= recipients.len(),
                ids == recipient_ids(recipients@),
                dead.subset_of(ids.to_set()),
                self@ == old(self)@.evict_all(dead),
            decreases recipients.len() - i,
        {
            let ghost before = self@;
            let client_id = recipients[i].0;
            self.send_or_disconnect_server_msg(client_id, &recipients[i].1, msg);
            proof {
                assert(ids[i as int] == client_id);
                if self@ != before {
                    dead = dead.insert(client_id);
                    assert(self@ =~= old(self)@.evict_all(dead));
                }
            }
            i += 1;
        }
        assert(dead.subset_of(ids.to_set()));
    }

    /// Fans a chat message out to a conversation.
    ///
    /// The message goes to every registered connection whose session is
    /// bound to a participant of `conversation_id`, the sender's own
    /// connections included, tagged with the sender's user and the
    /// conversation.  Delivery is best effort: a recipient whose queue is
    /// closed is disconnected and the others are served all the same.
    /// Nothing happens if `sender_connection_id` has no session or the
    /// conversation does not exist.
    pub fn send_server_msg_to_conversation(
        &mut self,
        conversation_id: u128,
        sender_connection_id: u64,
        message: &str,
    )
        ensures
            old(self)@.sessions.contains_key(sender_connection_id)
                && old(self)@.conversations.contains_key(conversation_id)
                ==> old(self)@.fanned_out(
                old(self)@.fan_out_targets(conversation_id),
                final(self)@,
            ),
            !(old(self)@.sessions.contains_key(sender_connection_id)
                && old(self)@.conversations.contains_key(conversation_id))
                ==> final(self)@ == old(self)@,
    {
        let sender_user = match self.connection_to_user.get(&sender_connection_id) {
            Some(s) => *s,
            None => { return ; },
        };
        if !self.conversations.contains_key(&conversation_id) {
            return ;
        }
        let senders = self.fan_out_recipients(conversation_id);
        let msg = chat_message(conversation_id, sender_user, message);
        self.deliver_to_each(&senders, &msg);
    }
}

} // verus!
