//! `create_conversation`: a new conversation between the caller and a peer.

use crate::conversation::Conversation;
use crate::ids::{parse_uuid, parsed_uuid};
use crate::state::{RouterState, RouterView};
use vstd::prelude::*;

verus! {

broadcast use vstd::std_specs::hash::group_hash_axioms;

/// Why a conversation was not created.
#[derive(Debug, Clone, Copy, PartialEq, Eq, Structural)]
pub enum CreateConversationError {
    /// The connection has no session.
    Unauthenticated,
    /// The participant is not a well-formed user identifier.
    InvalidParticipant,
    /// The participant is the caller.
    SelfConversation,
}

/// The verdict on `create_conversation` once the participant has been read:
/// `peer` is the user it names, or `None` if it is malformed.  The result is
/// the participants of the new conversation, caller first, or the first
/// check that fails.
pub open spec fn create_conversation_verdict(
    state: RouterView,
    client_id: u64,
    peer: Option<u128>,
) -> Result<Seq<u128>, CreateConversationError> {
    if !state.sessions.contains_key(client_id) {
        Err(CreateConversationError::Unauthenticated)
    } else {
        match peer {
            None => Err(CreateConversationError::InvalidParticipant),
            Some(peer) => if peer == state.sessions[client_id] {
                Err(CreateConversationError::SelfConversation)
            } else {
                Ok(seq![state.sessions[client_id], peer])
            },
        }
    }
}

/// The verdict on `create_conversation`: the participants of the new
/// conversation, caller first, or the first check that fails.
pub open spec fn create_conversation_check(
    state: RouterView,
    client_id: u64,
    participant: Seq<char>,
) -> Result<Seq<u128>, CreateConversationError> {
    create_conversation_verdict(state, client_id, parsed_uuid(participant))
}

/// The identifier `steps` after `drawn`, counting round the 128 bits.
pub open spec fn successor(drawn: u128, steps: nat) -> u128 {
    ((drawn + steps) % (u128::MAX + 1)) as u128
}

/// Whether `id` is the first identifier from `drawn` on that no conversation
/// of `state` has.
pub open spec fn first_free(state: RouterView, drawn: u128, id: u128) -> bool {
    exists|steps: nat|
        id == #[trigger] successor(drawn, steps) && !state.conversations.contains_key(id)
            && forall|j: nat|
            j < steps ==> state.conversations.contains_key(#[trigger] successor(drawn, j))
}

/// Adds a conversation to the registry under its own identifier.
pub fn insert_conversation(router_state: &mut RouterState, conversation: Conversation)
    ensures
        final(router_state)@ == old(router_state)@.add_conversation(
            conversation@.id,
            conversation@.participants,
        ),
{
    let ghost added = conversation@;
    let conversation_id = conversation.id;
    router_state.conversations.insert(conversation_id, conversation);
    assert(final(router_state)@ =~= old(router_state)@.add_conversation(
        added.id,
        added.participants,
    ));
}

/// Makes sure of an identifier that is new to the registry: `drawn` itself
/// if no conversation has it, else the first of its successors that none
/// has.
pub fn fresh_conversation_id(router_state: &RouterState, drawn: u128) -> (id: u128)
    ensures
        !router_state@.conversations.contains_key(id),
        first_free(router_state@, drawn, id),
        !router_state@.conversations.contains_key(drawn) ==> id == drawn,
{
    let ghost taken = router_state.conversations@.dom();
    let len = router_state.conversations.len();
    let mut steps: usize = 0;
    let mut id = drawn;
    let ghost mut tried: Set<u128> = Set::empty();
    assert(router_state@.conversations.dom() =~= taken);
    while router_state.conversations.contains_key(&id)
        invariant
            taken == router_state.conversations@.dom(),
            taken.finite(),
            len == taken.len(),
            steps <= len,
            id == successor(drawn, steps as nat),
            tried.finite(),
            tried.len() == steps,
            tried.subset_of(taken),
            forall|t: u128|
                tried.contains(t) ==> exists|j: nat|
                    j < steps && t == #[trigger] successor(drawn, j),
            forall|j: nat| j < steps ==> taken.contains(#[trigger] successor(drawn, j)),
        decreases len - steps,
    {
        proof {
            if tried.contains(id) {
                let j = choose|j: nat| j < steps && id == #[trigger] successor(drawn, j);
                assert(false);
            }
            tried = tried.insert(id);
            vstd::set_lib::lemma_len_subset(tried, taken);
        }
        steps = steps + 1;
        id = if id == u128::MAX {
            0
        } else {
            id + 1
        };
    }
    assert(first_free(router_state@, drawn, id)) by {
        assert(id == successor(drawn, steps as nat));
    }
    assert(successor(drawn, 0) == drawn);
    id
}

/// Creates a conversation between `participants`, registers it and returns
/// its identifier.
///
/// The identifier is drawn at random and is new to the registry: should the
/// draw hit an identifier that is taken, the first free one after it is used
/// instead.  No check is made for an existing conversation between the same
/// participants: every call makes a conversation of its own.
pub fn handle_create_conversation_command(
    router_state: &mut RouterState,
    participants: Vec<u128>,
) -> (conversation_id: u128)
    ensures
        !old(router_state)@.conversations.contains_key(conversation_id),
        final(router_state)@ == old(router_state)@.add_conversation(
            conversation_id,
            participants@,
        ),
        final(router_state)@.conversations.len() == old(router_state)@.conversations.len() + 1,
{
    let mut new_conversation = Conversation::new(participants);
    let conversation_id = fresh_conversation_id(router_state, new_conversation.id);
    new_conversation.id = conversation_id;
    insert_conversation(router_state, new_conversation);
    proof {
        let before = old(router_state)@.conversations;
        assert(before.dom() =~= old(router_state).conversations@.dom());
        assert(final(router_state)@.conversations.dom() =~= before.dom().insert(conversation_id));
    }
    conversation_id
}

/// Handles `create_conversation` once the participant has been read: `peer`
/// is the user it names, or `None` if it is malformed.
///
/// The connection must have a session, the participant must be well formed,
/// and it must not be the caller.  If so, a conversation between the caller
/// and the participant is created under an identifier that is new to the
/// registry, and the identifier is returned; otherwise the state is left as
/// it was.
pub fn create_conversation_with(
    router_state: &mut RouterState,
    client_id: u64,
    peer: Option<u128>,
) -> (r: Result<u128, CreateConversationError>)
    ensures
        match create_conversation_verdict(old(router_state)@, client_id, peer) {
            Err(e) => r == Err::<u128, CreateConversationError>(e) && *final(router_state)
                == *old(router_state),
            Ok(participants) => r is Ok && !old(router_state)@.conversations.contains_key(
                r.unwrap(),
            ) && final(router_state)@ == old(router_state)@.add_conversation(
                r.unwrap(),
                participants,
            ),
        },
{
    let caller = match router_state.connection_to_user.get(&client_id) {
        Some(user) => *user,
        None => { return Err(CreateConversationError::Unauthenticated); },
    };
    let peer = match peer {
        Some(id) => id,
        None => { return Err(CreateConversationError::InvalidParticipant); },
    };
    if caller == peer {
        return Err(CreateConversationError::SelfConversation);
    }
    let mut participants: Vec<u128> = Vec::new();
    participants.push(caller);
    participants.push(peer);
    assert(participants@ =~= seq![caller, peer]);
    Ok(handle_create_conversation_command(router_state, participants))
}

/// Handles `create_conversation` for the connection `client_id`.
///
/// The connection must have a session, `participant` must be a well-formed
/// user identifier, and it must not be the caller.  If so, a conversation
/// between the caller and the participant is created under an identifier
/// that is new to the registry, and the identifier is returned; otherwise
/// the state is left as it was.
pub fn create_conversation(
    router_state: &mut RouterState,
    client_id: u64,
    participant: &str,
) -> (r: Result<u128, CreateConversationError>)
    ensures
        match create_conversation_check(old(router_state)@, client_id, participant@) {
            Err(e) => r == Err::<u128, CreateConversationError>(e) && *final(router_state)
                == *old(router_state),
            Ok(participants) => r is Ok && !old(router_state)@.conversations.contains_key(
                r.unwrap(),
            ) && final(router_state)@ == old(router_state)@.add_conversation(
                r.unwrap(),
                participants,
            ),
        },
{
    create_conversation_with(router_state, client_id, parse_uuid(participant))
}

} // verus!
