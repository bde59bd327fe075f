//! Conversations: a fixed set of participants under a unique identifier.

use crate::ids::{is_random_uuid, random_uuid, ConversationId, UserId};
use vstd::prelude::*;

verus! {

/// A chat channel.  Its participants are fixed when it is created.
pub struct Conversation {
    pub id: ConversationId,
    pub participants: Vec<UserId>,
}

/// The mathematical value of a [`Conversation`].
pub struct ConversationView {
    pub id: ConversationId,
    pub participants: Seq<UserId>,
}

impl View for Conversation {
    type V = ConversationView;

    open spec fn view(&self) -> ConversationView {
        ConversationView { id: self.id, participants: self.participants@ }
    }
}

impl Conversation {
    /// A conversation between `participants`, under a freshly drawn random
    /// identifier.
    pub fn new(participants: Vec<u128>) -> (conversation: Conversation)
        ensures
            conversation@.participants == participants@,
            is_random_uuid(conversation@.id),
    {
        let id = random_uuid();
        Conversation { id, participants }
    }

    /// Whether `user` takes part in the conversation.
    pub fn involves(&self, user: u128) -> (r: bool)
        ensures
            r == self@.participants.contains(user),
    {
        let mut i: usize = 0;
        while i < self.participants.len()
            invariant
                i <= self.participants.len(),
                forall|j: int| 0 <= j < i ==> self.participants@[j] != user,
            decreases self.participants.len() - i,
        {
            if self.participants[i] == user {
                return true;
            }
            i += 1;
        }
        false
    }
}

} // verus!
