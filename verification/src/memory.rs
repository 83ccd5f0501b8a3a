//! Bounded, ordered conversation history for one user.
//!
//! A memory holds at most `max_history` messages.  Appending to a full
//! memory evicts the oldest message first (FIFO), whatever its role; the
//! system prompt is never stored here, it is rebuilt for every turn.

use vstd::prelude::*;

use crate::message::{Message, MessageView};

verus! {

/// What a history looks like after one append under capacity `max`:
/// the new message goes to the back and, if the history would then be
/// oversized, the front is dropped.
pub open spec fn push_evict<T>(h: Seq<T>, m: T, max: nat) -> Seq<T> {
    retain(max, h.push(m))
}

/// The most recent `max` elements of `s`, in order.
pub open spec fn retain<T>(max: nat, s: Seq<T>) -> Seq<T> {
    if s.len() <= max {
        s
    } else {
        s.skip(s.len() - max)
    }
}

/// The history produced by appending `inserts` one by one, under
/// capacity `max`, starting from an empty history.
pub open spec fn replay<T>(max: nat, inserts: Seq<T>) -> Seq<T>
    decreases inserts.len(),
{
    if inserts.len() == 0 {
        Seq::empty()
    } else {
        push_evict(replay(max, inserts.drop_last()), inserts.last(), max)
    }
}

/// FIFO eviction law: after any sequence of appends, the history holds
/// exactly the most recent `max` insertions, in insertion order, and its
/// length never exceeds `max`.
pub proof fn lemma_fifo_eviction<T>(max: nat, inserts: Seq<T>)
    ensures
        replay(max, inserts) == retain(max, inserts),
        replay(max, inserts).len() <= max,
    decreases inserts.len(),
{
    if inserts.len() == 0 {
    } else {
        let dl = inserts.drop_last();
        lemma_fifo_eviction(max, dl);
        if dl.len() <= max {
            assert(dl.push(inserts.last()) =~= inserts);
            assert(replay(max, inserts) =~= retain(max, inserts));
        } else {
            let k = dl.len() - max;
            assert(retain(max, dl) == dl.skip(k));
            assert(dl.skip(k).push(inserts.last()) =~= inserts.skip(k));
            assert(replay(max, inserts) =~= retain(max, inserts));
        }
    }
}

/// Ordered history of one user's conversation, capped at `max_history`
/// messages.
#[derive(Debug)]
pub struct ConversationMemory {
    messages: Vec<Message>,
    max_history: usize,
}

impl View for ConversationMemory {
    type V = Seq<MessageView>;

    closed spec fn view(&self) -> Seq<MessageView> {
        self.messages@.map_values(|m: Message| m@)
    }
}

impl ConversationMemory {
    /// The bound the memory was created with.
    pub closed spec fn spec_max_history(&self) -> nat {
        self.max_history as nat
    }

    /// The memory never holds more than `max_history` messages.
    pub open spec fn wf(&self) -> bool {
        self@.len() <= self.spec_max_history()
    }

    /// A fresh, empty memory with capacity `max_history`.
    pub fn new(max_history: usize) -> (m: ConversationMemory)
        ensures
            m.wf(),
            m@ == Seq::<MessageView>::empty(),
            m.spec_max_history() == max_history as nat,
    {
        let m = ConversationMemory { messages: Vec::new(), max_history };
        proof {
            assert(m@ =~= Seq::<MessageView>::empty());
        }
        m
    }

    /// Appends one message, evicting the oldest first when the memory is
    /// full.  The bound is enforced atomically with the insertion: no
    /// state with more than `max_history` messages ever exists.
    pub fn add_message(&mut self, message: Message)
        requires
            old(self).wf(),
        ensures
            final(self).wf(),
            final(self)@ == push_evict(old(self)@, message@, old(self).spec_max_history()),
            final(self).spec_max_history() == old(self).spec_max_history(),
    {
        if self.max_history == 0 {
            proof {
                assert(self@ =~= push_evict(old(self)@, message@, old(self).spec_max_history()));
            }
            return ;
        }
        if self.messages.len() >= self.max_history {
            self.messages.remove(0);
        }
        self.messages.push(message);
        proof {
            assert(self@ =~= push_evict(old(self)@, message@, old(self).spec_max_history()));
        }
    }

    /// Drops every stored message; the capacity is kept.
    pub fn clear(&mut self)
        ensures
            final(self).wf(),
            final(self)@ == Seq::<MessageView>::empty(),
            final(self).spec_max_history() == old(self).spec_max_history(),
    {
        self.messages.clear();
        proof {
            assert(self@ =~= Seq::<MessageView>::empty());
        }
    }

    /// The stored messages, oldest first.
    pub fn get_messages(&self) -> (r: &Vec<Message>)
        ensures
            r@.map_values(|m: Message| m@) == self@,
    {
        &self.messages
    }

    /// How many messages are stored.
    pub fn len(&self) -> (n: usize)
        ensures
            n as nat == self@.len(),
    {
        self.messages.len()
    }
}

} // verus!
