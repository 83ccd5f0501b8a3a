//! Keyed store of per-user conversation memories.
//!
//! The store owns every user's [`ConversationMemory`], creating one lazily
//! on first contact and clearing it on request.  Its mathematical image is
//! a map from user id to that user's capacity and history, so every
//! operation states exactly which user's entry changes and that all other
//! entries stay as they were.  The mutual exclusion that guards the store
//! against concurrent turns is supplied by the caller that owns it; the
//! operations themselves are total and never panic.

use vstd::prelude::*;

use crate::memory::{push_evict, ConversationMemory};
use crate::message::{Message, MessageView};

verus! {

/// The image of one user's memory: its capacity and its messages.
#[verifier::ext_equal]
pub struct UserMemoryView {
    pub max_history: nat,
    pub messages: Seq<MessageView>,
}

/// One user's entry in the store.
#[derive(Debug)]
struct StoreEntry {
    user_id: String,
    memory: ConversationMemory,
}

impl StoreEntry {
    spec fn snap(&self) -> UserMemoryView {
        UserMemoryView { max_history: self.memory.spec_max_history(), messages: self.memory@ }
    }
}

/// The map image of a sequence of entries; a later entry for the same id
/// would win, though well-formed stores never hold two.
spec fn as_map(entries: Seq<StoreEntry>) -> Map<Seq<char>, UserMemoryView>
    decreases entries.len(),
{
    if entries.len() == 0 {
        Map::empty()
    } else {
        as_map(entries.drop_last()).insert(
            entries.last().user_id@,
            entries.last().snap(),
        )
    }
}

proof fn lemma_as_map_contains(entries: Seq<StoreEntry>, id: Seq<char>)
    ensures
        as_map(entries).dom().contains(id) <==> exists|i: int|
            0 <= i < entries.len() && entries[i].user_id@ == id,
    decreases entries.len(),
{
    if entries.len() == 0 {
    } else {
        let dl = entries.drop_last();
        lemma_as_map_contains(dl, id);
        if as_map(entries).dom().contains(id) {
            if entries.last().user_id@ == id {
                assert(entries[entries.len() - 1].user_id@ == id);
            } else {
                let i = choose|i: int| 0 <= i < dl.len() && dl[i].user_id@ == id;
                assert(entries[i].user_id@ == id);
            }
        }
        if exists|i: int| 0 <= i < entries.len() && entries[i].user_id@ == id {
            let i = choose|i: int| 0 <= i < entries.len() && entries[i].user_id@ == id;
            if i < entries.len() - 1 {
                assert(dl[i].user_id@ == id);
            }
        }
    }
}

proof fn lemma_as_map_index(entries: Seq<StoreEntry>, i: int)
    requires
        0 <= i < entries.len(),
        forall|p: int, q: int|
            0 <= p < q < entries.len() ==> entries[p].user_id@ != entries[q].user_id@,
    ensures
        as_map(entries).dom().contains(entries[i].user_id@),
        as_map(entries)[entries[i].user_id@] == entries[i].snap(),
    decreases entries.len(),
{
    let id = entries[i].user_id@;
    if i == entries.len() - 1 {
        lemma_as_map_contains(entries, id);
    } else {
        let dl = entries.drop_last();
        assert(entries.last().user_id@ != id);
        lemma_as_map_index(dl, i);
    }
}

proof fn lemma_as_map_update(entries: Seq<StoreEntry>, i: int, e: StoreEntry)
    requires
        0 <= i < entries.len(),
        forall|p: int, q: int|
            0 <= p < q < entries.len() ==> entries[p].user_id@ != entries[q].user_id@,
        e.user_id@ == entries[i].user_id@,
    ensures
        as_map(entries.update(i, e)) == as_map(entries).insert(e.user_id@, e.snap()),
    decreases entries.len(),
{
    let id = e.user_id@;
    if i == entries.len() - 1 {
        assert(entries.update(i, e).drop_last() =~= entries.drop_last());
        assert(as_map(entries.update(i, e)) =~= as_map(entries).insert(id, e.snap()));
    } else {
        let dl = entries.drop_last();
        lemma_as_map_update(dl, i, e);
        assert(entries.update(i, e).drop_last() =~= dl.update(i, e));
        assert(entries.update(i, e).last() == entries.last());
        assert(entries.last().user_id@ != id);
        assert(as_map(entries.update(i, e)) =~= as_map(entries).insert(id, e.snap()));
    }
}

proof fn lemma_as_map_dom_len(entries: Seq<StoreEntry>)
    requires
        forall|p: int, q: int|
            0 <= p < q < entries.len() ==> entries[p].user_id@ != entries[q].user_id@,
    ensures
        as_map(entries).dom().finite(),
        as_map(entries).dom().len() == entries.len(),
    decreases entries.len(),
{
    if entries.len() == 0 {
        assert(as_map(entries).dom() =~= Set::<Seq<char>>::empty());
    } else {
        let dl = entries.drop_last();
        lemma_as_map_dom_len(dl);
        lemma_as_map_contains(dl, entries.last().user_id@);
        assert(!as_map(dl).dom().contains(entries.last().user_id@));
        assert(as_map(entries).dom() =~= as_map(dl).dom().insert(entries.last().user_id@));
    }
}

/// A store map after making sure `id` has a memory: untouched when one
/// is there, extended by a fresh empty memory of capacity `max`
/// otherwise.
pub open spec fn created(
    m: Map<Seq<char>, UserMemoryView>,
    id: Seq<char>,
    max: nat,
) -> Map<Seq<char>, UserMemoryView> {
    if m.dom().contains(id) {
        m
    } else {
        m.insert(id, UserMemoryView { max_history: max, messages: Seq::<MessageView>::empty() })
    }
}

/// Lazy creation is idempotent: once a user has a memory, creating
/// again — under any capacity — changes nothing, so however many
/// callers race to first contact, they all end on the one shared entry.
pub proof fn lemma_creation_idempotent(
    m: Map<Seq<char>, UserMemoryView>,
    id: Seq<char>,
    max1: nat,
    max2: nat,
)
    ensures
        created(created(m, id, max1), id, max2) == created(m, id, max1),
        created(m, id, max1).dom().contains(id),
{
}

/// The store: a map from user id to that user's bounded memory.
#[derive(Debug)]
pub struct ConversationStore {
    entries: Vec<StoreEntry>,
}

impl View for ConversationStore {
    type V = Map<Seq<char>, UserMemoryView>;

    closed spec fn view(&self) -> Map<Seq<char>, UserMemoryView> {
        as_map(self.entries@)
    }
}

impl ConversationStore {
    /// No two entries share a user id, and every memory is within its
    /// bound.
    pub closed spec fn wf(&self) -> bool {
        &&& forall|p: int, q: int|
            0 <= p < q < self.entries@.len() ==> self.entries@[p].user_id@
                != self.entries@[q].user_id@
        &&& forall|i: int| 0 <= i < self.entries@.len() ==> (#[trigger] self.entries@[i]).memory.wf()
    }

    /// Whether the user has a memory yet.
    pub open spec fn has_user(&self, id: Seq<char>) -> bool {
        self@.dom().contains(id)
    }

    /// The stored history of a known user.
    pub open spec fn history_of(&self, id: Seq<char>) -> Seq<MessageView> {
        self@[id].messages
    }

    /// An empty store.
    pub fn new() -> (s: ConversationStore)
        ensures
            s.wf(),
            s@ == Map::<Seq<char>, UserMemoryView>::empty(),
    {
        ConversationStore { entries: Vec::new() }
    }

    /// The index of the user's entry, if there is one.
    fn find(&self, key: &String) -> (r: Option<usize>)
        ensures
            match r {
                Some(i) => i < self.entries@.len() && self.entries@[i as int].user_id@ == key@,
                None => forall|j: int|
                    0 <= j < self.entries@.len() ==> (#[trigger] self.entries@[j]).user_id@
                        != key@,
            },
    {
        let n = self.entries.len();
        let mut i: usize = 0;
        while i < n
            invariant
                n == self.entries@.len(),
                i <= n,
                forall|j: int| 0 <= j < i ==> (#[trigger] self.entries@[j]).user_id@ != key@,
            decreases n - i,
        {
            if self.entries[i].user_id == *key {
                return Some(i);
            }
            i = i + 1;
        }
        None
    }

    /// Makes sure the user has a memory, creating an empty one with
    /// capacity `max_history` on first contact.  Creation is idempotent:
    /// for a user that already has a memory the store is left exactly as
    /// it was, so repeated calls all land on the one shared entry.
    pub fn get_or_create(&mut self, user_id: &str, max_history: usize)
        requires
            old(self).wf(),
        ensures
            final(self).wf(),
            final(self)@ == created(old(self)@, user_id@, max_history as nat),
            old(self).has_user(user_id@) ==> final(self)@ == old(self)@,
            final(self).has_user(user_id@),
    {
        let key: String = user_id.to_owned();
        proof {
            lemma_as_map_contains(self.entries@, key@);
        }
        match self.find(&key) {
            Some(_) => {
            }
            None => {
                let memory = ConversationMemory::new(max_history);
                let entry = StoreEntry { user_id: key, memory };
                self.entries.push(entry);
                proof {
                    assert(self.entries@.drop_last() =~= old(self).entries@);
                }
            }
        }
        proof {
            lemma_as_map_contains(self.entries@, user_id@);
        }
    }

    /// Appends one message to a known user's memory, under that memory's
    /// FIFO bound.  A user without a memory is left alone, and so is
    /// every other user's entry.
    pub fn append(&mut self, user_id: &str, message: Message)
        requires
            old(self).wf(),
        ensures
            final(self).wf(),
            !old(self).has_user(user_id@) ==> final(self)@ == old(self)@,
            old(self).has_user(user_id@) ==> final(self)@ == old(self)@.insert(
                user_id@,
                UserMemoryView {
                    max_history: old(self)@[user_id@].max_history,
                    messages: push_evict(
                        old(self).history_of(user_id@),
                        message@,
                        old(self)@[user_id@].max_history,
                    ),
                },
            ),
    {
        let key: String = user_id.to_owned();
        proof {
            lemma_as_map_contains(self.entries@, key@);
        }
        match self.find(&key) {
            Some(i) => {
                proof {
                    lemma_as_map_index(self.entries@, i as int);
                }
                self.entries[i].memory.add_message(message);
                proof {
                    assert(self.entries@ =~= old(self).entries@.update(
                        i as int,
                        self.entries@[i as int],
                    ));
                    lemma_as_map_update(
                        old(self).entries@,
                        i as int,
                        self.entries@[i as int],
                    );
                }
            }
            None => {
            }
        }
    }

    /// Empties a known user's memory; its capacity and entry remain.  For
    /// an unknown user this is a no-op, not an error.
    pub fn clear(&mut self, user_id: &str)
        requires
            old(self).wf(),
        ensures
            final(self).wf(),
            !old(self).has_user(user_id@) ==> final(self)@ == old(self)@,
            old(self).has_user(user_id@) ==> final(self)@ == old(self)@.insert(
                user_id@,
                UserMemoryView {
                    max_history: old(self)@[user_id@].max_history,
                    messages: Seq::<MessageView>::empty(),
                },
            ),
    {
        let key: String = user_id.to_owned();
        proof {
            lemma_as_map_contains(self.entries@, key@);
        }
        match self.find(&key) {
            Some(i) => {
                proof {
                    lemma_as_map_index(self.entries@, i as int);
                }
                self.entries[i].memory.clear();
                proof {
                    assert(self.entries@ =~= old(self).entries@.update(
                        i as int,
                        self.entries@[i as int],
                    ));
                    lemma_as_map_update(
                        old(self).entries@,
                        i as int,
                        self.entries@[i as int],
                    );
                }
            }
            None => {
            }
        }
    }

    /// Removes every user's memory.
    pub fn clear_all(&mut self)
        ensures
            final(self).wf(),
            final(self)@ == Map::<Seq<char>, UserMemoryView>::empty(),
    {
        self.entries.clear();
    }

    /// A copy of a user's stored history, oldest first, or `None` for a
    /// user without a memory.
    pub fn snapshot(&self, user_id: &str) -> (r: Option<Vec<Message>>)
        requires
            self.wf(),
        ensures
            r.is_some() == self.has_user(user_id@),
            r matches Some(v) ==> v@.map_values(|m: Message| m@) == self.history_of(user_id@),
    {
        let key: String = user_id.to_owned();
        proof {
            lemma_as_map_contains(self.entries@, key@);
        }
        match self.find(&key) {
            Some(i) => {
                proof {
                    lemma_as_map_index(self.entries@, i as int);
                }
                Some(clone_messages(self.entries[i].memory.get_messages()))
            }
            None => None,
        }
    }

    /// How many users have a memory.
    pub fn active_count(&self) -> (n: usize)
        requires
            self.wf(),
        ensures
            n as nat == self@.dom().len(),
    {
        proof {
            lemma_as_map_dom_len(self.entries@);
        }
        self.entries.len()
    }
}

/// An element-wise copy of a message list, equal to the original in view.
fn clone_messages(v: &Vec<Message>) -> (r: Vec<Message>)
    ensures
        r@.map_values(|m: Message| m@) == v@.map_values(|m: Message| m@),
{
    let n = v.len();
    let mut r: Vec<Message> = Vec::new();
    let mut i: usize = 0;
    while i < n
        invariant
            n == v@.len(),
            i <= n,
            r@.len() == i,
            forall|j: int| 0 <= j < i ==> (#[trigger] r@[j])@ == v@[j]@,
        decreases n - i,
    {
        let m = Message { role: v[i].role, content: v[i].content.clone() };
        r.push(m);
        i = i + 1;
    }
    proof {
        assert(r@.map_values(|m: Message| m@) =~= v@.map_values(|m: Message| m@));
    }
    r
}

} // verus!
