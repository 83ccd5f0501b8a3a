//! The agent: per-user conversation state plus the entry points of a
//! turn.
//!
//! The agent owns the conversation store and the prompts.  A turn is
//! driven by the caller: `begin_turn` reads (or lazily creates) the
//! user's memory, records the user input, and hands back a
//! [`TurnEngine`] primed with the assembled context; when the engine
//! finishes, `finish_turn` persists the final answer.  Only the user
//! input and the final answer survive into long-lived memory —
//! tool-round intermediates never do.  Administrative operations
//! (clearing histories, swapping the prompt, counting conversations)
//! are first-class operations here.

use vstd::prelude::*;
use vstd::string::StringExecFns;

use crate::chat::ChatService;
use crate::completion::WireMessage;
use crate::engine::{context_messages, fallback_messages, TurnAction, TurnActionView, TurnEngine,
    TurnOutcome, TurnPhase};
use crate::error::AppError;
use crate::memory::push_evict;
use crate::message::{Message, MessageRole, MessageView};
use crate::store::{created, ConversationStore, UserMemoryView};

verus! {

/// How many messages a fresh memory retains unless configured
/// otherwise.
pub const DEFAULT_MAX_HISTORY: usize = 20;

/// How many tool rounds one turn may run unless configured otherwise.
pub const DEFAULT_MAX_TOOL_ROUNDS: usize = 10;

/// The stored history a turn starts from: the user's messages, or none
/// for a first contact.
pub open spec fn prior_history(
    m: Map<Seq<char>, UserMemoryView>,
    id: Seq<char>,
) -> Seq<MessageView> {
    if m.dom().contains(id) {
        m[id].messages
    } else {
        Seq::empty()
    }
}

/// The store after a turn began for `id` with input `content`: the
/// user's memory exists (created with capacity `default_max` on first
/// contact) and holds the user message as its newest entry; every other
/// entry is untouched.
pub open spec fn store_after_begin(
    m: Map<Seq<char>, UserMemoryView>,
    id: Seq<char>,
    content: Seq<char>,
    default_max: nat,
) -> Map<Seq<char>, UserMemoryView> {
    let m1 = created(m, id, default_max);
    m1.insert(
        id,
        UserMemoryView {
            max_history: m1[id].max_history,
            messages: push_evict(
                m1[id].messages,
                MessageView { role: MessageRole::User, content },
                m1[id].max_history,
            ),
        },
    )
}

/// The conversational agent: prompts, per-user memories, and turn
/// policy.
#[derive(Debug)]
pub struct Agent {
    chat_service: ChatService,
    conversations: ConversationStore,
    max_history: usize,
    max_tool_rounds: usize,
}

impl Agent {
    /// The per-user history bound used for newly created memories.
    pub closed spec fn spec_max_history(&self) -> nat {
        self.max_history as nat
    }

    /// The tool-round cap handed to every turn.
    pub closed spec fn spec_max_tool_rounds(&self) -> nat {
        self.max_tool_rounds as nat
    }

    /// The plain system prompt.
    pub closed spec fn sys_prompt(&self) -> Seq<char> {
        self.chat_service.spec_system_prompt()
    }

    /// The system prompt of tool-enabled turns.
    pub closed spec fn tool_prompt(&self) -> Seq<char> {
        self.chat_service.spec_tool_system_prompt()
    }

    /// The map image of the conversation store.
    pub closed spec fn store_view(&self) -> Map<Seq<char>, UserMemoryView> {
        self.conversations@
    }

    /// The store is well-formed.
    pub closed spec fn wf(&self) -> bool {
        self.conversations.wf()
    }

    /// A fresh agent with the given system prompt, an empty store, and
    /// the default history bound and tool-round cap.
    pub fn new(system_prompt: String) -> (r: Agent)
        ensures
            r.wf(),
            r.store_view() == Map::<Seq<char>, UserMemoryView>::empty(),
            r.spec_max_history() == DEFAULT_MAX_HISTORY as nat,
            r.spec_max_tool_rounds() == DEFAULT_MAX_TOOL_ROUNDS as nat,
            r.sys_prompt() == system_prompt@,
    {
        Agent {
            chat_service: ChatService::new(system_prompt),
            conversations: ConversationStore::new(),
            max_history: DEFAULT_MAX_HISTORY,
            max_tool_rounds: DEFAULT_MAX_TOOL_ROUNDS,
        }
    }

    /// The same agent with another history bound for memories created
    /// from now on.
    pub fn with_max_history(self, max: usize) -> (r: Agent)
        ensures
            r.spec_max_history() == max as nat,
            r.spec_max_tool_rounds() == self.spec_max_tool_rounds(),
            r.store_view() == self.store_view(),
            r.sys_prompt() == self.sys_prompt(),
            r.tool_prompt() == self.tool_prompt(),
            self.wf() ==> r.wf(),
    {
        Agent { max_history: max, ..self }
    }

    /// The same agent with another tool-round cap for turns begun from
    /// now on.
    pub fn with_max_tool_rounds(self, max: usize) -> (r: Agent)
        ensures
            r.spec_max_tool_rounds() == max as nat,
            r.spec_max_history() == self.spec_max_history(),
            r.store_view() == self.store_view(),
            r.sys_prompt() == self.sys_prompt(),
            r.tool_prompt() == self.tool_prompt(),
            self.wf() ==> r.wf(),
    {
        Agent { max_tool_rounds: max, ..self }
    }

    /// Replaces the system prompt used by all subsequent turns; no
    /// stored history changes.
    pub fn update_system_prompt(&mut self, new_prompt: String)
        ensures
            final(self).sys_prompt() == new_prompt@,
            final(self).tool_prompt() == old(self).tool_prompt(),
            final(self).store_view() == old(self).store_view(),
            final(self).spec_max_history() == old(self).spec_max_history(),
            final(self).spec_max_tool_rounds() == old(self).spec_max_tool_rounds(),
            old(self).wf() ==> final(self).wf(),
    {
        self.chat_service.update_system_prompt(new_prompt);
    }

    /// Begins a turn: makes sure the user has a memory, snapshots its
    /// history, records the new user input, and returns an engine primed
    /// with the assembled context together with the first action.
    pub fn begin_turn(&mut self, user_id: &str, content: &str, use_tools: bool) -> (r: (
        TurnEngine,
        TurnAction,
    ))
        requires
            old(self).wf(),
        ensures
            final(self).wf(),
            final(self).store_view() == store_after_begin(
                old(self).store_view(),
                user_id@,
                content@,
                old(self).spec_max_history(),
            ),
            final(self).sys_prompt() == old(self).sys_prompt(),
            final(self).tool_prompt() == old(self).tool_prompt(),
            final(self).spec_max_history() == old(self).spec_max_history(),
            final(self).spec_max_tool_rounds() == old(self).spec_max_tool_rounds(),
            r.0.wf(),
            r.0.phase() == TurnPhase::AwaitingModel,
            r.0.rounds() == 0,
            !r.0.fallback_attempted(),
            r.0.tools_on() == use_tools,
            r.0.max_rounds() == old(self).spec_max_tool_rounds(),
            r.0.prompt() == old(self).sys_prompt(),
            r.0.input() == content@,
            r.0.msgs() == context_messages(
                if use_tools {
                    old(self).tool_prompt()
                } else {
                    old(self).sys_prompt()
                },
                prior_history(old(self).store_view(), user_id@),
                content@,
            ),
            r.1@ == (TurnActionView::CallModel { use_tools: use_tools }),
    {
        self.conversations.get_or_create(user_id, self.max_history);
        let prior: Vec<Message> = match self.conversations.snapshot(user_id) {
            Some(v) => v,
            None => Vec::new(),
        };
        self.conversations.append(
            user_id,
            Message::new(MessageRole::User, content.to_owned()),
        );
        TurnEngine::start(
            self.chat_service.system_prompt(),
            self.chat_service.tool_system_prompt(),
            &prior,
            content,
            use_tools,
            self.max_tool_rounds,
        )
    }

    /// Ends a turn: on success the final answer is persisted to the
    /// user's memory (following the user input recorded by
    /// `begin_turn`), whether it came from the primary path or the
    /// fallback; on failure nothing more is stored.
    pub fn finish_turn(&mut self, user_id: &str, outcome: &TurnOutcome)
        requires
            old(self).wf(),
        ensures
            final(self).wf(),
            final(self).sys_prompt() == old(self).sys_prompt(),
            final(self).tool_prompt() == old(self).tool_prompt(),
            final(self).spec_max_history() == old(self).spec_max_history(),
            final(self).spec_max_tool_rounds() == old(self).spec_max_tool_rounds(),
            outcome matches TurnOutcome::Failure { .. } ==> final(self).store_view() == old(
                self,
            ).store_view(),
            outcome matches TurnOutcome::Success { text, .. } ==> (if old(
                self,
            ).store_view().dom().contains(user_id@) {
                final(self).store_view() == old(self).store_view().insert(
                    user_id@,
                    UserMemoryView {
                        max_history: old(self).store_view()[user_id@].max_history,
                        messages: push_evict(
                            old(self).store_view()[user_id@].messages,
                            MessageView { role: MessageRole::Assistant, content: text@ },
                            old(self).store_view()[user_id@].max_history,
                        ),
                    },
                )
            } else {
                final(self).store_view() == old(self).store_view()
            }),
    {
        match outcome {
            TurnOutcome::Success { text, .. } => {
                self.conversations.append(
                    user_id,
                    Message::new(MessageRole::Assistant, text.clone()),
                );
            }
            TurnOutcome::Failure { .. } => {
            }
        }
    }

    /// The context for a stateless one-shot request that bypasses
    /// memory and tools.
    pub fn simple_messages(&self, content: &str) -> (r: Vec<WireMessage>)
        ensures
            r@.map_values(|m: WireMessage| m@) == fallback_messages(self.sys_prompt(), content@),
    {
        self.chat_service.single_chat_messages(content)
    }

    /// Empties a user's stored history.  For a user without one this is
    /// a no-op and still succeeds: it never errs.
    pub fn clear_history(&mut self, user_id: &str) -> (r: Result<(), AppError>)
        requires
            old(self).wf(),
        ensures
            final(self).wf(),
            r is Ok,
            !old(self).store_view().dom().contains(user_id@) ==> final(self).store_view() == old(
                self,
            ).store_view(),
            old(self).store_view().dom().contains(user_id@) ==> final(self).store_view() == old(
                self,
            ).store_view().insert(
                user_id@,
                UserMemoryView {
                    max_history: old(self).store_view()[user_id@].max_history,
                    messages: Seq::<MessageView>::empty(),
                },
            ),
            final(self).sys_prompt() == old(self).sys_prompt(),
            final(self).spec_max_history() == old(self).spec_max_history(),
    {
        self.conversations.clear(user_id);
        Ok(())
    }

    /// Removes every user's stored history.
    pub fn clear_all_histories(&mut self) -> (r: Result<(), AppError>)
        ensures
            final(self).wf(),
            r is Ok,
            final(self).store_view() == Map::<Seq<char>, UserMemoryView>::empty(),
            final(self).sys_prompt() == old(self).sys_prompt(),
            final(self).spec_max_history() == old(self).spec_max_history(),
    {
        self.conversations.clear_all();
        Ok(())
    }

    /// A copy of a user's stored history, oldest first, or `None` for a
    /// user without one.
    pub fn get_history(&self, user_id: &str) -> (r: Option<Vec<Message>>)
        requires
            self.wf(),
        ensures
            r.is_some() == self.store_view().dom().contains(user_id@),
            r matches Some(v) ==> v@.map_values(|m: Message| m@)
                == self.store_view()[user_id@].messages,
    {
        self.conversations.snapshot(user_id)
    }

    /// How many users currently have a stored conversation.
    pub fn active_conversations_count(&self) -> (n: usize)
        requires
            self.wf(),
        ensures
            n as nat == self.store_view().dom().len(),
    {
        self.conversations.active_count()
    }
}

} // verus!
