//! The turn engine: one user input driven through model rounds and tool
//! rounds to a final answer or a classified failure.
//!
//! The engine is a state machine over plain values.  The caller that owns
//! the network performs each [`TurnAction`] (send the working context to
//! the backend, run the requested tools) and feeds the outcome back in as
//! the matching event; the engine decides everything else.  Its contracts
//! pin down the protocol: tool rounds are capped and ending the turn with
//! [`FailureKind::ToolLoopExceeded`] when the cap is hit, an upstream
//! failure on the primary path triggers exactly one history-less,
//! tool-less fallback round, and every event strictly decreases
//! [`TurnEngine::measure`], so a turn can never run forever.

use vstd::prelude::*;

use crate::completion::{ToolCall, ToolCallView, ToolResult, ToolResultView, WireMessage,
    WireMessageView};
use crate::message::{Message, MessageRole, MessageView};

verus! {

/// The failure classifications a turn can end with.
#[derive(Clone, Copy, PartialEq, Eq, Structural, Debug)]
pub enum FailureKind {
    /// The completion backend returned no usable reply, twice.
    UpstreamError,
    /// The bounded tool-round cap was hit; surfaced directly, not retried.
    ToolLoopExceeded,
}

/// The terminal value of one orchestration run.
#[derive(Debug)]
pub enum TurnOutcome {
    /// A final answer, with a note whether it came from the fallback
    /// round.
    Success { text: String, via_fallback: bool },
    /// A classified failure with detail for the caller to log.
    Failure { kind: FailureKind, detail: String },
}

/// Mathematical image of a [`TurnOutcome`].
#[verifier::ext_equal]
pub enum TurnOutcomeView {
    Success { text: Seq<char>, via_fallback: bool },
    Failure { kind: FailureKind, detail: Seq<char> },
}

impl View for TurnOutcome {
    type V = TurnOutcomeView;

    open spec fn view(&self) -> TurnOutcomeView {
        match self {
            TurnOutcome::Success { text, via_fallback } => TurnOutcomeView::Success {
                text: text@,
                via_fallback: *via_fallback,
            },
            TurnOutcome::Failure { kind, detail } => TurnOutcomeView::Failure {
                kind: *kind,
                detail: detail@,
            },
        }
    }
}

/// Where a turn stands.
#[derive(Clone, Copy, PartialEq, Eq, Structural, Debug)]
pub enum TurnPhase {
    /// A primary model round is in flight.
    AwaitingModel,
    /// A tool round is in flight; one result per pending call is owed.
    AwaitingTools,
    /// The single fallback model round is in flight.
    AwaitingFallback,
    /// The turn has ended.
    Done,
}

/// What the caller must do next.
#[derive(Debug)]
pub enum TurnAction {
    /// Send the engine's current messages to the backend, with or
    /// without the tool catalogue.
    CallModel { use_tools: bool },
    /// Run the engine's pending tool calls and feed back one result per
    /// call.
    RunTools,
    /// The turn is over; hand the outcome to the caller.
    Finish { outcome: TurnOutcome },
}

/// Mathematical image of a [`TurnAction`].
#[verifier::ext_equal]
pub enum TurnActionView {
    CallModel { use_tools: bool },
    RunTools,
    Finish { outcome: TurnOutcomeView },
}

impl View for TurnAction {
    type V = TurnActionView;

    open spec fn view(&self) -> TurnActionView {
        match self {
            TurnAction::CallModel { use_tools } => TurnActionView::CallModel {
                use_tools: *use_tools,
            },
            TurnAction::RunTools => TurnActionView::RunTools,
            TurnAction::Finish { outcome } => TurnActionView::Finish { outcome: outcome@ },
        }
    }
}

/// How one stored message is rendered to the backend.
pub open spec fn wire_of_message(m: MessageView) -> WireMessageView {
    match m.role {
        MessageRole::System => WireMessageView::System { content: m.content },
        MessageRole::User => WireMessageView::User { content: m.content },
        MessageRole::Assistant => WireMessageView::Assistant {
            content: m.content,
            tool_calls: Seq::empty(),
        },
    }
}

/// How a stored history is rendered to the backend, in order.
pub open spec fn wire_of_history(h: Seq<MessageView>) -> Seq<WireMessageView> {
    h.map_values(|m: MessageView| wire_of_message(m))
}

/// The working context of a fresh turn: the system prompt, the stored
/// history, then the new user input as the final message.
pub open spec fn context_messages(
    prompt: Seq<char>,
    h: Seq<MessageView>,
    input: Seq<char>,
) -> Seq<WireMessageView> {
    seq![WireMessageView::System { content: prompt }] + wire_of_history(h) + seq![
        WireMessageView::User { content: input },
    ]
}

/// The degraded context of the fallback round: only the plain system
/// prompt and the raw user input, no history, no tools.
pub open spec fn fallback_messages(prompt: Seq<char>, input: Seq<char>) -> Seq<WireMessageView> {
    seq![
        WireMessageView::System { content: prompt },
        WireMessageView::User { content: input },
    ]
}

/// One wire message per tool result, in order, addressed by call id.
pub open spec fn tool_messages_of(results: Seq<ToolResultView>) -> Seq<WireMessageView> {
    results.map_values(
        |r: ToolResultView| WireMessageView::Tool { call_id: r.call_id, content: r.output },
    )
}

/// An element-wise copy of a tool-call list, equal to the original in
/// view.
fn clone_tool_calls(v: &Vec<ToolCall>) -> (r: Vec<ToolCall>)
    ensures
        r@.map_values(|c: ToolCall| c@) == v@.map_values(|c: ToolCall| c@),
{
    let n = v.len();
    let mut r: Vec<ToolCall> = Vec::new();
    let mut i: usize = 0;
    while i < n
        invariant
            n == v@.len(),
            i <= n,
            r@.len() == i,
            forall|j: int| 0 <= j < i ==> (#[trigger] r@[j])@ == v@[j]@,
        decreases n - i,
    {
        let c = ToolCall {
            id: v[i].id.clone(),
            name: v[i].name.clone(),
            arguments: v[i].arguments.clone(),
        };
        r.push(c);
        i = i + 1;
    }
    proof {
        assert(r@.map_values(|c: ToolCall| c@) =~= v@.map_values(|c: ToolCall| c@));
    }
    r
}

/// The state machine of one turn.
#[derive(Debug)]
pub struct TurnEngine {
    max_tool_rounds: usize,
    tools_enabled: bool,
    system_prompt: String,
    user_input: String,
    messages: Vec<WireMessage>,
    pending: Vec<ToolCall>,
    rounds_used: usize,
    phase: TurnPhase,
    fallback_attempted: bool,
}

impl TurnEngine {
    /// Where the turn stands.
    pub closed spec fn phase(&self) -> TurnPhase {
        self.phase
    }

    /// How many tool rounds have been entered.
    pub closed spec fn rounds(&self) -> nat {
        self.rounds_used as nat
    }

    /// The configured cap on tool rounds.
    pub closed spec fn max_rounds(&self) -> nat {
        self.max_tool_rounds as nat
    }

    /// Whether a tool catalogue is configured for this turn.
    pub closed spec fn tools_on(&self) -> bool {
        self.tools_enabled
    }

    /// Whether the single fallback round has been started.
    pub closed spec fn fallback_attempted(&self) -> bool {
        self.fallback_attempted
    }

    /// The plain system prompt kept for the fallback round.
    pub closed spec fn prompt(&self) -> Seq<char> {
        self.system_prompt@
    }

    /// The raw user input kept for the fallback round.
    pub closed spec fn input(&self) -> Seq<char> {
        self.user_input@
    }

    /// The working context to send on the next model round.
    pub closed spec fn msgs(&self) -> Seq<WireMessageView> {
        self.messages@.map_values(|m: WireMessage| m@)
    }

    /// The tool calls whose results are owed before the next model
    /// round.
    pub closed spec fn pending_view(&self) -> Seq<ToolCallView> {
        self.pending@.map_values(|c: ToolCall| c@)
    }

    /// The engine never exceeds its round cap, only runs tool rounds
    /// when tools are on, and is in the fallback phase exactly after the
    /// one fallback attempt was started.
    pub open spec fn wf(&self) -> bool {
        &&& self.rounds() <= self.max_rounds()
        &&& (self.phase() == TurnPhase::AwaitingTools ==> self.tools_on())
        &&& (self.phase() == TurnPhase::AwaitingFallback ==> self.fallback_attempted())
        &&& (self.phase() == TurnPhase::AwaitingModel ==> !self.fallback_attempted())
        &&& (self.phase() == TurnPhase::AwaitingTools ==> !self.fallback_attempted())
    }

    /// A strictly decreasing bound on the events a turn can still
    /// accept.  Every transition lowers it, and it never goes below
    /// zero, so a turn terminates: it cannot hang in an endless tool
    /// loop.
    pub open spec fn measure(&self) -> int {
        if self.phase() == TurnPhase::Done {
            0
        } else {
            (self.max_rounds() - self.rounds()) * 2 + (match self.phase() {
                TurnPhase::AwaitingModel => 1int,
                TurnPhase::AwaitingTools => 2int,
                TurnPhase::AwaitingFallback => 1int,
                TurnPhase::Done => 0int,
            }) + (if self.fallback_attempted() {
                0int
            } else {
                1int
            })
        }
    }

    /// The measure is non-negative and bounded by the round cap: a turn
    /// accepts only finitely many events before it is done.
    pub proof fn lemma_measure_bounded(&self)
        requires
            self.wf(),
        ensures
            0 <= self.measure() <= 2 * self.max_rounds() + 3,
    {
    }

    /// Begins a turn: assembles the working context from the system
    /// prompt (the tool prompt when tools are on), the stored history
    /// and the new user input, and asks the caller for the first model
    /// round.
    pub fn start(
        system_prompt: &str,
        tool_system_prompt: &str,
        history: &Vec<Message>,
        user_input: &str,
        tools_enabled: bool,
        max_tool_rounds: usize,
    ) -> (r: (TurnEngine, TurnAction))
        ensures
            r.0.wf(),
            r.0.phase() == TurnPhase::AwaitingModel,
            r.0.rounds() == 0,
            !r.0.fallback_attempted(),
            r.0.tools_on() == tools_enabled,
            r.0.max_rounds() == max_tool_rounds as nat,
            r.0.prompt() == system_prompt@,
            r.0.input() == user_input@,
            r.0.msgs() == context_messages(
                if tools_enabled {
                    tool_system_prompt@
                } else {
                    system_prompt@
                },
                history@.map_values(|m: Message| m@),
                user_input@,
            ),
            r.1@ == (TurnActionView::CallModel { use_tools: tools_enabled }),
    {
        let active_prompt = if tools_enabled {
            tool_system_prompt
        } else {
            system_prompt
        };
        let mut messages: Vec<WireMessage> = Vec::new();
        messages.push(WireMessage::System { content: active_prompt.to_owned() });
        let ghost hv = history@.map_values(|m: Message| m@);
        let n = history.len();
        let mut i: usize = 0;
        while i < n
            invariant
                n == history@.len(),
                i <= n,
                hv == history@.map_values(|m: Message| m@),
                messages@.len() == i + 1,
                messages@[0]@ == (WireMessageView::System { content: active_prompt@ }),
                forall|j: int| 1 <= j < i + 1 ==> (#[trigger] messages@[j])@ == wire_of_message(
                    hv[j - 1],
                ),
            decreases n - i,
        {
            let msg = &history[i];
            let wire = match msg.role {
                MessageRole::System => WireMessage::System { content: msg.content.clone() },
                MessageRole::User => WireMessage::User { content: msg.content.clone() },
                MessageRole::Assistant => WireMessage::Assistant {
                    content: msg.content.clone(),
                    tool_calls: Vec::new(),
                },
            };
            let ghost wv = wire@;
            messages.push(wire);
            proof {
                assert(wv =~~= wire_of_message(hv[i as int]));
                assert(messages@[i as int + 1]@ == wire_of_message(hv[i as int]));
            }
            i = i + 1;
        }
        messages.push(WireMessage::User { content: user_input.to_owned() });
        let engine = TurnEngine {
            max_tool_rounds,
            tools_enabled,
            system_prompt: system_prompt.to_owned(),
            user_input: user_input.to_owned(),
            messages,
            pending: Vec::new(),
            rounds_used: 0,
            phase: TurnPhase::AwaitingModel,
            fallback_attempted: false,
        };
        proof {
            assert(engine.msgs() =~~= context_messages(
                if tools_enabled {
                    tool_system_prompt@
                } else {
                    system_prompt@
                },
                hv,
                user_input@,
            ));
            assert(engine.pending_view() =~= Seq::<ToolCallView>::empty());
        }
        (engine, TurnAction::CallModel { use_tools: tools_enabled })
    }

    /// The working context that the next `CallModel` action must send.
    pub fn current_messages(&self) -> (r: &Vec<WireMessage>)
        ensures
            r@.map_values(|m: WireMessage| m@) == self.msgs(),
    {
        &self.messages
    }

    /// The tool calls that the pending `RunTools` action must execute.
    pub fn pending_calls(&self) -> (r: &Vec<ToolCall>)
        ensures
            r@.map_values(|c: ToolCall| c@) == self.pending_view(),
    {
        &self.pending
    }

    /// The model answered with a final text (primary or fallback
    /// round): the turn succeeds with that text.
    pub fn on_model_final(&mut self, text: String) -> (action: TurnAction)
        requires
            old(self).wf(),
            old(self).phase() == TurnPhase::AwaitingModel || old(self).phase()
                == TurnPhase::AwaitingFallback,
        ensures
            final(self).wf(),
            final(self).phase() == TurnPhase::Done,
            final(self).measure() < old(self).measure(),
            action@ == (TurnActionView::Finish {
                outcome: TurnOutcomeView::Success {
                    text: text@,
                    via_fallback: old(self).phase() == TurnPhase::AwaitingFallback,
                },
            }),
    {
        let via_fallback = self.phase == TurnPhase::AwaitingFallback;
        self.phase = TurnPhase::Done;
        TurnAction::Finish { outcome: TurnOutcome::Success { text, via_fallback } }
    }

    /// The model requested tool invocations.  Within the cap this opens
    /// a tool round: the tool-call intent joins the working context (not
    /// the persisted memory) and the caller must run the tools.  At the
    /// cap the turn ends with `ToolLoopExceeded` — surfaced directly,
    /// never retried through the fallback.
    pub fn on_model_tools(&mut self, text: String, calls: Vec<ToolCall>) -> (action: TurnAction)
        requires
            old(self).wf(),
            old(self).phase() == TurnPhase::AwaitingModel,
            old(self).tools_on(),
        ensures
            final(self).wf(),
            final(self).measure() < old(self).measure(),
            old(self).rounds() == old(self).max_rounds() ==> (final(self).phase()
                == TurnPhase::Done && action@ == (TurnActionView::Finish {
                outcome: TurnOutcomeView::Failure {
                    kind: FailureKind::ToolLoopExceeded,
                    detail: "Tool call round limit exceeded"@,
                },
            })),
            old(self).rounds() < old(self).max_rounds() ==> (final(self).phase()
                == TurnPhase::AwaitingTools && final(self).rounds() == old(self).rounds() + 1
                && final(self).pending_view() == calls@.map_values(|c: ToolCall| c@)
                && final(self).msgs() == old(self).msgs().push(
                WireMessageView::Assistant {
                    content: text@,
                    tool_calls: calls@.map_values(|c: ToolCall| c@),
                },
            ) && final(self).max_rounds() == old(self).max_rounds() && final(self).prompt()
                == old(self).prompt() && final(self).input() == old(self).input() && action@
                == TurnActionView::RunTools),
    {
        if self.rounds_used == self.max_tool_rounds {
            self.phase = TurnPhase::Done;
            return TurnAction::Finish {
                outcome: TurnOutcome::Failure {
                    kind: FailureKind::ToolLoopExceeded,
                    detail: "Tool call round limit exceeded".to_owned(),
                },
            };
        }
        let ghost tv = text@;
        let ghost cv = calls@.map_values(|c: ToolCall| c@);
        let calls_copy = clone_tool_calls(&calls);
        self.messages.push(WireMessage::Assistant { content: text, tool_calls: calls_copy });
        self.pending = calls;
        self.rounds_used = self.rounds_used + 1;
        self.phase = TurnPhase::AwaitingTools;
        proof {
            assert(self.msgs() =~~= old(self).msgs().push(
                WireMessageView::Assistant { content: tv, tool_calls: cv },
            ));
        }
        TurnAction::RunTools
    }

    /// Every pending tool call got its result — exactly one per call
    /// id, in request order, failures encoded as text.  The results join
    /// the working context and the next model round is issued.
    pub fn on_tool_results(&mut self, results: Vec<ToolResult>) -> (action: TurnAction)
        requires
            old(self).wf(),
            old(self).phase() == TurnPhase::AwaitingTools,
            results@.len() == old(self).pending_view().len(),
            forall|i: int|
                0 <= i < results@.len() ==> (#[trigger] results@[i])@.call_id == old(
                    self,
                ).pending_view()[i].id,
        ensures
            final(self).wf(),
            final(self).measure() < old(self).measure(),
            final(self).phase() == TurnPhase::AwaitingModel,
            final(self).msgs() == old(self).msgs() + tool_messages_of(
                results@.map_values(|r: ToolResult| r@),
            ),
            final(self).pending_view().len() == 0,
            final(self).rounds() == old(self).rounds(),
            final(self).max_rounds() == old(self).max_rounds(),
            final(self).tools_on(),
            final(self).prompt() == old(self).prompt(),
            final(self).input() == old(self).input(),
            !final(self).fallback_attempted(),
            action@ == (TurnActionView::CallModel { use_tools: true }),
    {
        let ghost rv = results@.map_values(|r: ToolResult| r@);
        let n = results.len();
        let mut i: usize = 0;
        while i < n
            invariant
                n == rv.len(),
                i <= n,
                results@.map_values(|r: ToolResult| r@) == rv,
                self.messages@.len() == old(self).messages@.len() + i,
                forall|j: int|
                    0 <= j < old(self).messages@.len() ==> (#[trigger] self.messages@[j])
                        == old(self).messages@[j],
                forall|j: int|
                    old(self).messages@.len() <= j < self.messages@.len() ==> (
                    #[trigger] self.messages@[j])@ == (WireMessageView::Tool {
                        call_id: rv[j - old(self).messages@.len()].call_id,
                        content: rv[j - old(self).messages@.len()].output,
                    }),
                self.pending == old(self).pending,
                self.rounds_used == old(self).rounds_used,
                self.max_tool_rounds == old(self).max_tool_rounds,
                self.tools_enabled == old(self).tools_enabled,
                self.system_prompt == old(self).system_prompt,
                self.user_input == old(self).user_input,
                self.phase == old(self).phase,
                self.fallback_attempted == old(self).fallback_attempted,
            decreases n - i,
        {
            let call_id = results[i].call_id.clone();
            let content = results[i].output.clone();
            let ghost wv = WireMessageView::Tool { call_id: call_id@, content: content@ };
            self.messages.push(WireMessage::Tool { call_id, content });
            proof {
                assert(wv =~~= (WireMessageView::Tool {
                    call_id: rv[i as int].call_id,
                    content: rv[i as int].output,
                }));
            }
            i = i + 1;
        }
        self.pending.clear();
        self.phase = TurnPhase::AwaitingModel;
        proof {
            assert(self.msgs() =~~= old(self).msgs() + tool_messages_of(rv));
            assert(self.pending_view() =~= Seq::<ToolCallView>::empty());
        }
        TurnAction::CallModel { use_tools: true }
    }

    /// A model round failed upstream.  On the primary path this starts
    /// the one fallback round: a fresh, history-less, tool-less context
    /// of just the plain system prompt and the raw user input.  On the
    /// fallback path the turn fails with `UpstreamError` — there is no
    /// second retry.
    pub fn on_model_failed(&mut self, detail: String) -> (action: TurnAction)
        requires
            old(self).wf(),
            old(self).phase() == TurnPhase::AwaitingModel || old(self).phase()
                == TurnPhase::AwaitingFallback,
        ensures
            final(self).wf(),
            final(self).measure() < old(self).measure(),
            old(self).phase() == TurnPhase::AwaitingModel ==> (final(self).phase()
                == TurnPhase::AwaitingFallback && final(self).fallback_attempted()
                && final(self).msgs() == fallback_messages(old(self).prompt(), old(self).input()) && action@
                == (TurnActionView::CallModel { use_tools: false })),
            old(self).phase() == TurnPhase::AwaitingFallback ==> (final(self).phase()
                == TurnPhase::Done && action@ == (TurnActionView::Finish {
                outcome: TurnOutcomeView::Failure {
                    kind: FailureKind::UpstreamError,
                    detail: detail@,
                },
            })),
    {
        if self.phase == TurnPhase::AwaitingFallback {
            self.phase = TurnPhase::Done;
            return TurnAction::Finish {
                outcome: TurnOutcome::Failure { kind: FailureKind::UpstreamError, detail },
            };
        }
        self.messages.clear();
        self.messages.push(WireMessage::System { content: self.system_prompt.clone() });
        self.messages.push(WireMessage::User { content: self.user_input.clone() });
        self.phase = TurnPhase::AwaitingFallback;
        self.fallback_attempted = true;
        proof {
            assert(self.msgs() =~~= fallback_messages(old(self).prompt(), old(self).input()));
        }
        TurnAction::CallModel { use_tools: false }
    }
}

} // verus!
