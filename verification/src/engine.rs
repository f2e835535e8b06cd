//! The agentic loop engine: a state machine that drives the turn-based
//! conversation between the model capability and the tool registry.
//!
//! The engine owns the message history and all decisions: when to
//! summarize, what to do with a model answer, how often a failing tool is
//! retried, what is appended to history and in what order, and which
//! lifecycle events are emitted.  The embedding application performs the
//! suspending work — the model call, the tool call, the summarization call
//! — and feeds the outcome back as one `LoopEvent` per `LoopAction`.
//!
//! Every transition is stated by `spec_step`, a mathematical transition
//! function over views; message views are compared with their timestamps
//! wiped, since the clock stamps are the only part of a message the engine
//! does not determine.

use vstd::prelude::*;

use crate::chat::{Message, MessageV, Role, ToolCall, ToolCallV, ToolResult, ToolResultV};
use crate::context::ContextManager;

verus! {

/// One tool call the model asked for, as shown in a `ToolPlanned` event.
pub struct PlannedTool {
    pub name: String,
    pub params_json: String,
}

/// The mathematical view of a planned tool.
pub struct PlannedToolV {
    pub name: Seq<char>,
    pub params_json: Seq<char>,
}

impl DeepView for PlannedTool {
    type V = PlannedToolV;

    open spec fn deep_view(&self) -> PlannedToolV {
        PlannedToolV { name: self.name@, params_json: self.params_json@ }
    }
}

/// One lifecycle event of the loop, for observers.  All fields are plain
/// values, so the stream can be serialized for another process.
pub enum AgentUpdate {
    BeginTurn {
        conversation_id: Option<String>,
        turn_id: String,
        iteration: u32,
        plan_summary: Option<String>,
    },
    AssistantDelta { turn_id: String, text_chunk: String, seq_no: u64 },
    AssistantComplete { turn_id: String, full_text: String },
    ToolPlanned { turn_id: String, plan_items: Vec<PlannedTool> },
    ToolStarted { turn_id: String, tool_call_id: String, name: String, params_json: String },
    ToolResult { turn_id: String, tool_call_id: String, name: String, result_json: String },
    ToolError { turn_id: String, tool_call_id: String, name: String, error: String, retryable: bool },
    EndTurn { turn_id: String },
    EndConversation { final_text: String },
    ModelError { turn_id: String, error: String },
    ContextSummarized { turn_id: String, old_count: usize, new_count: usize, tokens_saved: u32 },
    Heartbeat { turn_id: String, ts_ms: i64 },
}

/// The mathematical view of a lifecycle event.
pub enum AgentUpdateV {
    BeginTurn {
        conversation_id: Option<Seq<char>>,
        turn_id: Seq<char>,
        iteration: u32,
        plan_summary: Option<Seq<char>>,
    },
    AssistantDelta { turn_id: Seq<char>, text_chunk: Seq<char>, seq_no: u64 },
    AssistantComplete { turn_id: Seq<char>, full_text: Seq<char> },
    ToolPlanned { turn_id: Seq<char>, plan_items: Seq<PlannedToolV> },
    ToolStarted { turn_id: Seq<char>, tool_call_id: Seq<char>, name: Seq<char>, params_json: Seq<char> },
    ToolResult { turn_id: Seq<char>, tool_call_id: Seq<char>, name: Seq<char>, result_json: Seq<char> },
    ToolError {
        turn_id: Seq<char>,
        tool_call_id: Seq<char>,
        name: Seq<char>,
        error: Seq<char>,
        retryable: bool,
    },
    EndTurn { turn_id: Seq<char> },
    EndConversation { final_text: Seq<char> },
    ModelError { turn_id: Seq<char>, error: Seq<char> },
    ContextSummarized { turn_id: Seq<char>, old_count: usize, new_count: usize, tokens_saved: u32 },
    Heartbeat { turn_id: Seq<char>, ts_ms: i64 },
}

impl DeepView for AgentUpdate {
    type V = AgentUpdateV;

    open spec fn deep_view(&self) -> AgentUpdateV {
        match self {
            AgentUpdate::BeginTurn { conversation_id, turn_id, iteration, plan_summary } => AgentUpdateV::BeginTurn {
                conversation_id: match conversation_id {
                    Some(c) => Some(c@),
                    None => None,
                },
                turn_id: turn_id@,
                iteration: *iteration,
                plan_summary: match plan_summary {
                    Some(p) => Some(p@),
                    None => None,
                },
            },
            AgentUpdate::AssistantDelta { turn_id, text_chunk, seq_no } => AgentUpdateV::AssistantDelta {
                turn_id: turn_id@,
                text_chunk: text_chunk@,
                seq_no: *seq_no,
            },
            AgentUpdate::AssistantComplete { turn_id, full_text } => AgentUpdateV::AssistantComplete {
                turn_id: turn_id@,
                full_text: full_text@,
            },
            AgentUpdate::ToolPlanned { turn_id, plan_items } => AgentUpdateV::ToolPlanned {
                turn_id: turn_id@,
                plan_items: plan_items.deep_view(),
            },
            AgentUpdate::ToolStarted { turn_id, tool_call_id, name, params_json } => AgentUpdateV::ToolStarted {
                turn_id: turn_id@,
                tool_call_id: tool_call_id@,
                name: name@,
                params_json: params_json@,
            },
            AgentUpdate::ToolResult { turn_id, tool_call_id, name, result_json } => AgentUpdateV::ToolResult {
                turn_id: turn_id@,
                tool_call_id: tool_call_id@,
                name: name@,
                result_json: result_json@,
            },
            AgentUpdate::ToolError { turn_id, tool_call_id, name, error, retryable } => AgentUpdateV::ToolError {
                turn_id: turn_id@,
                tool_call_id: tool_call_id@,
                name: name@,
                error: error@,
                retryable: *retryable,
            },
            AgentUpdate::EndTurn { turn_id } => AgentUpdateV::EndTurn { turn_id: turn_id@ },
            AgentUpdate::EndConversation { final_text } => AgentUpdateV::EndConversation {
                final_text: final_text@,
            },
            AgentUpdate::ModelError { turn_id, error } => AgentUpdateV::ModelError {
                turn_id: turn_id@,
                error: error@,
            },
            AgentUpdate::ContextSummarized { turn_id, old_count, new_count, tokens_saved } => AgentUpdateV::ContextSummarized {
                turn_id: turn_id@,
                old_count: *old_count,
                new_count: *new_count,
                tokens_saved: *tokens_saved,
            },
            AgentUpdate::Heartbeat { turn_id, ts_ms } => AgentUpdateV::Heartbeat {
                turn_id: turn_id@,
                ts_ms: *ts_ms,
            },
        }
    }
}

/// What the embedding application reports back to the engine: the outcome
/// of the one action it was asked to perform.
pub enum LoopEvent {
    /// The model answered.
    ModelResponded { content: String, tool_calls: Vec<ToolCall> },
    /// The model call failed; fatal for this conversation.
    ModelFailed { error: String },
    /// The summarization call came back with the summary text.
    SummaryReady { summary: String },
    /// The summarization call failed; the loop continues unsummarized.
    SummaryFailed { error: String },
    /// The transport returned a tool result, possibly an error result.
    ToolCompleted { result: ToolResult },
    /// The transport itself failed for this attempt.
    ToolFailed { error: String },
    /// The attempt outran the per-call timeout.
    ToolTimedOut,
}

/// The mathematical view of an event.
pub enum LoopEventV {
    ModelResponded { content: Seq<char>, tool_calls: Seq<ToolCallV> },
    ModelFailed { error: Seq<char> },
    SummaryReady { summary: Seq<char> },
    SummaryFailed { error: Seq<char> },
    ToolCompleted { result: ToolResultV },
    ToolFailed { error: Seq<char> },
    ToolTimedOut,
}

impl DeepView for LoopEvent {
    type V = LoopEventV;

    open spec fn deep_view(&self) -> LoopEventV {
        match self {
            LoopEvent::ModelResponded { content, tool_calls } => LoopEventV::ModelResponded {
                content: content@,
                tool_calls: tool_calls.deep_view(),
            },
            LoopEvent::ModelFailed { error } => LoopEventV::ModelFailed { error: error@ },
            LoopEvent::SummaryReady { summary } => LoopEventV::SummaryReady { summary: summary@ },
            LoopEvent::SummaryFailed { error } => LoopEventV::SummaryFailed { error: error@ },
            LoopEvent::ToolCompleted { result } => LoopEventV::ToolCompleted {
                result: result.deep_view(),
            },
            LoopEvent::ToolFailed { error } => LoopEventV::ToolFailed { error: error@ },
            LoopEvent::ToolTimedOut => LoopEventV::ToolTimedOut,
        }
    }
}

/// What the engine asks the embedding application to do next.
pub enum LoopAction {
    /// Send the engine's messages, with the enabled tool catalog, to the
    /// model capability.
    CallModel,
    /// Send the engine's summarization request to the model capability, at
    /// the summarization temperature and token cap.
    Summarize,
    /// Run the engine's current tool call, bounded by the tool timeout.
    CallTool { attempt: u32 },
    /// The conversation ended with this final answer.
    Finished { final_text: String },
    /// The conversation failed.
    Failed { error: String },
}

/// The mathematical view of an action.
pub enum LoopActionV {
    CallModel,
    Summarize,
    CallTool { attempt: u32 },
    Finished { final_text: Seq<char> },
    Failed { error: Seq<char> },
}

impl DeepView for LoopAction {
    type V = LoopActionV;

    open spec fn deep_view(&self) -> LoopActionV {
        match self {
            LoopAction::CallModel => LoopActionV::CallModel,
            LoopAction::Summarize => LoopActionV::Summarize,
            LoopAction::CallTool { attempt } => LoopActionV::CallTool { attempt: *attempt },
            LoopAction::Finished { final_text } => LoopActionV::Finished {
                final_text: final_text@,
            },
            LoopAction::Failed { error } => LoopActionV::Failed { error: error@ },
        }
    }
}

/// Where the loop stands within one conversation.
pub enum LoopPhase {
    /// No conversation is in flight.
    Idle,
    /// Waiting for the model's answer.
    AwaitModel,
    /// Waiting for the summarization answer; the request is kept here.
    AwaitSummary { request: Vec<Message> },
    /// Executing the current turn's tool calls: the assistant text, the
    /// calls, which one runs, which attempt this is, and the results so
    /// far.
    AwaitTool {
        content: String,
        calls: Vec<ToolCall>,
        idx: usize,
        attempt: u32,
        results: Vec<ToolResult>,
    },
    /// The conversation ended with this answer.
    Done { final_text: String },
    /// The conversation failed.
    Failed { error: String },
}

/// The mathematical view of a phase.
pub enum LoopPhaseV {
    Idle,
    AwaitModel,
    AwaitSummary { request: Seq<MessageV> },
    AwaitTool {
        content: Seq<char>,
        calls: Seq<ToolCallV>,
        idx: int,
        attempt: u32,
        results: Seq<ToolResultV>,
    },
    Done { final_text: Seq<char> },
    Failed { error: Seq<char> },
}

// ---------------------------------------------------------------------------
// Timestamp wiping
// ---------------------------------------------------------------------------

/// A message view with its clock stamp wiped: the engine determines every
/// part of a message except the time it was stamped.
pub open spec fn wipe(m: MessageV) -> MessageV {
    MessageV {
        role: m.role,
        content: m.content,
        timestamp_ms: None,
        is_prompt: m.is_prompt,
        tool_call_id: m.tool_call_id,
        tool_calls: m.tool_calls,
        attachments: m.attachments,
    }
}

/// A history of views with every clock stamp wiped.
pub open spec fn wipe_all(s: Seq<MessageV>) -> Seq<MessageV> {
    Seq::new(s.len(), |i: int| wipe(s[i]))
}

// ---------------------------------------------------------------------------
// The engine and its mathematical model
// ---------------------------------------------------------------------------

/// The agentic loop engine: configuration plus the conversation state.
pub struct AgenticLoop {
    pub context_manager: ContextManager,
    pub context_window_size: u32,
    pub summarize_threshold_permille: u32,
    pub max_tool_retries: u32,
    pub tool_timeout_secs: u64,
    pub messages: Vec<Message>,
    pub iteration: u32,
    pub turn_id: String,
    pub phase: LoopPhase,
}

/// The mathematical state of the engine: the same data over views, with
/// message timestamps wiped.
#[verifier::ext_equal]
pub struct EngineV {
    pub context_window_size: u32,
    pub summarize_threshold_permille: u32,
    pub keep_recent_pairs: int,
    pub max_tool_retries: u32,
    pub tool_timeout_secs: u64,
    pub messages: Seq<MessageV>,
    pub iteration: u32,
    pub turn_id: Seq<char>,
    pub phase: LoopPhaseV,
}

/// One transition's outcome: the next state, the action asked of the
/// application, and the events emitted, in order.
#[verifier::ext_equal]
pub struct StepV {
    pub state: EngineV,
    pub action: LoopActionV,
    pub events: Seq<AgentUpdateV>,
}

/// The view of a phase, timestamps wiped.
pub open spec fn phase_view(p: LoopPhase) -> LoopPhaseV {
    match p {
        LoopPhase::Idle => LoopPhaseV::Idle,
        LoopPhase::AwaitModel => LoopPhaseV::AwaitModel,
        LoopPhase::AwaitSummary { request } => LoopPhaseV::AwaitSummary {
            request: wipe_all(request.deep_view()),
        },
        LoopPhase::AwaitTool { content, calls, idx, attempt, results } => LoopPhaseV::AwaitTool {
            content: content@,
            calls: calls.deep_view(),
            idx: idx as int,
            attempt,
            results: results.deep_view(),
        },
        LoopPhase::Done { final_text } => LoopPhaseV::Done { final_text: final_text@ },
        LoopPhase::Failed { error } => LoopPhaseV::Failed { error: error@ },
    }
}

impl AgenticLoop {
    /// The mathematical state of this engine.
    pub open spec fn model(&self) -> EngineV {
        EngineV {
            context_window_size: self.context_window_size,
            summarize_threshold_permille: self.summarize_threshold_permille,
            keep_recent_pairs: self.context_manager.keep_recent_pairs as int,
            max_tool_retries: self.max_tool_retries,
            tool_timeout_secs: self.tool_timeout_secs,
            messages: wipe_all(self.messages.deep_view()),
            iteration: self.iteration,
            turn_id: self.turn_id@,
            phase: phase_view(self.phase),
        }
    }

    /// Well-formedness: bounded retry configuration, and a coherent
    /// tool-execution phase.
    pub open spec fn wf(&self) -> bool {
        &&& self.max_tool_retries < u32::MAX
        &&& match self.phase {
            LoopPhase::AwaitTool { content, calls, idx, attempt, results } => {
                &&& idx < calls@.len()
                &&& results@.len() == idx
                &&& 1 <= attempt <= self.max_tool_retries + 1
            },
            _ => true,
        }
    }
}

/// Which events a phase can answer: exactly the outcome of the action the
/// engine asked for in that phase.
pub open spec fn accepts(phase: LoopPhaseV, e: LoopEventV) -> bool {
    match (phase, e) {
        (LoopPhaseV::AwaitModel, LoopEventV::ModelResponded { .. }) => true,
        (LoopPhaseV::AwaitModel, LoopEventV::ModelFailed { .. }) => true,
        (LoopPhaseV::AwaitSummary { .. }, LoopEventV::SummaryReady { .. }) => true,
        (LoopPhaseV::AwaitSummary { .. }, LoopEventV::SummaryFailed { .. }) => true,
        (LoopPhaseV::AwaitTool { .. }, LoopEventV::ToolCompleted { .. }) => true,
        (LoopPhaseV::AwaitTool { .. }, LoopEventV::ToolFailed { .. }) => true,
        (LoopPhaseV::AwaitTool { .. }, LoopEventV::ToolTimedOut) => true,
        _ => false,
    }
}

// ---------------------------------------------------------------------------
// The transition function
// ---------------------------------------------------------------------------

/// Whether usage of the window crosses the threshold for this state.
pub open spec fn spec_trigger(s: EngineV) -> bool {
    crate::context::spec_should_summarize(
        crate::tokens::clamp_u32(crate::tokens::spec_tokens_messages(s.messages)) as u32,
        s.context_window_size,
        s.summarize_threshold_permille,
    )
}

/// The two-message summarization request for a candidate set, as views.
pub open spec fn spec_summary_request_msgs(cands: Seq<MessageV>) -> Seq<MessageV> {
    seq![
        MessageV {
            role: Role::System,
            content: "You are a helpful assistant that summarizes conversations concisely."@,
            timestamp_ms: None,
            is_prompt: false,
            tool_call_id: None,
            tool_calls: None,
            attachments: None,
        },
        MessageV {
            role: Role::User,
            content: crate::context::spec_summary_prompt(cands),
            timestamp_ms: None,
            is_prompt: false,
            tool_call_id: None,
            tool_calls: None,
            attachments: None,
        },
    ]
}

/// What beginning a turn does: the iteration counter moves, a `BeginTurn`
/// event is emitted, and the engine either asks for summarization — when
/// usage crosses the threshold and there is something to summarize — or
/// asks for the model.
pub open spec fn spec_begin(s: EngineV, tid: Seq<char>) -> StepV {
    let it = if s.iteration < u32::MAX {
        (s.iteration + 1) as u32
    } else {
        s.iteration
    };
    let ev = AgentUpdateV::BeginTurn {
        conversation_id: None,
        turn_id: tid,
        iteration: it,
        plan_summary: None,
    };
    let cands = crate::context::spec_summarization_candidates(s.messages, s.keep_recent_pairs);
    let s1 = EngineV { iteration: it, turn_id: tid, ..s };
    if spec_trigger(s) && cands.len() > 0 {
        StepV {
            state: EngineV {
                phase: LoopPhaseV::AwaitSummary { request: spec_summary_request_msgs(cands) },
                ..s1
            },
            action: LoopActionV::Summarize,
            events: seq![ev],
        }
    } else {
        StepV {
            state: EngineV { phase: LoopPhaseV::AwaitModel, ..s1 },
            action: LoopActionV::CallModel,
            events: seq![ev],
        }
    }
}

/// The Tool-role message recording one result, linked to its call.
pub open spec fn spec_tool_result_message(call: ToolCallV, r: ToolResultV) -> MessageV {
    MessageV {
        role: Role::Tool,
        content: crate::chat::spec_tool_result_content(r.content, r.is_error),
        timestamp_ms: None,
        is_prompt: false,
        tool_call_id: Some(call.id),
        tool_calls: None,
        attachments: None,
    }
}

/// What one finished turn appends to history: the Assistant message with
/// its tool calls, then one Tool-role message per call, in call order.
pub open spec fn spec_turn_messages(
    content: Seq<char>,
    calls: Seq<ToolCallV>,
    results: Seq<ToolResultV>,
) -> Seq<MessageV> {
    seq![
        MessageV {
            role: Role::Assistant,
            content,
            timestamp_ms: None,
            is_prompt: false,
            tool_call_id: None,
            tool_calls: Some(calls),
            attachments: None,
        },
    ] + Seq::new(results.len(), |k: int| spec_tool_result_message(calls[k], results[k]))
}

/// Whether the call at `idx` repeats the id of an earlier call of the same
/// turn; a repeated id gets no second `ToolStarted` event.
pub open spec fn spec_started_before(calls: Seq<ToolCallV>, idx: int) -> bool {
    exists|j: int| 0 <= j < idx && calls[j].id == calls[idx].id
}

/// What follows once the current call's result — real or synthesized — is
/// in hand: the `ToolResult` event; then either the next call starts (with
/// `ToolStarted` once per unique id), or the turn's messages are appended
/// to history, the turn ends, and the next turn begins.
pub open spec fn spec_after_result(
    s: EngineV,
    tid: Seq<char>,
    content: Seq<char>,
    calls: Seq<ToolCallV>,
    idx: int,
    results2: Seq<ToolResultV>,
) -> StepV {
    let ev_result = AgentUpdateV::ToolResult {
        turn_id: s.turn_id,
        tool_call_id: calls[idx].id,
        name: calls[idx].name,
        result_json: results2.last().content,
    };
    if idx + 1 < calls.len() {
        let started: Seq<AgentUpdateV> = if spec_started_before(calls, idx + 1) {
            Seq::empty()
        } else {
            seq![
                AgentUpdateV::ToolStarted {
                    turn_id: s.turn_id,
                    tool_call_id: calls[idx + 1].id,
                    name: calls[idx + 1].name,
                    params_json: crate::json::spec_json_text(calls[idx + 1].parameters),
                },
            ]
        };
        StepV {
            state: EngineV {
                phase: LoopPhaseV::AwaitTool { content, calls, idx: idx + 1, attempt: 1, results: results2 },
                ..s
            },
            action: LoopActionV::CallTool { attempt: 1 },
            events: seq![ev_result] + started,
        }
    } else {
        let msgs2 = s.messages + spec_turn_messages(content, calls, results2);
        let b = spec_begin(EngineV { messages: msgs2, ..s }, tid);
        StepV {
            state: b.state,
            action: b.action,
            events: seq![ev_result, AgentUpdateV::EndTurn { turn_id: s.turn_id }] + b.events,
        }
    }
}

/// What one failing attempt leads to: the `ToolError` event, then either a
/// retry of the same call, or — once `max_tool_retries` retries are spent —
/// a synthesized error result so the loop continues rather than aborts.
pub open spec fn spec_after_failure(
    s: EngineV,
    tid: Seq<char>,
    content: Seq<char>,
    calls: Seq<ToolCallV>,
    idx: int,
    attempt: u32,
    results: Seq<ToolResultV>,
    error: Seq<char>,
    synth_content: Seq<char>,
) -> StepV {
    let retryable = attempt <= s.max_tool_retries;
    let ev = AgentUpdateV::ToolError {
        turn_id: s.turn_id,
        tool_call_id: calls[idx].id,
        name: calls[idx].name,
        error,
        retryable,
    };
    if retryable {
        StepV {
            state: EngineV {
                phase: LoopPhaseV::AwaitTool {
                    content,
                    calls,
                    idx,
                    attempt: (attempt + 1) as u32,
                    results,
                },
                ..s
            },
            action: LoopActionV::CallTool { attempt: (attempt + 1) as u32 },
            events: seq![ev],
        }
    } else {
        let synth = ToolResultV { content: synth_content, is_error: true };
        let after = spec_after_result(s, tid, content, calls, idx, results.push(synth));
        StepV { state: after.state, action: after.action, events: seq![ev] + after.events }
    }
}

/// The engine's transition function: for each phase and the event that
/// answers it, the next state, the next action, and the emitted events.
/// `tid` is the identifier of the next turn, used only where a new turn
/// begins.
pub open spec fn spec_step(s: EngineV, e: LoopEventV, tid: Seq<char>) -> StepV {
    match (s.phase, e) {
        (LoopPhaseV::AwaitSummary { request }, LoopEventV::SummaryReady { summary }) => {
            let kept = crate::context::spec_messages_to_keep(s.messages, s.keep_recent_pairs);
            let pos: int = if crate::context::spec_leads_with_system(kept) {
                1
            } else {
                0
            };
            let summary_msg = MessageV {
                role: Role::Assistant,
                content: "[Previous conversation summarized: "@ + summary + "]"@,
                timestamp_ms: None,
                is_prompt: false,
                tool_call_id: None,
                tool_calls: None,
                attachments: None,
            };
            let msgs2 = kept.insert(pos, summary_msg);
            let old_tokens = crate::tokens::clamp_u32(
                crate::tokens::spec_tokens_messages(s.messages),
            );
            let new_tokens = crate::tokens::clamp_u32(crate::tokens::spec_tokens_messages(msgs2));
            let saved: u32 = if old_tokens > new_tokens {
                (old_tokens - new_tokens) as u32
            } else {
                0
            };
            StepV {
                state: EngineV { messages: msgs2, phase: LoopPhaseV::AwaitModel, ..s },
                action: LoopActionV::CallModel,
                events: seq![
                    AgentUpdateV::ContextSummarized {
                        turn_id: s.turn_id,
                        old_count: s.messages.len() as usize,
                        new_count: msgs2.len() as usize,
                        tokens_saved: saved,
                    },
                ],
            }
        },
        (LoopPhaseV::AwaitSummary { request }, LoopEventV::SummaryFailed { error }) => {
            // non-fatal: continue with the unsummarized history
            StepV {
                state: EngineV { phase: LoopPhaseV::AwaitModel, ..s },
                action: LoopActionV::CallModel,
                events: Seq::empty(),
            }
        },
        (LoopPhaseV::AwaitModel, LoopEventV::ModelResponded { content, tool_calls }) => {
            if tool_calls.len() == 0 {
                StepV {
                    state: EngineV { phase: LoopPhaseV::Done { final_text: content }, ..s },
                    action: LoopActionV::Finished { final_text: content },
                    events: seq![
                        AgentUpdateV::AssistantComplete { turn_id: s.turn_id, full_text: content },
                        AgentUpdateV::EndTurn { turn_id: s.turn_id },
                        AgentUpdateV::EndConversation { final_text: content },
                    ],
                }
            } else {
                let pre: Seq<AgentUpdateV> = if crate::text::spec_trim(content).len() > 0 {
                    seq![
                        AgentUpdateV::AssistantComplete { turn_id: s.turn_id, full_text: content },
                    ]
                } else {
                    Seq::empty()
                };
                let plan = AgentUpdateV::ToolPlanned {
                    turn_id: s.turn_id,
                    plan_items: Seq::new(
                        tool_calls.len(),
                        |i: int| PlannedToolV {
                            name: tool_calls[i].name,
                            params_json: crate::json::spec_json_text(tool_calls[i].parameters),
                        },
                    ),
                };
                let started = AgentUpdateV::ToolStarted {
                    turn_id: s.turn_id,
                    tool_call_id: tool_calls[0].id,
                    name: tool_calls[0].name,
                    params_json: crate::json::spec_json_text(tool_calls[0].parameters),
                };
                StepV {
                    state: EngineV {
                        phase: LoopPhaseV::AwaitTool {
                            content,
                            calls: tool_calls,
                            idx: 0,
                            attempt: 1,
                            results: Seq::empty(),
                        },
                        ..s
                    },
                    action: LoopActionV::CallTool { attempt: 1 },
                    events: pre + seq![plan, started],
                }
            }
        },
        (LoopPhaseV::AwaitModel, LoopEventV::ModelFailed { error }) => {
            StepV {
                state: EngineV {
                    phase: LoopPhaseV::Failed { error: "LLM call failed: "@ + error },
                    ..s
                },
                action: LoopActionV::Failed { error: "LLM call failed: "@ + error },
                events: seq![
                    AgentUpdateV::ModelError {
                        turn_id: s.turn_id,
                        error: "Model communication failed: "@ + error,
                    },
                ],
            }
        },
        (
            LoopPhaseV::AwaitTool { content, calls, idx, attempt, results },
            LoopEventV::ToolCompleted { result },
        ) => spec_after_result(s, tid, content, calls, idx, results.push(result)),
        (
            LoopPhaseV::AwaitTool { content, calls, idx, attempt, results },
            LoopEventV::ToolFailed { error },
        ) => spec_after_failure(
            s,
            tid,
            content,
            calls,
            idx,
            attempt,
            results,
            error,
            "Error: "@ + error,
        ),
        (
            LoopPhaseV::AwaitTool { content, calls, idx, attempt, results },
            LoopEventV::ToolTimedOut,
        ) => spec_after_failure(
            s,
            tid,
            content,
            calls,
            idx,
            attempt,
            results,
            "Timeout after "@ + crate::text::spec_dec_u64(s.tool_timeout_secs as nat) + "s"@,
            "Timeout"@,
        ),
        _ => StepV { state: s, action: LoopActionV::CallModel, events: Seq::empty() },
    }
}

/// `spec_after_result` never reads the phase of the state it is given.
proof fn lemma_after_result_phase(
    a: EngineV,
    b: EngineV,
    tid: Seq<char>,
    content: Seq<char>,
    calls: Seq<ToolCallV>,
    idx: int,
    results: Seq<ToolResultV>,
)
    requires
        a == (EngineV { phase: a.phase, ..b }),
    ensures
        spec_after_result(a, tid, content, calls, idx, results) == spec_after_result(
            b,
            tid,
            content,
            calls,
            idx,
            results,
        ),
{
    let ra = spec_after_result(a, tid, content, calls, idx, results);
    let rb = spec_after_result(b, tid, content, calls, idx, results);
    if idx + 1 < calls.len() {
        assert(ra.state =~= rb.state);
        assert(ra.events =~= rb.events);
        assert(ra =~= rb);
    } else {
        let msgs2 = a.messages + spec_turn_messages(content, calls, results);
        let ba = spec_begin(EngineV { messages: msgs2, ..a }, tid);
        let bb = spec_begin(EngineV { messages: msgs2, ..b }, tid);
        assert(ba.state =~= bb.state);
        assert(ba.events =~= bb.events);
        assert(ba =~= bb);
        assert(ra =~= rb);
    }
}

/// `spec_after_failure` never reads the phase of the state it is given.
proof fn lemma_after_failure_phase(
    a: EngineV,
    b: EngineV,
    tid: Seq<char>,
    content: Seq<char>,
    calls: Seq<ToolCallV>,
    idx: int,
    attempt: u32,
    results: Seq<ToolResultV>,
    error: Seq<char>,
    synth_content: Seq<char>,
)
    requires
        a == (EngineV { phase: a.phase, ..b }),
    ensures
        spec_after_failure(a, tid, content, calls, idx, attempt, results, error, synth_content)
            == spec_after_failure(
            b,
            tid,
            content,
            calls,
            idx,
            attempt,
            results,
            error,
            synth_content,
        ),
{
    let ra = spec_after_failure(a, tid, content, calls, idx, attempt, results, error, synth_content);
    let rb = spec_after_failure(b, tid, content, calls, idx, attempt, results, error, synth_content);
    if attempt <= a.max_tool_retries {
        assert(ra.state =~= rb.state);
        assert(ra.events =~= rb.events);
        assert(ra =~= rb);
    } else {
        let synth = ToolResultV { content: synth_content, is_error: true };
        lemma_after_result_phase(a, b, tid, content, calls, idx, results.push(synth));
        assert(ra =~= rb);
    }
}

// ---------------------------------------------------------------------------
// Wiping commutes with the context-manager functions
// ---------------------------------------------------------------------------

proof fn lemma_wipe_tokens(s: Seq<MessageV>)
    ensures
        crate::tokens::spec_tokens_messages(wipe_all(s)) == crate::tokens::spec_tokens_messages(s),
    decreases s.len(),
{
    if s.len() > 0 {
        lemma_wipe_tokens(s.drop_last());
        assert(wipe_all(s).drop_last() =~= wipe_all(s.drop_last()));
        assert(wipe_all(s).last() == wipe(s.last()));
        assert(crate::tokens::spec_tokens_message(wipe(s.last()))
            == crate::tokens::spec_tokens_message(s.last()));
    } else {
        assert(wipe_all(s) =~= s);
    }
}

proof fn lemma_wipe_candidates(s: Seq<MessageV>, keep: int)
    requires
        keep >= 0,
    ensures
        crate::context::spec_summarization_candidates(wipe_all(s), keep) == wipe_all(
            crate::context::spec_summarization_candidates(s, keep),
        ),
{
    let w = wipe_all(s);
    assert(w.len() == s.len());
    if s.len() > 0 {
        assert(w[0] == wipe(s[0]));
    }
    let c = crate::context::spec_summarization_candidates(s, keep);
    let cw = crate::context::spec_summarization_candidates(w, keep);
    let len = s.len() as int;
    if len <= 2 * keep {
        assert(cw =~= wipe_all(c));
    } else {
        let start: int = if crate::context::spec_leads_with_system(s) {
            1
        } else {
            0
        };
        let end = crate::context::spec_tail_start(len, keep);
        if start >= end {
            assert(cw =~= wipe_all(c));
        } else {
            assert(cw == w.subrange(start, end));
            assert(c == s.subrange(start, end));
            assert forall|i: int| 0 <= i < end - start implies cw[i] == wipe_all(c)[i] by {
                assert(w[start + i] == wipe(s[start + i]));
                assert(c[i] == s[start + i]);
            }
            assert(cw =~= wipe_all(c));
        }
    }
}

proof fn lemma_wipe_keep(s: Seq<MessageV>, keep: int)
    requires
        keep >= 0,
    ensures
        crate::context::spec_messages_to_keep(wipe_all(s), keep) == wipe_all(
            crate::context::spec_messages_to_keep(s, keep),
        ),
{
    let w = wipe_all(s);
    assert(w.len() == s.len());
    if s.len() > 0 {
        assert(w[0] == wipe(s[0]));
    }
    let k = crate::context::spec_messages_to_keep(s, keep);
    let kw = crate::context::spec_messages_to_keep(w, keep);
    let len = s.len() as int;
    if len <= 2 * keep {
        assert(kw =~= wipe_all(k));
    } else {
        let ts = crate::context::spec_tail_start(len, keep);
        assert forall|i: int| 0 <= i < kw.len() implies kw[i] == wipe_all(k)[i] by {
            if crate::context::spec_leads_with_system(s) {
                if i > 0 {
                    assert(w[ts + i - 1] == wipe(s[ts + i - 1]));
                    assert(k[i] == s[ts + i - 1]);
                }
            } else {
                assert(w[ts + i] == wipe(s[ts + i]));
                assert(k[i] == s[ts + i]);
            }
        }
        assert(kw =~= wipe_all(k));
    }
}

proof fn lemma_wipe_conversation_text(s: Seq<MessageV>)
    ensures
        crate::context::spec_conversation_text(wipe_all(s))
            == crate::context::spec_conversation_text(s),
    decreases s.len(),
{
    if s.len() > 0 {
        lemma_wipe_conversation_text(s.drop_last());
        assert(wipe_all(s).drop_last() =~= wipe_all(s.drop_last()));
        assert(wipe_all(s).last() == wipe(s.last()));
    } else {
        assert(wipe_all(s) =~= s);
    }
}

// ---------------------------------------------------------------------------
// The executable engine
// ---------------------------------------------------------------------------

/// Relies on uuid::Uuid::new_v4: a fresh random identifier for one turn,
/// rendered in the standard hyphenated form.  Nothing is assumed of the
/// value.
#[verifier::external_body]
fn fresh_turn_id() -> String {
    uuid::Uuid::new_v4().to_string()
}

impl AgenticLoop {
    /// A fresh engine with the stock policy: a 128000-token window,
    /// summarization at 700 per-mille usage keeping five recent pairs, two
    /// retries per tool call, and a 20-second tool timeout.
    pub fn new() -> (r: AgenticLoop)
        ensures
            r.wf(),
            r.context_window_size == 128000,
            r.summarize_threshold_permille == 700,
            r.context_manager.keep_recent_pairs == 5,
            r.max_tool_retries == 2,
            r.tool_timeout_secs == 20,
            r.messages@.len() == 0,
            r.iteration == 0,
            r.phase is Idle,
    {
        AgenticLoop {
            context_manager: ContextManager::default(),
            context_window_size: 128000,
            summarize_threshold_permille: 700,
            max_tool_retries: 2,
            tool_timeout_secs: 20,
            messages: Vec::new(),
            iteration: 0,
            turn_id: String::new(),
            phase: LoopPhase::Idle,
        }
    }

    /// This engine with the window size and threshold taken from a profile.
    pub fn with_context_config(self, window_size: u32, threshold_permille: u32) -> (r: AgenticLoop)
        ensures
            r == (AgenticLoop {
                context_window_size: window_size,
                summarize_threshold_permille: threshold_permille,
                ..self
            }),
    {
        AgenticLoop { context_window_size: window_size, summarize_threshold_permille: threshold_permille, ..self }
    }

    /// The current message history, for the application to send to the
    /// model capability.
    pub fn current_messages(&self) -> (r: &Vec<Message>)
        ensures
            r == &self.messages,
    {
        &self.messages
    }

    /// The pending summarization request, when one is awaited.
    pub fn summary_request(&self) -> (r: Option<&Vec<Message>>)
        ensures
            match r {
                Some(req) => self.phase matches LoopPhase::AwaitSummary { request } && req
                    == &request,
                None => !(self.phase is AwaitSummary),
            },
    {
        match &self.phase {
            LoopPhase::AwaitSummary { request } => Some(request),
            _ => None,
        }
    }

    /// The tool call to run next, when one is awaited.
    pub fn current_call(&self) -> (r: Option<&ToolCall>)
        requires
            self.wf(),
        ensures
            match r {
                Some(call) => self.phase matches LoopPhase::AwaitTool { calls, idx, .. }
                    && idx < calls@.len() && call == &calls[idx as int],
                None => !(self.phase is AwaitTool),
            },
    {
        match &self.phase {
            LoopPhase::AwaitTool { calls, idx, .. } => Some(&calls[*idx]),
            _ => None,
        }
    }

    /// Opens the turn `tid`: bumps the iteration, emits `BeginTurn`, and
    /// decides between summarization and the model call, as `spec_begin`
    /// states.
    fn begin_turn(&mut self, tid: String) -> (r: (LoopAction, Vec<AgentUpdate>))
        requires
            old(self).wf(),
        ensures
            final(self).wf(),
            final(self).turn_id == tid,
            final(self).model() == spec_begin(old(self).model(), tid@).state,
            r.0.deep_view() == spec_begin(old(self).model(), tid@).action,
            r.1.deep_view() == spec_begin(old(self).model(), tid@).events,
    {
        let ghost s0 = self.model();
        self.turn_id = tid;
        if self.iteration < u32::MAX {
            self.iteration = self.iteration + 1;
        }
        let mut events: Vec<AgentUpdate> = Vec::new();
        events.push(
            AgentUpdate::BeginTurn {
                conversation_id: None,
                turn_id: self.turn_id.clone(),
                iteration: self.iteration,
                plan_summary: None,
            },
        );
        let tokens = crate::tokens::estimate_tokens_for_messages(self.messages.as_slice());
        proof {
            lemma_wipe_tokens(self.messages.deep_view());
        }
        let should = self.context_manager.should_summarize(
            tokens,
            self.context_window_size,
            self.summarize_threshold_permille,
        );
        if should {
            let cands = self.context_manager.build_summarization_messages(
                self.messages.as_slice(),
            );
            proof {
                lemma_wipe_candidates(self.messages.deep_view(), s0.keep_recent_pairs);
            }
            if cands.len() > 0 {
                let request = self.context_manager.build_summary_request(cands.as_slice());
                self.phase = LoopPhase::AwaitSummary { request };
                proof {
                    lemma_wipe_conversation_text(cands.deep_view());
                    let cands_w = crate::context::spec_summarization_candidates(
                        s0.messages,
                        s0.keep_recent_pairs,
                    );
                    assert(cands_w == wipe_all(cands.deep_view()));
                    assert(crate::context::spec_summary_prompt(cands_w)
                        == crate::context::spec_summary_prompt(cands.deep_view()));
                    let got = phase_view(self.phase)->AwaitSummary_request;
                    let want = spec_summary_request_msgs(cands_w);
                    assert(got.len() == 2);
                    assert(got[0] == wipe(self.phase->AwaitSummary_request.deep_view()[0]));
                    assert(got[1] == wipe(self.phase->AwaitSummary_request.deep_view()[1]));
                    assert(got[0] == want[0]);
                    assert(got[1] == want[1]);
                    assert(got =~= want);
                    assert(self.model() =~= spec_begin(s0, self.turn_id@).state);
                    assert(events.deep_view() =~= spec_begin(s0, self.turn_id@).events);
                }
                return (LoopAction::Summarize, events);
            }
        }
        self.phase = LoopPhase::AwaitModel;
        proof {
            assert(self.model() =~= spec_begin(s0, self.turn_id@).state);
            assert(events.deep_view() =~= spec_begin(s0, self.turn_id@).events);
        }
        (LoopAction::CallModel, events)
    }

    /// Whether the call at `idx` repeats an earlier call's id.
    fn id_started_before(calls: &Vec<ToolCall>, idx: usize) -> (r: bool)
        requires
            idx < calls@.len(),
        ensures
            r == spec_started_before(calls.deep_view(), idx as int),
    {
        let ghost vs = calls.deep_view();
        let mut j: usize = 0;
        let mut found = false;
        while j < idx
            invariant
                0 <= j <= idx < calls@.len(),
                vs == calls.deep_view(),
                vs.len() == calls@.len(),
                forall|k: int| 0 <= k < vs.len() ==> vs[k] == calls@[k].deep_view(),
                found ==> spec_started_before(vs, idx as int),
                !found ==> forall|k: int| 0 <= k < j ==> vs[k].id != vs[idx as int].id,
            decreases idx - j,
        {
            if crate::text::str_eq(calls[j].id.as_str(), calls[idx].id.as_str()) {
                found = true;
                proof {
                    assert(vs[j as int].id == vs[idx as int].id);
                }
            }
            j = j + 1;
        }
        proof {
            if !found {
                assert(!spec_started_before(vs, idx as int));
            }
        }
        found
    }

    /// Finishes one call of the current turn, its result — real or
    /// synthesized — already appended to `results`: emits `ToolResult`,
    /// then either starts the next call or seals the turn, appends its
    /// messages to history, and opens the next turn, as
    /// `spec_after_result` states.
    fn advance_after_result(
        &mut self,
        content: String,
        calls: Vec<ToolCall>,
        idx: usize,
        results: Vec<ToolResult>,
    ) -> (r: (LoopAction, Vec<AgentUpdate>))
        requires
            old(self).wf(),
            idx < calls@.len(),
            results@.len() == idx + 1,
        ensures
            final(self).wf(),
            ({
                let st = spec_after_result(
                    old(self).model(),
                    final(self).turn_id@,
                    content@,
                    calls.deep_view(),
                    idx as int,
                    results.deep_view(),
                );
                &&& final(self).model() == st.state
                &&& r.0.deep_view() == st.action
                &&& r.1.deep_view() == st.events
            }),
    {
        let ghost s0 = self.model();
        let ghost calls_v = calls.deep_view();
        let ghost results_v = results.deep_view();
        let n = calls.len();
        let n_results = results.len();
        let mut events: Vec<AgentUpdate> = Vec::new();
        events.push(
            AgentUpdate::ToolResult {
                turn_id: self.turn_id.clone(),
                tool_call_id: calls[idx].id.clone(),
                name: calls[idx].name.clone(),
                result_json: results[idx].content.clone(),
            },
        );
        proof {
            assert(results_v.last() == results_v[idx as int]);
            assert(results_v[idx as int] == results@[idx as int].deep_view());
        }
        if idx + 1 < n {
            let dup = Self::id_started_before(&calls, idx + 1);
            if !dup {
                let params_json = calls[idx + 1].parameters.to_text();
                events.push(
                    AgentUpdate::ToolStarted {
                        turn_id: self.turn_id.clone(),
                        tool_call_id: calls[idx + 1].id.clone(),
                        name: calls[idx + 1].name.clone(),
                        params_json,
                    },
                );
            }
            self.phase = LoopPhase::AwaitTool { content, calls, idx: idx + 1, attempt: 1, results };
            proof {
                let st = spec_after_result(s0, self.turn_id@, content@, calls_v, idx as int, results_v);
                assert(self.model() =~= st.state);
                assert(events.deep_view() =~= st.events);
            }
            (LoopAction::CallTool { attempt: 1 }, events)
        } else {
            let mut tool_msgs: Vec<Message> = Vec::new();
            let mut k: usize = 0;
            while k < results.len()
                invariant
                    0 <= k <= results@.len(),
                    results@.len() == idx + 1 < calls@.len() + 1,
                    calls_v == calls.deep_view(),
                    results_v == results.deep_view(),
                    calls_v.len() == calls@.len(),
                    results_v.len() == results@.len(),
                    forall|m: int| 0 <= m < calls_v.len() ==> calls_v[m] == calls@[m].deep_view(),
                    forall|m: int|
                        0 <= m < results_v.len() ==> results_v[m] == results@[m].deep_view(),
                    tool_msgs@.len() == k,
                    forall|m: int|
                        0 <= m < k ==> wipe(tool_msgs@[m].deep_view()) == spec_tool_result_message(
                            calls_v[m],
                            results_v[m],
                        ),
                decreases results@.len() - k,
            {
                let msg = Message::new_tool_result(
                    calls[k].id.clone(),
                    results[k].content.clone(),
                    results[k].is_error,
                );
                tool_msgs.push(msg);
                k = k + 1;
            }
            let ghost pre_vec = self.messages@;
            let ghost pre_len = pre_vec.len() as int;
            let assistant = Message::new_with_tool_calls(Role::Assistant, content, calls);
            let ghost asst_dv = assistant.deep_view();
            self.messages.push(assistant);
            let ghost base = self.messages@;
            let ghost all_tools = tool_msgs@;
            proof {
                assert(base == pre_vec.push(base[pre_len]));
                assert forall|q: int| 0 <= q < all_tools.len() implies wipe(
                    all_tools[q].deep_view(),
                ) == spec_tool_result_message(calls_v[q], results_v[q]) by {
                    assert(tool_msgs@[q] == all_tools[q]);
                }
            }
            let mut t: usize = 0;
            while tool_msgs.len() > 0
                invariant
                    t + tool_msgs@.len() == all_tools.len(),
                    all_tools.len() == results_v.len(),
                    results_v.len() == n_results,
                    tool_msgs@ == all_tools.subrange(t as int, all_tools.len() as int),
                    self.messages@.len() == base.len() + t,
                    forall|q: int| 0 <= q < base.len() ==> self.messages@[q] == base[q],
                    forall|q: int|
                        0 <= q < t ==> self.messages@[base.len() + q] == all_tools[q],
                    self.turn_id == old(self).turn_id,
                    self.phase == old(self).phase,
                    self.context_window_size == old(self).context_window_size,
                    self.summarize_threshold_permille == old(self).summarize_threshold_permille,
                    self.max_tool_retries == old(self).max_tool_retries,
                    self.tool_timeout_secs == old(self).tool_timeout_secs,
                    self.context_manager == old(self).context_manager,
                    self.iteration == old(self).iteration,
                decreases tool_msgs@.len(),
            {
                let ghost prev_msgs = tool_msgs@;
                let m = tool_msgs.remove(0);
                self.messages.push(m);
                t = t + 1;
                proof {
                    assert(m == all_tools[t - 1]);
                    assert(tool_msgs@ =~= all_tools.subrange(t as int, all_tools.len() as int));
                }
            }
            events.push(AgentUpdate::EndTurn { turn_id: self.turn_id.clone() });
            let ghost mid_model = self.model();
            proof {
                let msgs2 = s0.messages + spec_turn_messages(content@, calls_v, results_v);
                assert(mid_model.messages.len() == pre_len + 1 + results_v.len());
                assert(msgs2.len() == pre_len + 1 + results_v.len());
                assert forall|m: int|
                    0 <= m < mid_model.messages.len() implies mid_model.messages[m] == msgs2[m] by {
                    assert(mid_model.messages[m] == wipe(self.messages@[m].deep_view()));
                    if m < pre_len {
                        assert(self.messages@[m] == base[m]);
                        assert(base[m] == pre_vec[m]);
                        assert(s0.messages[m] == wipe(pre_vec[m].deep_view()));
                        assert(msgs2[m] == s0.messages[m]);
                    } else if m == pre_len {
                        assert(self.messages@[m] == base[pre_len]);
                        assert(base[pre_len].deep_view() == asst_dv);
                        assert(msgs2[m] == spec_turn_messages(content@, calls_v, results_v)[0]);
                    } else {
                        assert(self.messages@[m] == all_tools[m - pre_len - 1]);
                        assert(wipe(all_tools[m - pre_len - 1].deep_view())
                            == spec_tool_result_message(
                            calls_v[m - pre_len - 1],
                            results_v[m - pre_len - 1],
                        ));
                        assert(msgs2[m] == spec_turn_messages(content@, calls_v, results_v)[m
                            - pre_len]);
                    }
                }
                assert(mid_model.messages =~= msgs2);
                assert(mid_model =~= EngineV { messages: msgs2, phase: mid_model.phase, ..s0 });
            }
            let tid2 = fresh_turn_id();
            let (action, mut b_events) = self.begin_turn(tid2);
            events.append(&mut b_events);
            proof {
                let msgs2 = s0.messages + spec_turn_messages(content@, calls_v, results_v);
                let b_spec = spec_begin(EngineV { messages: msgs2, ..s0 }, self.turn_id@);
                let b_mid = spec_begin(mid_model, self.turn_id@);
                assert(b_spec.state =~= b_mid.state);
                assert(b_spec.events =~= b_mid.events);
                assert(b_spec.action == b_mid.action);
                let st = spec_after_result(s0, self.turn_id@, content@, calls_v, idx as int, results_v);
                assert(events.deep_view() =~= st.events);
                assert(self.model() == st.state);
            }
            (action, events)
        }
    }

    /// Handles one failing attempt of the current call: emits `ToolError`,
    /// then retries the call or, once the retries are spent, synthesizes an
    /// error result and moves on, as `spec_after_failure` states.
    fn handle_tool_failure(
        &mut self,
        content: String,
        calls: Vec<ToolCall>,
        idx: usize,
        attempt: u32,
        results: Vec<ToolResult>,
        error: String,
        synth_content: String,
    ) -> (r: (LoopAction, Vec<AgentUpdate>))
        requires
            old(self).wf(),
            idx < calls@.len(),
            results@.len() == idx,
            1 <= attempt <= old(self).max_tool_retries + 1,
            old(self).max_tool_retries < u32::MAX,
        ensures
            final(self).wf(),
            ({
                let st = spec_after_failure(
                    old(self).model(),
                    final(self).turn_id@,
                    content@,
                    calls.deep_view(),
                    idx as int,
                    attempt,
                    results.deep_view(),
                    error@,
                    synth_content@,
                );
                &&& final(self).model() == st.state
                &&& r.0.deep_view() == st.action
                &&& r.1.deep_view() == st.events
            }),
    {
        let ghost s0 = self.model();
        let retryable = attempt <= self.max_tool_retries;
        let mut events: Vec<AgentUpdate> = Vec::new();
        events.push(
            AgentUpdate::ToolError {
                turn_id: self.turn_id.clone(),
                tool_call_id: calls[idx].id.clone(),
                name: calls[idx].name.clone(),
                error,
                retryable,
            },
        );
        if retryable {
            self.phase = LoopPhase::AwaitTool {
                content,
                calls,
                idx,
                attempt: attempt + 1,
                results,
            };
            proof {
                let st = spec_after_failure(
                    s0,
                    self.turn_id@,
                    content@,
                    self.phase->AwaitTool_calls.deep_view(),
                    idx as int,
                    attempt,
                    results.deep_view(),
                    events@[0].deep_view()->ToolError_error,
                    synth_content@,
                );
                assert(self.model() =~= st.state);
                assert(events.deep_view() =~= st.events);
            }
            (LoopAction::CallTool { attempt: attempt + 1 }, events)
        } else {
            let mut results2 = results;
            results2.push(ToolResult { content: synth_content, is_error: true });
            let (action, mut after_events) = self.advance_after_result(
                content,
                calls,
                idx,
                results2,
            );
            events.append(&mut after_events);
            proof {
                let st = spec_after_failure(
                    s0,
                    self.turn_id@,
                    content@,
                    calls.deep_view(),
                    idx as int,
                    attempt,
                    results.deep_view(),
                    events@[0].deep_view()->ToolError_error,
                    synth_content@,
                );
                assert(results2.deep_view() =~= results.deep_view().push(
                    ToolResultV { content: synth_content@, is_error: true },
                ));
                assert(events.deep_view() =~= st.events);
            }
            (action, events)
        }
    }

    /// Answers the pending action's outcome: one transition of
    /// `spec_step`.
    #[verifier::rlimit(100)]
    pub fn step(&mut self, event: LoopEvent) -> (r: (LoopAction, Vec<AgentUpdate>))
        requires
            old(self).wf(),
            accepts(old(self).model().phase, event.deep_view()),
        ensures
            final(self).wf(),
            ({
                let st = spec_step(old(self).model(), event.deep_view(), final(self).turn_id@);
                &&& final(self).model() == st.state
                &&& r.0.deep_view() == st.action
                &&& r.1.deep_view() == st.events
            }),
    {
        let ghost s0 = self.model();
        let ghost ev = event.deep_view();
        let mut phase = LoopPhase::Idle;
        core::mem::swap(&mut phase, &mut self.phase);
        match (phase, event) {
            (LoopPhase::AwaitSummary { request: _ }, LoopEvent::SummaryReady { summary }) => {
                let old_count = self.messages.len();
                let old_tokens = crate::tokens::estimate_tokens_for_messages(
                    self.messages.as_slice(),
                );
                let new_messages = self.context_manager.apply_summary(
                    self.messages.as_slice(),
                    summary.as_str(),
                );
                let new_count = new_messages.len();
                let new_tokens = crate::tokens::estimate_tokens_for_messages(
                    new_messages.as_slice(),
                );
                let saved = if old_tokens > new_tokens {
                    old_tokens - new_tokens
                } else {
                    0
                };
                proof {
                    lemma_wipe_tokens(self.messages.deep_view());
                    lemma_wipe_tokens(new_messages.deep_view());
                    lemma_wipe_keep(self.messages.deep_view(), s0.keep_recent_pairs);
                    let kept_u = crate::context::spec_messages_to_keep(
                        self.messages.deep_view(),
                        s0.keep_recent_pairs,
                    );
                    let kept_w = crate::context::spec_messages_to_keep(
                        s0.messages,
                        s0.keep_recent_pairs,
                    );
                    assert(kept_w == wipe_all(kept_u));
                    let pos: int = if crate::context::spec_leads_with_system(kept_u) {
                        1
                    } else {
                        0
                    };
                    if kept_u.len() > 0 {
                        assert(wipe_all(kept_u)[0] == wipe(kept_u[0]));
                    }
                    let inserted = new_messages.deep_view()[pos];
                    assert(new_messages.deep_view() == kept_u.insert(pos, inserted));
                    let summary_w = MessageV {
                        role: Role::Assistant,
                        content: "[Previous conversation summarized: "@ + summary@ + "]"@,
                        timestamp_ms: None,
                        is_prompt: false,
                        tool_call_id: None,
                        tool_calls: None,
                        attachments: None,
                    };
                    assert(wipe(inserted) == summary_w);
                    assert forall|i: int|
                        0 <= i < kept_u.len() + 1 implies wipe_all(kept_u.insert(pos, inserted))[i]
                        == kept_w.insert(pos, summary_w)[i] by {
                        if i < pos {
                            assert(kept_u.insert(pos, inserted)[i] == kept_u[i]);
                            assert(kept_w.insert(pos, summary_w)[i] == kept_w[i]);
                        } else if i == pos {
                        } else {
                            assert(kept_u.insert(pos, inserted)[i] == kept_u[i - 1]);
                            assert(kept_w.insert(pos, summary_w)[i] == kept_w[i - 1]);
                        }
                    }
                    assert(wipe_all(new_messages.deep_view()) =~= kept_w.insert(pos, summary_w));
                }
                self.messages = new_messages;
                self.phase = LoopPhase::AwaitModel;
                let mut events: Vec<AgentUpdate> = Vec::new();
                events.push(
                    AgentUpdate::ContextSummarized {
                        turn_id: self.turn_id.clone(),
                        old_count,
                        new_count,
                        tokens_saved: saved,
                    },
                );
                proof {
                    let st = spec_step(s0, ev, self.turn_id@);
                    assert(self.model() =~= st.state);
                    assert(events.deep_view() =~= st.events);
                }
                (LoopAction::CallModel, events)
            },
            (LoopPhase::AwaitSummary { request: _ }, LoopEvent::SummaryFailed { error: _ }) => {
                self.phase = LoopPhase::AwaitModel;
                let events: Vec<AgentUpdate> = Vec::new();
                proof {
                    let st = spec_step(s0, ev, self.turn_id@);
                    assert(self.model() =~= st.state);
                    assert(events.deep_view() =~= st.events);
                }
                (LoopAction::CallModel, events)
            },
            (LoopPhase::AwaitModel, LoopEvent::ModelResponded { content, tool_calls }) => {
                if tool_calls.len() == 0 {
                    let mut events: Vec<AgentUpdate> = Vec::new();
                    events.push(
                        AgentUpdate::AssistantComplete {
                            turn_id: self.turn_id.clone(),
                            full_text: content.clone(),
                        },
                    );
                    events.push(AgentUpdate::EndTurn { turn_id: self.turn_id.clone() });
                    events.push(AgentUpdate::EndConversation { final_text: content.clone() });
                    self.phase = LoopPhase::Done { final_text: content.clone() };
                    proof {
                        let st = spec_step(s0, ev, self.turn_id@);
                        assert(self.model() =~= st.state);
                        assert(events.deep_view() =~= st.events);
                    }
                    (LoopAction::Finished { final_text: content }, events)
                } else {
                    let ghost calls_v = tool_calls.deep_view();
                    let mut events: Vec<AgentUpdate> = Vec::new();
                    let trimmed = crate::text::trim_ascii(content.as_str());
                    if trimmed.as_str().unicode_len() > 0 {
                        events.push(
                            AgentUpdate::AssistantComplete {
                                turn_id: self.turn_id.clone(),
                                full_text: content.clone(),
                            },
                        );
                    }
                    let mut plan_items: Vec<PlannedTool> = Vec::new();
                    let mut i: usize = 0;
                    while i < tool_calls.len()
                        invariant
                            0 <= i <= tool_calls@.len(),
                            calls_v == tool_calls.deep_view(),
                            calls_v.len() == tool_calls@.len(),
                            forall|m: int|
                                0 <= m < calls_v.len() ==> calls_v[m] == tool_calls@[m].deep_view(),
                            plan_items@.len() == i,
                            forall|m: int|
                                0 <= m < i ==> plan_items@[m].deep_view() == (PlannedToolV {
                                    name: calls_v[m].name,
                                    params_json: crate::json::spec_json_text(calls_v[m].parameters),
                                }),
                        decreases tool_calls@.len() - i,
                    {
                        let pj = tool_calls[i].parameters.to_text();
                        plan_items.push(
                            PlannedTool { name: tool_calls[i].name.clone(), params_json: pj },
                        );
                        i = i + 1;
                    }
                    proof {
                        assert(plan_items.deep_view() =~= Seq::new(
                            calls_v.len(),
                            |m: int| PlannedToolV {
                                name: calls_v[m].name,
                                params_json: crate::json::spec_json_text(calls_v[m].parameters),
                            },
                        ));
                    }
                    events.push(
                        AgentUpdate::ToolPlanned {
                            turn_id: self.turn_id.clone(),
                            plan_items,
                        },
                    );
                    let first_params = tool_calls[0].parameters.to_text();
                    events.push(
                        AgentUpdate::ToolStarted {
                            turn_id: self.turn_id.clone(),
                            tool_call_id: tool_calls[0].id.clone(),
                            name: tool_calls[0].name.clone(),
                            params_json: first_params,
                        },
                    );
                    self.phase = LoopPhase::AwaitTool {
                        content,
                        calls: tool_calls,
                        idx: 0,
                        attempt: 1,
                        results: Vec::new(),
                    };
                    proof {
                        let st = spec_step(s0, ev, self.turn_id@);
                        assert(self.phase->AwaitTool_results.deep_view() =~= Seq::<
                            ToolResultV,
                        >::empty());
                        assert(self.model() =~= st.state);
                        assert(events.deep_view() =~= st.events);
                    }
                    (LoopAction::CallTool { attempt: 1 }, events)
                }
            },
            (LoopPhase::AwaitModel, LoopEvent::ModelFailed { error }) => {
                let mut ev_err = String::from_str("Model communication failed: ");
                ev_err.append(error.as_str());
                let mut fail_err = String::from_str("LLM call failed: ");
                fail_err.append(error.as_str());
                let mut events: Vec<AgentUpdate> = Vec::new();
                events.push(
                    AgentUpdate::ModelError { turn_id: self.turn_id.clone(), error: ev_err },
                );
                self.phase = LoopPhase::Failed { error: fail_err.clone() };
                proof {
                    let st = spec_step(s0, ev, self.turn_id@);
                    assert(self.model() =~= st.state);
                    assert(events.deep_view() =~= st.events);
                }
                (LoopAction::Failed { error: fail_err }, events)
            },
            (
                LoopPhase::AwaitTool { content, calls, idx, attempt: _, mut results },
                LoopEvent::ToolCompleted { result },
            ) => {
                let ghost rs0 = s0.phase->AwaitTool_results;
                results.push(result);
                proof {
                    assert(results.deep_view() =~= rs0.push(ev->ToolCompleted_result));
                }
                let ghost s_mid = self.model();
                let r = self.advance_after_result(content, calls, idx, results);
                proof {
                    lemma_after_result_phase(
                        s0,
                        s_mid,
                        self.turn_id@,
                        content@,
                        calls.deep_view(),
                        idx as int,
                        results.deep_view(),
                    );
                    let st = spec_step(s0, ev, self.turn_id@);
                    assert(self.model() == st.state);
                    assert(r.1.deep_view() == st.events);
                }
                r
            },
            (
                LoopPhase::AwaitTool { content, calls, idx, attempt, results },
                LoopEvent::ToolFailed { error },
            ) => {
                let mut synth = String::from_str("Error: ");
                synth.append(error.as_str());
                proof {
                    assert(synth@ =~= "Error: "@ + error@);
                }
                let ghost s_mid = self.model();
                let ghost error_v = error@;
                let r = self.handle_tool_failure(
                    content,
                    calls,
                    idx,
                    attempt,
                    results,
                    error,
                    synth,
                );
                proof {
                    lemma_after_failure_phase(
                        s0,
                        s_mid,
                        self.turn_id@,
                        content@,
                        calls.deep_view(),
                        idx as int,
                        attempt,
                        results.deep_view(),
                        error_v,
                        "Error: "@ + error_v,
                    );
                    let st = spec_step(s0, ev, self.turn_id@);
                    assert(self.model() == st.state);
                    assert(r.1.deep_view() == st.events);
                }
                r
            },
            (
                LoopPhase::AwaitTool { content, calls, idx, attempt, results },
                LoopEvent::ToolTimedOut,
            ) => {
                let mut err = String::from_str("Timeout after ");
                err.append(crate::text::u64_to_dec(self.tool_timeout_secs).as_str());
                err.append("s");
                proof {
                    assert(err@ =~= "Timeout after "@ + crate::text::spec_dec_u64(
                        s0.tool_timeout_secs as nat,
                    ) + "s"@);
                }
                let synth = String::from_str("Timeout");
                let ghost s_mid = self.model();
                let ghost error_v = err@;
                let r = self.handle_tool_failure(
                    content,
                    calls,
                    idx,
                    attempt,
                    results,
                    err,
                    synth,
                );
                proof {
                    lemma_after_failure_phase(
                        s0,
                        s_mid,
                        self.turn_id@,
                        content@,
                        calls.deep_view(),
                        idx as int,
                        attempt,
                        results.deep_view(),
                        error_v,
                        "Timeout"@,
                    );
                    let st = spec_step(s0, ev, self.turn_id@);
                    assert(self.model() == st.state);
                    assert(r.1.deep_view() == st.events);
                }
                r
            },
            _ => {
                proof {
                    assert(false);
                }
                (LoopAction::CallModel, Vec::new())
            },
        }
    }

    /// Starts a conversation over the given history: the first turn opens
    /// with a fresh turn id and the iteration count reset.
    pub fn start(&mut self, messages: Vec<Message>) -> (r: (LoopAction, Vec<AgentUpdate>))
        requires
            old(self).wf(),
        ensures
            final(self).wf(),
            ({
                let s0 = EngineV {
                    messages: wipe_all(messages.deep_view()),
                    iteration: 0,
                    phase: LoopPhaseV::Idle,
                    ..old(self).model()
                };
                let st = spec_begin(s0, final(self).turn_id@);
                &&& final(self).model() == st.state
                &&& r.0.deep_view() == st.action
                &&& r.1.deep_view() == st.events
            }),
    {
        self.messages = messages;
        self.iteration = 0;
        self.phase = LoopPhase::Idle;
        let tid = fresh_turn_id();
        let r = self.begin_turn(tid);
        r
    }
}

// ---------------------------------------------------------------------------
// Laws
// ---------------------------------------------------------------------------

/// Law: in any turn with N tool calls, the Tool-role messages appended to
/// history occur in the same order as the corresponding calls in the
/// Assistant message, and each Tool-role message links back to its call's
/// id; its content is the result's, with the error prefix for errors.
pub proof fn lemma_tool_results_ordered(
    content: Seq<char>,
    calls: Seq<ToolCallV>,
    results: Seq<ToolResultV>,
)
    requires
        calls.len() == results.len(),
    ensures
        ({
            let appended = spec_turn_messages(content, calls, results);
            &&& appended.len() == 1 + calls.len()
            &&& appended[0].role == Role::Assistant
            &&& appended[0].content == content
            &&& appended[0].tool_calls == Some(calls)
            &&& forall|i: int|
                0 <= i < calls.len() ==> (#[trigger] appended[i + 1]).role == Role::Tool
                    && appended[i + 1].tool_call_id == Some(calls[i].id) && appended[i + 1].content
                    == crate::chat::spec_tool_result_content(
                    results[i].content,
                    results[i].is_error,
                )
        }),
{
    let appended = spec_turn_messages(content, calls, results);
    assert forall|i: int| 0 <= i < calls.len() implies (#[trigger] appended[i + 1]).role
        == Role::Tool && appended[i + 1].tool_call_id == Some(calls[i].id) && appended[i
        + 1].content == crate::chat::spec_tool_result_content(
        results[i].content,
        results[i].is_error,
    ) by {
        assert(appended[i + 1] == spec_tool_result_message(calls[i], results[i]));
    }
}

/// Law: when the last call of a turn completes, the engine appends to
/// history exactly the Assistant message with its calls, followed by the
/// Tool-role result messages in call order — nothing else, nothing
/// reordered.
pub proof fn lemma_turn_append(
    s: EngineV,
    content: Seq<char>,
    calls: Seq<ToolCallV>,
    results: Seq<ToolResultV>,
    result: ToolResultV,
    tid: Seq<char>,
)
    requires
        calls.len() > 0,
        results.len() == calls.len() - 1,
        s.phase == (LoopPhaseV::AwaitTool {
            content,
            calls,
            idx: calls.len() - 1,
            attempt: 1u32,
            results,
        }),
    ensures
        spec_step(s, LoopEventV::ToolCompleted { result }, tid).state.messages == s.messages
            + spec_turn_messages(content, calls, results.push(result)),
{
}

/// The data-model invariant of a history: every Tool-role message carries
/// a tool call id linking it to its originating call.
pub open spec fn spec_history_tool_links(msgs: Seq<MessageV>) -> bool {
    forall|i: int|
        0 <= i < msgs.len() ==> ((#[trigger] msgs[i]).role is Tool ==> msgs[i].tool_call_id
            is Some)
}

/// Law: every transition preserves the history invariant — a Tool-role
/// message always carries exactly one tool call id.  The engine itself
/// appends Tool-role messages only through `spec_turn_messages`, which
/// links each to its call.
pub proof fn lemma_history_tool_links_preserved(s: EngineV, e: LoopEventV, tid: Seq<char>)
    requires
        spec_history_tool_links(s.messages),
        s.keep_recent_pairs >= 0,
        s.phase matches LoopPhaseV::AwaitTool { calls, idx, results, .. } ==> 0 <= idx
            < calls.len() && results.len() == idx,
    ensures
        spec_history_tool_links(spec_step(s, e, tid).state.messages),
{
    let msgs2 = spec_step(s, e, tid).state.messages;
    match (s.phase, e) {
        (LoopPhaseV::AwaitSummary { request }, LoopEventV::SummaryReady { summary }) => {
            let kept = crate::context::spec_messages_to_keep(s.messages, s.keep_recent_pairs);
            assert forall|i: int|
                0 <= i < kept.len() implies ((#[trigger] kept[i]).role is Tool
                ==> kept[i].tool_call_id is Some) by {
                let len = s.messages.len() as int;
                if len <= 2 * s.keep_recent_pairs {
                } else {
                    let ts = crate::context::spec_tail_start(len, s.keep_recent_pairs);
                    if crate::context::spec_leads_with_system(s.messages) {
                        if i == 0 {
                            assert(kept[0] == s.messages[0]);
                        } else {
                            assert(kept[i] == s.messages[ts + i - 1]);
                        }
                    } else {
                        assert(kept[i] == s.messages[ts + i]);
                    }
                }
            }
            let pos: int = if crate::context::spec_leads_with_system(kept) {
                1
            } else {
                0
            };
            assert forall|i: int|
                0 <= i < msgs2.len() implies ((#[trigger] msgs2[i]).role is Tool
                ==> msgs2[i].tool_call_id is Some) by {
                if i < pos {
                    assert(msgs2[i] == kept[i]);
                } else if i > pos {
                    assert(msgs2[i] == kept[i - 1]);
                }
            }
        },
        (
            LoopPhaseV::AwaitTool { content, calls, idx, attempt, results },
            LoopEventV::ToolCompleted { result },
        ) => {
            lemma_history_links_after_result(s, tid, content, calls, idx, results.push(result));
        },
        (
            LoopPhaseV::AwaitTool { content, calls, idx, attempt, results },
            LoopEventV::ToolFailed { error },
        ) => {
            if attempt > s.max_tool_retries {
                let synth = ToolResultV { content: "Error: "@ + error, is_error: true };
                lemma_history_links_after_result(s, tid, content, calls, idx, results.push(synth));
            }
        },
        (LoopPhaseV::AwaitTool { content, calls, idx, attempt, results }, LoopEventV::ToolTimedOut) => {
            if attempt > s.max_tool_retries {
                let synth = ToolResultV { content: "Timeout"@, is_error: true };
                lemma_history_links_after_result(s, tid, content, calls, idx, results.push(synth));
            }
        },
        _ => {},
    }
}

proof fn lemma_history_links_after_result(
    s: EngineV,
    tid: Seq<char>,
    content: Seq<char>,
    calls: Seq<ToolCallV>,
    idx: int,
    results2: Seq<ToolResultV>,
)
    requires
        spec_history_tool_links(s.messages),
        0 <= idx < calls.len(),
    ensures
        spec_history_tool_links(spec_after_result(s, tid, content, calls, idx, results2).state.messages),
{
    if idx + 1 < calls.len() {
    } else {
        let appended = spec_turn_messages(content, calls, results2);
        let msgs2 = s.messages + appended;
        assert forall|i: int|
            0 <= i < msgs2.len() implies ((#[trigger] msgs2[i]).role is Tool
            ==> msgs2[i].tool_call_id is Some) by {
            if i >= s.messages.len() {
                if i > s.messages.len() {
                    let k = i - s.messages.len() - 1;
                    assert(appended[i - s.messages.len()] == spec_tool_result_message(
                        calls[k],
                        results2[k],
                    ));
                }
            }
        }
    }
}

/// How many consecutive failing attempts transform the engine: the state
/// after `k` times answering the pending tool attempt with the same
/// failing event.
pub open spec fn spec_fail_n(s: EngineV, e: LoopEventV, tid: Seq<char>, k: nat) -> EngineV
    decreases k,
{
    if k == 0 {
        s
    } else {
        spec_step(spec_fail_n(s, e, tid, (k - 1) as nat), e, tid).state
    }
}

/// Law (retry bound, part one): while retries remain, every failing
/// attempt keeps the engine on the same call with the attempt counter one
/// higher, and asks for exactly one more attempt.  Starting from attempt 1,
/// after `k <= max_tool_retries` failures the engine is at attempt `k + 1`;
/// together with the exhaustion law this makes a tool that always fails be
/// attempted exactly `max_tool_retries + 1` times.
pub proof fn lemma_retry_bound(
    s: EngineV,
    error: Seq<char>,
    tid: Seq<char>,
    content: Seq<char>,
    calls: Seq<ToolCallV>,
    idx: int,
    results: Seq<ToolResultV>,
    k: nat,
)
    requires
        0 <= idx < calls.len(),
        results.len() == idx,
        s.phase == (LoopPhaseV::AwaitTool { content, calls, idx, attempt: 1u32, results }),
        s.max_tool_retries < u32::MAX,
        k <= s.max_tool_retries,
    ensures
        ({
            let e = LoopEventV::ToolFailed { error };
            let sk = spec_fail_n(s, e, tid, k);
            &&& sk == (EngineV {
                phase: LoopPhaseV::AwaitTool {
                    content,
                    calls,
                    idx,
                    attempt: (k + 1) as u32,
                    results,
                },
                ..s
            })
            &&& k > 0 ==> spec_step(spec_fail_n(s, e, tid, (k - 1) as nat), e, tid).action
                == (LoopActionV::CallTool { attempt: (k + 1) as u32 })
        }),
    decreases k,
{
    let e = LoopEventV::ToolFailed { error };
    if k > 0 {
        lemma_retry_bound(s, error, tid, content, calls, idx, results, (k - 1) as nat);
        let prev = spec_fail_n(s, e, tid, (k - 1) as nat);
        assert(spec_fail_n(s, e, tid, k) == spec_step(prev, e, tid).state);
        assert(spec_step(prev, e, tid).state =~= EngineV {
            phase: LoopPhaseV::AwaitTool {
                content,
                calls,
                idx,
                attempt: (k + 1) as u32,
                results,
            },
            ..s
        });
    } else {
        assert(spec_fail_n(s, e, tid, 0) == s);
        assert(s =~= EngineV {
            phase: LoopPhaseV::AwaitTool { content, calls, idx, attempt: 1u32, results },
            ..s
        });
    }
}

/// Law (retry bound, part two): the failure after the last allowed retry —
/// attempt `max_tool_retries + 1` — is not retried.  Its `ToolError` event
/// is marked non-retryable, a synthesized error result carrying the error
/// message is recorded for the call, and the loop moves on: either to the
/// next call of the turn, or by sealing the turn with the synthesized
/// result in the appended history.
pub proof fn lemma_retry_exhaustion(
    s: EngineV,
    error: Seq<char>,
    tid: Seq<char>,
    content: Seq<char>,
    calls: Seq<ToolCallV>,
    idx: int,
    results: Seq<ToolResultV>,
)
    requires
        0 <= idx < calls.len(),
        results.len() == idx,
        s.phase == (LoopPhaseV::AwaitTool { content, calls, idx, attempt: 1u32, results }),
        s.max_tool_retries < u32::MAX,
    ensures
        ({
            let e = LoopEventV::ToolFailed { error };
            let last = spec_step(spec_fail_n(s, e, tid, s.max_tool_retries as nat), e, tid);
            let synth = ToolResultV { content: "Error: "@ + error, is_error: true };
            &&& last.events[0] == (AgentUpdateV::ToolError {
                turn_id: s.turn_id,
                tool_call_id: calls[idx].id,
                name: calls[idx].name,
                error,
                retryable: false,
            })
            &&& if idx + 1 < calls.len() {
                last.state.phase == (LoopPhaseV::AwaitTool {
                    content,
                    calls,
                    idx: idx + 1,
                    attempt: 1u32,
                    results: results.push(synth),
                })
            } else {
                last.state.messages == s.messages + spec_turn_messages(
                    content,
                    calls,
                    results.push(synth),
                )
            }
        }),
{
    let e = LoopEventV::ToolFailed { error };
    lemma_retry_bound(
        s,
        error,
        tid,
        content,
        calls,
        idx,
        results,
        s.max_tool_retries as nat,
    );
    let sr = spec_fail_n(s, e, tid, s.max_tool_retries as nat);
    assert(sr.phase == (LoopPhaseV::AwaitTool {
        content,
        calls,
        idx,
        attempt: (s.max_tool_retries + 1) as u32,
        results,
    }));
}

} // verus!
