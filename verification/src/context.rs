//! The context-window manager: decides when conversation history must be
//! summarized and how the message list is partitioned and rewritten.
//!
//! The partition rule: a leading System-role message is always retained,
//! the last `keep_recent_pairs` exchanges (two messages each) are always
//! retained, and everything strictly between them is the summarization
//! candidate set.

use vstd::prelude::*;

use crate::chat::{Message, MessageV, Role};

verus! {

/// Decides when and how conversation history is compressed.
pub struct ContextManager {
    /// How many recent message pairs to keep when summarizing.
    pub keep_recent_pairs: usize,
}

impl Default for ContextManager {
    /// Keeps the last five exchanges.
    fn default() -> (r: ContextManager)
        ensures
            r.keep_recent_pairs == 5,
    {
        ContextManager { keep_recent_pairs: 5 }
    }
}

/// Whether usage crosses the threshold: `tokens / window >= threshold`,
/// with the threshold in per-mille; an empty window never triggers.
pub open spec fn spec_should_summarize(
    current_tokens: u32,
    window_size: u32,
    threshold_permille: u32,
) -> bool {
    window_size != 0 && (current_tokens as int) * 1000 >= (threshold_permille as int) * (
    window_size as int)
}

/// Where the retained tail of a history starts: the last `2 * keep` messages.
pub open spec fn spec_tail_start(len: int, keep: int) -> int {
    if len <= 2 * keep {
        0
    } else {
        len - 2 * keep
    }
}

/// Whether a history opens with a System-role message.
pub open spec fn spec_leads_with_system(messages: Seq<MessageV>) -> bool {
    messages.len() > 0 && messages[0].role == Role::System
}

/// The summarization candidates: everything strictly between the leading
/// System message, if any, and the retained tail.  Empty when the history
/// is no longer than the tail.
pub open spec fn spec_summarization_candidates(messages: Seq<MessageV>, keep: int) -> Seq<
    MessageV,
> {
    let len = messages.len() as int;
    if len <= 2 * keep {
        Seq::empty()
    } else {
        let start = if spec_leads_with_system(messages) {
            1int
        } else {
            0int
        };
        let end = spec_tail_start(len, keep);
        if start >= end {
            Seq::empty()
        } else {
            messages.subrange(start, end)
        }
    }
}

/// What is kept when summarizing: the whole history when it is no longer
/// than the tail; else the leading System message, if any, followed by the
/// tail.
pub open spec fn spec_messages_to_keep(messages: Seq<MessageV>, keep: int) -> Seq<MessageV> {
    let len = messages.len() as int;
    if len <= 2 * keep {
        messages
    } else {
        let tail = messages.subrange(spec_tail_start(len, keep), len);
        if spec_leads_with_system(messages) {
            seq![messages[0]] + tail
        } else {
            tail
        }
    }
}

impl ContextManager {
    /// A manager keeping the given number of recent pairs.
    pub fn new(keep_recent_pairs: usize) -> (r: ContextManager)
        ensures
            r.keep_recent_pairs == keep_recent_pairs,
    {
        ContextManager { keep_recent_pairs }
    }

    /// Whether summarization is needed at the given usage.
    pub fn should_summarize(
        &self,
        current_tokens: u32,
        window_size: u32,
        threshold_permille: u32,
    ) -> (r: bool)
        ensures
            r == spec_should_summarize(current_tokens, window_size, threshold_permille),
    {
        if window_size == 0 {
            return false;
        }
        proof {
            assert((threshold_permille as int) * (window_size as int) <= 0xffffffff * 0xffffffff)
                by (nonlinear_arith)
                requires
                    threshold_permille <= 0xffffffffu32,
                    window_size <= 0xffffffffu32,
            ;
        }
        (current_tokens as u128) * 1000 >= (threshold_permille as u128) * (window_size as u128)
    }

    /// The messages to summarize: copies of everything strictly between the
    /// leading System message and the retained tail.
    pub fn build_summarization_messages(&self, messages: &[Message]) -> (r: Vec<Message>)
        ensures
            r.deep_view() == spec_summarization_candidates(
                messages.deep_view(),
                self.keep_recent_pairs as int,
            ),
    {
        let len = messages.len();
        let keep_count = if self.keep_recent_pairs > usize::MAX / 2 {
            usize::MAX
        } else {
            self.keep_recent_pairs * 2
        };
        if len <= keep_count {
            let r: Vec<Message> = Vec::new();
            proof {
                assert(r.deep_view() =~= spec_summarization_candidates(
                    messages.deep_view(),
                    self.keep_recent_pairs as int,
                ));
            }
            return r;
        }
        let start: usize = if matches!(messages[0].role, Role::System) {
            1
        } else {
            0
        };
        let end = len - keep_count;
        let mut out: Vec<Message> = Vec::new();
        if start >= end {
            proof {
                assert(out.deep_view() =~= spec_summarization_candidates(
                    messages.deep_view(),
                    self.keep_recent_pairs as int,
                ));
            }
            return out;
        }
        let mut i = start;
        while i < end
            invariant
                start <= i <= end <= messages@.len(),
                out@.len() == i - start,
                forall|k: int|
                    0 <= k < out@.len() ==> out@[k].deep_view() == messages@[k
                        + start].deep_view(),
            decreases end - i,
        {
            out.push(messages[i].clone());
            i = i + 1;
        }
        proof {
            assert(out.deep_view() =~= spec_summarization_candidates(
                messages.deep_view(),
                self.keep_recent_pairs as int,
            ));
        }
        out
    }

    /// The messages to keep: a copy of the leading System message, if any,
    /// followed by copies of the retained tail.
    pub fn get_messages_to_keep(&self, messages: &[Message]) -> (r: Vec<Message>)
        ensures
            r.deep_view() == spec_messages_to_keep(
                messages.deep_view(),
                self.keep_recent_pairs as int,
            ),
    {
        let len = messages.len();
        let keep_count = if self.keep_recent_pairs > usize::MAX / 2 {
            usize::MAX
        } else {
            self.keep_recent_pairs * 2
        };
        let mut out: Vec<Message> = Vec::new();
        if len <= keep_count {
            let mut i: usize = 0;
            while i < len
                invariant
                    0 <= i <= len,
                    len == messages@.len(),
                    out@.len() == i,
                    forall|k: int|
                        0 <= k < out@.len() ==> out@[k].deep_view() == messages@[k].deep_view(),
                decreases len - i,
            {
                out.push(messages[i].clone());
                i = i + 1;
            }
            proof {
                assert(out.deep_view() =~= messages.deep_view());
            }
            return out;
        }
        let lead: usize = if matches!(messages[0].role, Role::System) {
            out.push(messages[0].clone());
            1
        } else {
            0
        };
        let tail_start = len - keep_count;
        let mut i = tail_start;
        while i < len
            invariant
                tail_start <= i <= len,
                len == messages@.len(),
                lead == 0 || lead == 1,
                lead == 1 ==> messages@.len() > 0 && out@.len() > 0 && out@[0].deep_view()
                    == messages@[0].deep_view(),
                out@.len() == lead + i - tail_start,
                forall|k: int|
                    lead <= k < out@.len() ==> out@[k].deep_view() == messages@[k - lead
                        + tail_start].deep_view(),
            decreases len - i,
        {
            out.push(messages[i].clone());
            i = i + 1;
        }
        proof {
            assert(out.deep_view() =~= spec_messages_to_keep(
                messages.deep_view(),
                self.keep_recent_pairs as int,
            ));
        }
        out
    }

    /// The two-message summarization request for the given candidates: a
    /// fixed System instruction and a User message wrapping the rendered
    /// conversation in the summary prompt.
    pub fn build_summary_request(&self, to_summarize: &[Message]) -> (r: Vec<Message>)
        ensures
            r.deep_view().len() == 2,
            r.deep_view()[0] == (MessageV {
                role: Role::System,
                content: "You are a helpful assistant that summarizes conversations concisely."@,
                timestamp_ms: r.deep_view()[0].timestamp_ms,
                is_prompt: false,
                tool_call_id: None,
                tool_calls: None,
                attachments: None,
            }),
            r.deep_view()[1] == (MessageV {
                role: Role::User,
                content: spec_summary_prompt(to_summarize.deep_view()),
                timestamp_ms: r.deep_view()[1].timestamp_ms,
                is_prompt: false,
                tool_call_id: None,
                tool_calls: None,
                attachments: None,
            }),
    {
        let mut conversation = String::new();
        let mut i: usize = 0;
        while i < to_summarize.len()
            invariant
                0 <= i <= to_summarize@.len(),
                conversation@ =~= spec_conversation_text(
                    to_summarize.deep_view().subrange(0, i as int),
                ),
            decreases to_summarize@.len() - i,
        {
            let m = &to_summarize[i];
            conversation.append(role_name(&m.role));
            conversation.append(": ");
            conversation.append(m.content.as_str());
            conversation.append("\n\n");
            i = i + 1;
            proof {
                let p = to_summarize.deep_view().subrange(0, i as int);
                assert(p.drop_last() =~= to_summarize.deep_view().subrange(0, i - 1));
                assert(p.last() == to_summarize.deep_view()[i - 1]);
                assert(conversation@ =~= spec_conversation_text(p));
            }
        }
        proof {
            assert(to_summarize.deep_view().subrange(0, to_summarize.deep_view().len() as int)
                =~= to_summarize.deep_view());
        }
        let mut prompt = String::from_str(
            "Please provide a concise summary of the following conversation history. Focus on key topics, decisions, and important information. Keep it under 200 words:\n\n",
        );
        prompt.append(conversation.as_str());
        let system = Message::new(
            Role::System,
            String::from_str("You are a helpful assistant that summarizes conversations concisely."),
        );
        let user = Message::new(Role::User, prompt);
        let mut r: Vec<Message> = Vec::new();
        r.push(system);
        r.push(user);
        r
    }

    /// The history rewritten after a summary came back: the retained set,
    /// with one synthetic Assistant message carrying the summary inserted
    /// right after the leading System message, or first when there is none.
    pub fn apply_summary(&self, messages: &[Message], summary: &str) -> (r: Vec<Message>)
        ensures
            ({
                let kept = spec_messages_to_keep(
                    messages.deep_view(),
                    self.keep_recent_pairs as int,
                );
                let pos: int = if spec_leads_with_system(kept) {
                    1
                } else {
                    0
                };
                &&& r.deep_view().len() == kept.len() + 1
                &&& r.deep_view() == kept.insert(pos, r.deep_view()[pos])
                &&& r.deep_view()[pos] == (MessageV {
                    role: Role::Assistant,
                    content: "[Previous conversation summarized: "@ + summary@ + "]"@,
                    timestamp_ms: r.deep_view()[pos].timestamp_ms,
                    is_prompt: false,
                    tool_call_id: None,
                    tool_calls: None,
                    attachments: None,
                })
            }),
    {
        let mut kept = self.get_messages_to_keep(messages);
        let insert_pos: usize = if kept.len() > 0 && matches!(kept[0].role, Role::System) {
            1
        } else {
            0
        };
        let mut text = String::from_str("[Previous conversation summarized: ");
        text.append(summary);
        text.append("]");
        let summary_message = Message::new(Role::Assistant, text);
        kept.insert(insert_pos, summary_message);
        proof {
            let kept_spec = spec_messages_to_keep(
                messages.deep_view(),
                self.keep_recent_pairs as int,
            );
            assert(spec_leads_with_system(kept_spec) <==> (kept_spec.len() > 0 && kept_spec[0].role
                == Role::System));
            assert(kept.deep_view() =~= kept_spec.insert(
                insert_pos as int,
                kept.deep_view()[insert_pos as int],
            ));
        }
        kept
    }
}

/// The display name of a role.
pub open spec fn spec_role_name(r: Role) -> Seq<char> {
    match r {
        Role::User => "User"@,
        Role::Assistant => "Assistant"@,
        Role::System => "System"@,
        Role::Tool => "Tool"@,
    }
}

/// The display name of a role.
pub fn role_name(r: &Role) -> (name: &'static str)
    ensures
        name@ == spec_role_name(*r),
{
    match r {
        Role::User => "User",
        Role::Assistant => "Assistant",
        Role::System => "System",
        Role::Tool => "Tool",
    }
}

/// The rendering of a candidate set for the summary prompt: one
/// `"Role: content"` line per message, each closed by a blank line.
pub open spec fn spec_conversation_text(s: Seq<MessageV>) -> Seq<char>
    decreases s.len(),
{
    if s.len() == 0 {
        Seq::empty()
    } else {
        spec_conversation_text(s.drop_last()) + spec_role_name(s.last().role) + ": "@
            + s.last().content + "\n\n"@
    }
}

/// The whole summary prompt: the fixed instruction, then the rendering.
pub open spec fn spec_summary_prompt(s: Seq<MessageV>) -> Seq<char> {
    "Please provide a concise summary of the following conversation history. Focus on key topics, decisions, and important information. Keep it under 200 words:\n\n"@
        + spec_conversation_text(s)
}

/// The temperature, in per-mille, for summarization requests.
pub const SUMMARY_TEMPERATURE_PERMILLE: u32 = 300;

/// The token cap for summarization requests.
pub const SUMMARY_MAX_TOKENS: u32 = 200;

} // verus!
