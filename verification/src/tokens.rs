//! Token estimation for the context-window trigger: one token for every
//! four characters of content, rounded up, summed over message content,
//! serialized tool-call parameters, and attachment texts.  A heuristic,
//! not provider-exact.

use vstd::prelude::*;

use crate::chat::{Attachment, AttachmentV, Message, MessageV, ToolCallV};
use crate::json::spec_json_text;

verus! {

/// One token for every four characters, rounded up, clamped to `u32`.
pub open spec fn spec_est(n: nat) -> nat {
    if (n + 3) / 4 > u32::MAX {
        u32::MAX as nat
    } else {
        (n + 3) / 4
    }
}

/// Estimates the tokens of one text.
pub fn estimate_tokens(text: &str) -> (r: u32)
    ensures
        r as nat == spec_est(text@.len()),
{
    let len = text.unicode_len();
    let q = len / 4 + if len % 4 == 0 {
        0
    } else {
        1
    };
    if q > u32::MAX as usize {
        u32::MAX
    } else {
        q as u32
    }
}

/// The token estimate of one attachment: path, name, type, and the carried
/// text content if any.
pub open spec fn spec_tokens_attachment(a: AttachmentV) -> nat {
    spec_est(a.file_path.len()) + spec_est(a.file_name.len()) + spec_est(a.mime_type.len())
        + match a.content {
        Some(c) => spec_est(c.len()),
        None => 0,
    }
}

/// The token estimate of a list of attachments.
pub open spec fn spec_tokens_attachments(s: Seq<AttachmentV>) -> nat
    decreases s.len(),
{
    if s.len() == 0 {
        0
    } else {
        spec_tokens_attachments(s.drop_last()) + spec_tokens_attachment(s.last())
    }
}

/// The token estimate of one tool call: id, name, and the serialized
/// parameters.
pub open spec fn spec_tokens_tool_call(tc: ToolCallV) -> nat {
    spec_est(tc.id.len()) + spec_est(tc.name.len()) + spec_est(
        spec_json_text(tc.parameters).len(),
    )
}

/// The token estimate of a list of tool calls.
pub open spec fn spec_tokens_tool_calls(s: Seq<ToolCallV>) -> nat
    decreases s.len(),
{
    if s.len() == 0 {
        0
    } else {
        spec_tokens_tool_calls(s.drop_last()) + spec_tokens_tool_call(s.last())
    }
}

/// The token estimate of one message: its content, its tool calls, and its
/// attachments.
pub open spec fn spec_tokens_message(m: MessageV) -> nat {
    spec_est(m.content.len()) + match m.tool_calls {
        Some(calls) => spec_tokens_tool_calls(calls),
        None => 0,
    } + match m.attachments {
        Some(atts) => spec_tokens_attachments(atts),
        None => 0,
    }
}

/// The token estimate of a list of messages.
pub open spec fn spec_tokens_messages(s: Seq<MessageV>) -> nat
    decreases s.len(),
{
    if s.len() == 0 {
        0
    } else {
        spec_tokens_messages(s.drop_last()) + spec_tokens_message(s.last())
    }
}

/// A sum clamped to `u32`.
pub open spec fn clamp_u32(n: nat) -> nat {
    if n > u32::MAX {
        u32::MAX as nat
    } else {
        n
    }
}

fn sat_add_u32(a: u32, b: u32) -> (r: u32)
    ensures
        r as nat == clamp_u32(a as nat + b as nat),
{
    if a > u32::MAX - b {
        u32::MAX
    } else {
        a + b
    }
}

/// Estimates the tokens of a list of attachments.
pub fn estimate_tokens_for_attachments(attachments: &[Attachment]) -> (r: u32)
    ensures
        r as nat == clamp_u32(spec_tokens_attachments(attachments.deep_view())),
{
    let ghost vs = attachments.deep_view();
    let mut total: u32 = 0;
    let mut i: usize = 0;
    while i < attachments.len()
        invariant
            0 <= i <= attachments@.len(),
            vs == attachments.deep_view(),
            vs.len() == attachments@.len(),
            forall|k: int| 0 <= k < vs.len() ==> vs[k] == attachments@[k].deep_view(),
            total as nat == clamp_u32(spec_tokens_attachments(vs.subrange(0, i as int))),
        decreases attachments@.len() - i,
    {
        let a = &attachments[i];
        let mut one = estimate_tokens(a.file_path.as_str());
        one = sat_add_u32(one, estimate_tokens(a.file_name.as_str()));
        one = sat_add_u32(one, estimate_tokens(a.mime_type.as_str()));
        match &a.content {
            Some(c) => {
                one = sat_add_u32(one, estimate_tokens(c.as_str()));
            },
            None => {},
        }
        total = sat_add_u32(total, one);
        i = i + 1;
        proof {
            let p = vs.subrange(0, i as int);
            assert(p.drop_last() =~= vs.subrange(0, i - 1));
            assert(p.last() == vs[i - 1]);
        }
    }
    proof {
        assert(vs.subrange(0, vs.len() as int) =~= vs);
    }
    total
}

/// Estimates the tokens of one message.
pub fn estimate_tokens_for_message(message: &Message) -> (r: u32)
    ensures
        r as nat == clamp_u32(spec_tokens_message(message.deep_view())),
{
    let mut total = estimate_tokens(message.content.as_str());
    match &message.tool_calls {
        Some(calls) => {
            let ghost vs = calls.deep_view();
            let mut i: usize = 0;
            let mut calls_total: u32 = 0;
            while i < calls.len()
                invariant
                    0 <= i <= calls@.len(),
                    vs == calls.deep_view(),
                    vs.len() == calls@.len(),
                    forall|k: int| 0 <= k < vs.len() ==> vs[k] == calls@[k].deep_view(),
                    calls_total as nat == clamp_u32(
                        spec_tokens_tool_calls(vs.subrange(0, i as int)),
                    ),
                decreases calls@.len() - i,
            {
                let tc = &calls[i];
                let mut one = estimate_tokens(tc.id.as_str());
                one = sat_add_u32(one, estimate_tokens(tc.name.as_str()));
                let rendered = tc.parameters.to_text();
                one = sat_add_u32(one, estimate_tokens(rendered.as_str()));
                calls_total = sat_add_u32(calls_total, one);
                i = i + 1;
                proof {
                    let p = vs.subrange(0, i as int);
                    assert(p.drop_last() =~= vs.subrange(0, i - 1));
                    assert(p.last() == vs[i - 1]);
                }
            }
            proof {
                assert(vs.subrange(0, vs.len() as int) =~= vs);
            }
            total = sat_add_u32(total, calls_total);
        },
        None => {},
    }
    match &message.attachments {
        Some(atts) => {
            let s = atts.as_slice();
            proof {
                assert(s.deep_view() =~= atts.deep_view());
            }
            let atts_total = estimate_tokens_for_attachments(s);
            total = sat_add_u32(total, atts_total);
        },
        None => {},
    }
    total
}

/// Estimates the tokens of a list of messages.
pub fn estimate_tokens_for_messages(messages: &[Message]) -> (r: u32)
    ensures
        r as nat == clamp_u32(spec_tokens_messages(messages.deep_view())),
{
    let ghost vs = messages.deep_view();
    let mut total: u32 = 0;
    let mut i: usize = 0;
    while i < messages.len()
        invariant
            0 <= i <= messages@.len(),
            vs == messages.deep_view(),
            vs.len() == messages@.len(),
            forall|k: int| 0 <= k < vs.len() ==> vs[k] == messages@[k].deep_view(),
            total as nat == clamp_u32(spec_tokens_messages(vs.subrange(0, i as int))),
        decreases messages@.len() - i,
    {
        let one = estimate_tokens_for_message(&messages[i]);
        total = sat_add_u32(total, one);
        i = i + 1;
        proof {
            let p = vs.subrange(0, i as int);
            assert(p.drop_last() =~= vs.subrange(0, i - 1));
            assert(p.last() == vs[i - 1]);
        }
    }
    proof {
        assert(vs.subrange(0, vs.len() as int) =~= vs);
    }
    total
}

/// Estimates the tokens of a system prompt.
pub fn estimate_tokens_for_system_prompt(system_prompt: &str) -> (r: u32)
    ensures
        r as nat == spec_est(system_prompt@.len()),
{
    estimate_tokens(system_prompt)
}

/// Estimates the whole context: the system prompt, if any, plus every
/// message.
pub fn estimate_total_context_tokens(system_prompt: Option<&str>, messages: &[Message]) -> (r: u32)
    ensures
        r as nat == clamp_u32(
            match system_prompt {
                Some(p) => spec_est(p@.len()),
                None => 0,
            } + spec_tokens_messages(messages.deep_view()),
        ),
{
    let mut total: u32 = 0;
    match system_prompt {
        Some(p) => {
            total = estimate_tokens_for_system_prompt(p);
        },
        None => {},
    }
    let msgs = estimate_tokens_for_messages(messages);
    sat_add_u32(total, msgs)
}

} // verus!
