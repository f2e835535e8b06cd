//! The conversational data model: message roles, messages, tool calls and
//! results, and the error taxonomy shared by model backends.

use vstd::prelude::*;

use crate::json::{Json, JsonV};

verus! {

/// Who speaks in one conversational turn unit.
#[derive(Clone, Copy, PartialEq, Eq, Structural, Debug)]
pub enum Role {
    User,
    Assistant,
    System,
    Tool,
}

/// One tool invocation requested by the model.
pub struct ToolCall {
    pub id: String,
    pub name: String,
    pub parameters: Json,
}

/// The mathematical view of a tool call.
pub struct ToolCallV {
    pub id: Seq<char>,
    pub name: Seq<char>,
    pub parameters: JsonV,
}

impl DeepView for ToolCall {
    type V = ToolCallV;

    open spec fn deep_view(&self) -> ToolCallV {
        ToolCallV { id: self.id@, name: self.name@, parameters: self.parameters.deep_view() }
    }
}

impl Clone for ToolCall {
    /// A structural copy: the copy has the same view as the original.
    fn clone(&self) -> (res: ToolCall)
        ensures
            res.deep_view() == self.deep_view(),
    {
        ToolCall {
            id: self.id.clone(),
            name: self.name.clone(),
            parameters: self.parameters.clone(),
        }
    }
}

/// One tool offered to the model: a registry-unique name, a description,
/// and a JSON-schema-shaped parameter description.
pub struct ToolDefinition {
    pub name: String,
    pub description: String,
    pub parameters: Json,
}

/// The mathematical view of a tool definition.
pub struct ToolDefinitionV {
    pub name: Seq<char>,
    pub description: Seq<char>,
    pub parameters: JsonV,
}

impl DeepView for ToolDefinition {
    type V = ToolDefinitionV;

    open spec fn deep_view(&self) -> ToolDefinitionV {
        ToolDefinitionV {
            name: self.name@,
            description: self.description@,
            parameters: self.parameters.deep_view(),
        }
    }
}

impl Clone for ToolDefinition {
    /// A structural copy: the copy has the same view as the original.
    fn clone(&self) -> (res: ToolDefinition)
        ensures
            res.deep_view() == self.deep_view(),
    {
        ToolDefinition {
            name: self.name.clone(),
            description: self.description.clone(),
            parameters: self.parameters.clone(),
        }
    }
}

/// What executing one tool call produced.
pub struct ToolResult {
    pub content: String,
    pub is_error: bool,
}

/// The mathematical view of a tool result.
pub struct ToolResultV {
    pub content: Seq<char>,
    pub is_error: bool,
}

impl DeepView for ToolResult {
    type V = ToolResultV;

    open spec fn deep_view(&self) -> ToolResultV {
        ToolResultV { content: self.content@, is_error: self.is_error }
    }
}

impl Clone for ToolResult {
    /// A structural copy: the copy has the same view as the original.
    fn clone(&self) -> (res: ToolResult)
        ensures
            res.deep_view() == self.deep_view(),
    {
        ToolResult { content: self.content.clone(), is_error: self.is_error }
    }
}

/// One file attached to a message; for text files the content is carried.
pub struct Attachment {
    pub file_path: String,
    pub file_name: String,
    pub mime_type: String,
    pub file_size: u64,
    pub content: Option<String>,
}

/// The mathematical view of an attachment.
pub struct AttachmentV {
    pub file_path: Seq<char>,
    pub file_name: Seq<char>,
    pub mime_type: Seq<char>,
    pub file_size: u64,
    pub content: Option<Seq<char>>,
}

impl DeepView for Attachment {
    type V = AttachmentV;

    open spec fn deep_view(&self) -> AttachmentV {
        AttachmentV {
            file_path: self.file_path@,
            file_name: self.file_name@,
            mime_type: self.mime_type@,
            file_size: self.file_size,
            content: match self.content {
                Some(c) => Some(c@),
                None => None,
            },
        }
    }
}

impl Clone for Attachment {
    /// A structural copy: the copy has the same view as the original.
    fn clone(&self) -> (res: Attachment)
        ensures
            res.deep_view() == self.deep_view(),
    {
        Attachment {
            file_path: self.file_path.clone(),
            file_name: self.file_name.clone(),
            mime_type: self.mime_type.clone(),
            file_size: self.file_size,
            content: match &self.content {
                Some(c) => Some(c.clone()),
                None => None,
            },
        }
    }
}

/// One turn unit of a conversation.  A Tool-role message carries exactly
/// one `tool_call_id`; an Assistant message that requested tools carries
/// them in `tool_calls`.
pub struct Message {
    pub role: Role,
    pub content: String,
    pub timestamp_ms: Option<i64>,
    pub is_prompt: bool,
    pub tool_call_id: Option<String>,
    pub tool_calls: Option<Vec<ToolCall>>,
    pub attachments: Option<Vec<Attachment>>,
}

/// The mathematical view of a message.
pub struct MessageV {
    pub role: Role,
    pub content: Seq<char>,
    pub timestamp_ms: Option<i64>,
    pub is_prompt: bool,
    pub tool_call_id: Option<Seq<char>>,
    pub tool_calls: Option<Seq<ToolCallV>>,
    pub attachments: Option<Seq<AttachmentV>>,
}

impl DeepView for Message {
    type V = MessageV;

    open spec fn deep_view(&self) -> MessageV {
        MessageV {
            role: self.role,
            content: self.content@,
            timestamp_ms: self.timestamp_ms,
            is_prompt: self.is_prompt,
            tool_call_id: match self.tool_call_id {
                Some(id) => Some(id@),
                None => None,
            },
            tool_calls: match self.tool_calls {
                Some(calls) => Some(calls.deep_view()),
                None => None,
            },
            attachments: match self.attachments {
                Some(atts) => Some(atts.deep_view()),
                None => None,
            },
        }
    }
}

impl Clone for Message {
    /// A structural copy: the copy has the same view as the original.
    fn clone(&self) -> (res: Message)
        ensures
            res.deep_view() == self.deep_view(),
    {
        let tool_calls: Option<Vec<ToolCall>> = match &self.tool_calls {
            Some(calls) => {
                let mut copy: Vec<ToolCall> = Vec::new();
                let mut i: usize = 0;
                while i < calls.len()
                    invariant
                        0 <= i <= calls@.len(),
                        copy@.len() == i,
                        forall|k: int|
                            0 <= k < i ==> copy@[k].deep_view() == calls@[k].deep_view(),
                    decreases calls@.len() - i,
                {
                    copy.push(calls[i].clone());
                    i = i + 1;
                }
                proof {
                    assert(copy.deep_view() =~= calls.deep_view());
                }
                Some(copy)
            },
            None => None,
        };
        let attachments: Option<Vec<Attachment>> = match &self.attachments {
            Some(atts) => {
                let mut copy: Vec<Attachment> = Vec::new();
                let mut i: usize = 0;
                while i < atts.len()
                    invariant
                        0 <= i <= atts@.len(),
                        copy@.len() == i,
                        forall|k: int| 0 <= k < i ==> copy@[k].deep_view() == atts@[k].deep_view(),
                    decreases atts@.len() - i,
                {
                    copy.push(atts[i].clone());
                    i = i + 1;
                }
                proof {
                    assert(copy.deep_view() =~= atts.deep_view());
                }
                Some(copy)
            },
            None => None,
        };
        Message {
            role: self.role,
            content: self.content.clone(),
            timestamp_ms: self.timestamp_ms,
            is_prompt: self.is_prompt,
            tool_call_id: match &self.tool_call_id {
                Some(id) => Some(id.clone()),
                None => None,
            },
            tool_calls,
            attachments,
        }
    }
}

/// What the model answered: text, and the tool calls it requested.
pub struct ChatResponse {
    pub content: String,
    pub tool_calls: Vec<ToolCall>,
}

/// The mathematical view of a model answer.
pub struct ChatResponseV {
    pub content: Seq<char>,
    pub tool_calls: Seq<ToolCallV>,
}

impl DeepView for ChatResponse {
    type V = ChatResponseV;

    open spec fn deep_view(&self) -> ChatResponseV {
        ChatResponseV { content: self.content@, tool_calls: self.tool_calls.deep_view() }
    }
}

/// Why a model call failed.
pub enum LlmError {
    /// The HTTP transport failed; the text describes how.
    Http(String),
    /// The provider answered with an error.
    Api(String),
    /// The profile or request was malformed.
    Config(String),
    /// Rate limiting persisted after every allowed retry.
    RateLimit(crate::rate_limit::RateLimitInfo),
}

/// Relies on chrono::Utc::now: the current wall-clock time, read once and
/// returned as milliseconds since the Unix epoch.  Nothing is assumed of
/// the value.
#[verifier::external_body]
pub(crate) fn now_timestamp_ms() -> i64 {
    chrono::Utc::now().timestamp_millis()
}

impl Message {
    /// A plain message of the given role, stamped with the current time.
    pub fn new(role: Role, content: String) -> (r: Message)
        ensures
            r.deep_view() == (MessageV {
                role,
                content: content@,
                timestamp_ms: r.deep_view().timestamp_ms,
                is_prompt: false,
                tool_call_id: None,
                tool_calls: None,
                attachments: None,
            }),
            r.deep_view().timestamp_ms is Some,
    {
        Message {
            role,
            content,
            timestamp_ms: Some(now_timestamp_ms()),
            is_prompt: false,
            tool_call_id: None,
            tool_calls: None,
            attachments: None,
        }
    }

    /// A message carrying file attachments.
    pub fn new_with_attachments(role: Role, content: String, attachments: Vec<Attachment>) -> (r:
        Message)
        ensures
            r.deep_view() == (MessageV {
                role,
                content: content@,
                timestamp_ms: r.deep_view().timestamp_ms,
                is_prompt: false,
                tool_call_id: None,
                tool_calls: None,
                attachments: Some(attachments.deep_view()),
            }),
            r.deep_view().timestamp_ms is Some,
    {
        Message {
            role,
            content,
            timestamp_ms: Some(now_timestamp_ms()),
            is_prompt: false,
            tool_call_id: None,
            tool_calls: None,
            attachments: Some(attachments),
        }
    }

    /// A message marked as a prompt rather than a regular turn.
    pub fn new_prompt(role: Role, content: String) -> (r: Message)
        ensures
            r.deep_view() == (MessageV {
                role,
                content: content@,
                timestamp_ms: r.deep_view().timestamp_ms,
                is_prompt: true,
                tool_call_id: None,
                tool_calls: None,
                attachments: None,
            }),
            r.deep_view().timestamp_ms is Some,
    {
        Message {
            role,
            content,
            timestamp_ms: Some(now_timestamp_ms()),
            is_prompt: true,
            tool_call_id: None,
            tool_calls: None,
            attachments: None,
        }
    }

    /// The Tool-role message for one executed call: its content is the
    /// result text, prefixed `"Error: "` when the result is an error, and
    /// it links back to the call by id.
    pub fn new_tool_result(tool_call_id: String, content: String, is_error: bool) -> (r: Message)
        ensures
            r.deep_view() == (MessageV {
                role: Role::Tool,
                content: spec_tool_result_content(content@, is_error),
                timestamp_ms: r.deep_view().timestamp_ms,
                is_prompt: false,
                tool_call_id: Some(tool_call_id@),
                tool_calls: None,
                attachments: None,
            }),
            r.deep_view().timestamp_ms is Some,
    {
        let full = if is_error {
            let mut s = String::new();
            proof {
                reveal_strlit("Error: ");
            }
            s.append("Error: ");
            s.append(content.as_str());
            s
        } else {
            content
        };
        Message {
            role: Role::Tool,
            content: full,
            timestamp_ms: Some(now_timestamp_ms()),
            is_prompt: false,
            tool_call_id: Some(tool_call_id),
            tool_calls: None,
            attachments: None,
        }
    }

    /// An Assistant message that requested the given tool calls.
    pub fn new_with_tool_calls(role: Role, content: String, tool_calls: Vec<ToolCall>) -> (r:
        Message)
        ensures
            r.deep_view() == (MessageV {
                role,
                content: content@,
                timestamp_ms: r.deep_view().timestamp_ms,
                is_prompt: false,
                tool_call_id: None,
                tool_calls: Some(tool_calls.deep_view()),
                attachments: None,
            }),
            r.deep_view().timestamp_ms is Some,
    {
        Message {
            role,
            content,
            timestamp_ms: Some(now_timestamp_ms()),
            is_prompt: false,
            tool_call_id: None,
            tool_calls: Some(tool_calls),
            attachments: None,
        }
    }
}

/// The content of a Tool-role result message: the result text, with the
/// error prefix when the result is an error.
pub open spec fn spec_tool_result_content(content: Seq<char>, is_error: bool) -> Seq<char> {
    if is_error {
        "Error: "@ + content
    } else {
        content
    }
}

} // verus!
