//! The JSON-RPC line protocol spoken with tool servers: requests rendered
//! as exactly one JSON object per line, responses decoded and interpreted
//! by the documented precedence, and the per-transport framing state
//! (monotonically increasing request ids, the discovered tool list).
//!
//! The byte-level I/O with the child process lives in the embedding
//! application; everything that decides what the bytes mean lives here.

use vstd::prelude::*;

use crate::chat::{ToolDefinition, ToolDefinitionV, ToolResult, ToolResultV};
use crate::json::{
    parse_json, json_view, seq_json_view, seq_member_view, lemma_seq_json_view_index,
    lemma_seq_member_view_index, spec_json_get, spec_json_text, Json, JsonV,
};
use crate::text::{spec_dec_u64, u64_to_dec};

verus! {

/// One JSON-RPC request.
pub struct MCPRequest {
    pub jsonrpc: String,
    pub id: u64,
    pub method: String,
    pub params: Option<Json>,
}

/// A JSON-RPC error object.
pub struct MCPError {
    pub code: i32,
    pub message: String,
    pub data: Option<Json>,
}

/// The mathematical view of an error object.
pub struct MCPErrorV {
    pub code: i32,
    pub message: Seq<char>,
    pub data: Option<JsonV>,
}

impl DeepView for MCPError {
    type V = MCPErrorV;

    open spec fn deep_view(&self) -> MCPErrorV {
        MCPErrorV {
            code: self.code,
            message: self.message@,
            data: match self.data {
                Some(d) => Some(d.deep_view()),
                None => None,
            },
        }
    }
}

/// One decoded JSON-RPC response.
pub struct MCPResponse {
    pub id: u64,
    pub result: Option<Json>,
    pub error: Option<MCPError>,
}

/// The mathematical view of a response.
pub struct MCPResponseV {
    pub id: u64,
    pub result: Option<JsonV>,
    pub error: Option<MCPErrorV>,
}

impl DeepView for MCPResponse {
    type V = MCPResponseV;

    open spec fn deep_view(&self) -> MCPResponseV {
        MCPResponseV {
            id: self.id,
            result: match self.result {
                Some(r) => Some(r.deep_view()),
                None => None,
            },
            error: match self.error {
                Some(e) => Some(e.deep_view()),
                None => None,
            },
        }
    }
}

// ---------------------------------------------------------------------------
// Building requests
// ---------------------------------------------------------------------------

/// The JSON value carrying a request id: a number.
pub open spec fn spec_id_json(id: u64) -> JsonV {
    if id <= i64::MAX {
        JsonV::Int(id as i64)
    } else {
        JsonV::Num(spec_dec_u64(id as nat))
    }
}

/// The JSON object of one request: protocol tag, id, method, parameters
/// (`null` when absent), in that order.
pub open spec fn spec_request_json(
    jsonrpc: Seq<char>,
    id: u64,
    method: Seq<char>,
    params: Option<JsonV>,
) -> JsonV {
    JsonV::Obj(
        seq![
            ("jsonrpc"@, JsonV::Text(jsonrpc)),
            ("id"@, spec_id_json(id)),
            ("method"@, JsonV::Text(method)),
            (
                "params"@,
                match params {
                    Some(p) => p,
                    None => JsonV::Null,
                },
            ),
        ],
    )
}

/// The parameters every `initialize` request carries: protocol version,
/// client capabilities, client identity, members in name order.
pub open spec fn spec_initialize_params() -> JsonV {
    JsonV::Obj(
        seq![
            ("capabilities"@, JsonV::Obj(seq![("tools"@, JsonV::Obj(Seq::empty()))])),
            (
                "clientInfo"@,
                JsonV::Obj(
                    seq![
                        ("name"@, JsonV::Text("cosmic_llm"@)),
                        ("version"@, JsonV::Text("1.0.0"@)),
                    ],
                ),
            ),
            ("protocolVersion"@, JsonV::Text("2024-11-05"@)),
        ],
    )
}

impl MCPRequest {
    /// A request with the given id, method and parameters.
    pub fn new(id: u64, method: String, params: Option<Json>) -> (r: MCPRequest)
        ensures
            r.jsonrpc@ == "2.0"@,
            r.id == id,
            r.method == method,
            r.params == params,
    {
        MCPRequest { jsonrpc: String::from_str("2.0"), id, method, params }
    }

    /// The `tools/list` request: empty parameter object.
    pub fn tools_list(id: u64) -> (r: MCPRequest)
        ensures
            r.jsonrpc@ == "2.0"@,
            r.id == id,
            r.method@ == "tools/list"@,
            match r.params {
                Some(p) => p.deep_view() == JsonV::Obj(Seq::<(Seq<char>, JsonV)>::empty()),
                None => false,
            },
    {
        let fields: Vec<(String, Json)> = Vec::new();
        proof {
            assert(seq_member_view(fields@) =~= Seq::<(Seq<char>, JsonV)>::empty());
        }
        MCPRequest::new(id, String::from_str("tools/list"), Some(Json::Obj(fields)))
    }

    /// The `tools/call` request: the tool's name and its arguments.
    pub fn tools_call(id: u64, name: String, arguments: Json) -> (r: MCPRequest)
        ensures
            r.jsonrpc@ == "2.0"@,
            r.id == id,
            r.method@ == "tools/call"@,
            match r.params {
                Some(p) => p.deep_view() == JsonV::Obj(
                    seq![("arguments"@, arguments.deep_view()), ("name"@, JsonV::Text(name@))],
                ),
                None => false,
            },
    {
        let ghost args_view = arguments.deep_view();
        let mut fields: Vec<(String, Json)> = Vec::new();
        fields.push((String::from_str("arguments"), arguments));
        fields.push((String::from_str("name"), Json::Text(name)));
        proof {
            lemma_seq_member_view_index(fields@);
            assert(seq_member_view(fields@) =~= seq![
                ("arguments"@, args_view),
                ("name"@, fields@[1].1.deep_view()),
            ]);
        }
        MCPRequest::new(id, String::from_str("tools/call"), Some(Json::Obj(fields)))
    }

    /// The `initialize` request: protocol version, capabilities and client
    /// identity.
    pub fn initialize(id: u64) -> (r: MCPRequest)
        ensures
            r.jsonrpc@ == "2.0"@,
            r.id == id,
            r.method@ == "initialize"@,
            match r.params {
                Some(p) => p.deep_view() == spec_initialize_params(),
                None => false,
            },
    {
        let tools_empty: Vec<(String, Json)> = Vec::new();
        proof {
            assert(seq_member_view(tools_empty@) =~= Seq::<(Seq<char>, JsonV)>::empty());
        }
        let mut capabilities: Vec<(String, Json)> = Vec::new();
        capabilities.push((String::from_str("tools"), Json::Obj(tools_empty)));
        proof {
            lemma_seq_member_view_index(capabilities@);
            assert(seq_member_view(capabilities@) =~= seq![
                ("tools"@, JsonV::Obj(Seq::<(Seq<char>, JsonV)>::empty())),
            ]);
        }
        let mut client_info: Vec<(String, Json)> = Vec::new();
        client_info.push((String::from_str("name"), Json::Text(String::from_str("cosmic_llm"))));
        client_info.push((String::from_str("version"), Json::Text(String::from_str("1.0.0"))));
        proof {
            lemma_seq_member_view_index(client_info@);
            assert(seq_member_view(client_info@) =~= seq![
                ("name"@, JsonV::Text("cosmic_llm"@)),
                ("version"@, JsonV::Text("1.0.0"@)),
            ]);
        }
        let mut params: Vec<(String, Json)> = Vec::new();
        params.push((String::from_str("capabilities"), Json::Obj(capabilities)));
        params.push((String::from_str("clientInfo"), Json::Obj(client_info)));
        params.push((
            String::from_str("protocolVersion"),
            Json::Text(String::from_str("2024-11-05")),
        ));
        proof {
            lemma_seq_member_view_index(params@);
            assert(seq_member_view(params@) =~= spec_initialize_params()->Obj_0);
        }
        MCPRequest::new(id, String::from_str("initialize"), Some(Json::Obj(params)))
    }

    /// This request as exactly one line of text: the serialized JSON
    /// object, with no newline inside it.
    pub fn to_line(&self) -> (r: String)
        ensures
            r@ == spec_json_text(
                spec_request_json(
                    self.jsonrpc@,
                    self.id,
                    self.method@,
                    match self.params {
                        Some(p) => Some(p.deep_view()),
                        None => None,
                    },
                ),
            ),
    {
        let id_json = if self.id <= 0x7fff_ffff_ffff_ffffu64 {
            Json::Int(self.id as i64)
        } else {
            Json::Num(u64_to_dec(self.id))
        };
        let params_json = match &self.params {
            Some(p) => p.clone(),
            None => Json::Null,
        };
        let mut fields: Vec<(String, Json)> = Vec::new();
        fields.push((String::from_str("jsonrpc"), Json::Text(self.jsonrpc.clone())));
        fields.push((String::from_str("id"), id_json));
        fields.push((String::from_str("method"), Json::Text(self.method.clone())));
        fields.push((String::from_str("params"), params_json));
        let obj = Json::Obj(fields);
        proof {
            lemma_seq_member_view_index(fields@);
            assert(obj.deep_view()->Obj_0 =~= spec_request_json(
                self.jsonrpc@,
                self.id,
                self.method@,
                match self.params {
                    Some(p) => Some(p.deep_view()),
                    None => None,
                },
            )->Obj_0);
        }
        obj.to_text()
    }
}

/// The one-line `notifications/initialized` notification, which expects no
/// response.
pub fn initialized_notification_line() -> (r: String)
    ensures
        r@ == spec_json_text(
            JsonV::Obj(
                seq![
                    ("jsonrpc"@, JsonV::Text("2.0"@)),
                    ("method"@, JsonV::Text("notifications/initialized"@)),
                ],
            ),
        ),
{
    let mut fields: Vec<(String, Json)> = Vec::new();
    fields.push((String::from_str("jsonrpc"), Json::Text(String::from_str("2.0"))));
    fields.push((
        String::from_str("method"),
        Json::Text(String::from_str("notifications/initialized")),
    ));
    let obj = Json::Obj(fields);
    proof {
        lemma_seq_member_view_index(fields@);
        assert(obj.deep_view()->Obj_0 =~= seq![
            ("jsonrpc"@, JsonV::Text("2.0"@)),
            ("method"@, JsonV::Text("notifications/initialized"@)),
        ]);
    }
    obj.to_text()
}

/// Law (framing): a request whose parameters have newline-free number
/// literals serializes to text with no raw newline — so writing it
/// followed by one newline puts exactly one JSON object on each line of
/// the wire, as the protocol demands.  Parsed values always qualify.
pub proof fn lemma_request_single_line(
    jsonrpc: Seq<char>,
    id: u64,
    method: Seq<char>,
    params: Option<JsonV>,
)
    requires
        match params {
            Some(p) => crate::json::spec_nums_clean(p),
            None => true,
        },
    ensures
        crate::json::spec_line_clean(
            spec_json_text(spec_request_json(jsonrpc, id, method, params)),
        ),
{
    let j = spec_request_json(jsonrpc, id, method, params);
    assert(crate::json::spec_nums_clean(j)) by {
        crate::json::lemma_dec_no_newline(id as nat);
        let fields = j->Obj_0;
        assert(fields[0].1 == JsonV::Text(jsonrpc));
        assert(fields[1].1 == spec_id_json(id));
        assert(fields[2].1 == JsonV::Text(method));
        crate::json::lemma_nums_clean_members_index(fields);
        assert forall|i: int| 0 <= i < fields.len() implies crate::json::spec_nums_clean(
            #[trigger] fields[i].1,
        ) by {
        }
    }
    crate::json::lemma_json_text_single_line(j);
}

// ---------------------------------------------------------------------------
// Decoding responses
// ---------------------------------------------------------------------------

/// What decoding an error member yields: an object with an integer `code`
/// in 32-bit range and a string `message`; `data` is optional, with `null`
/// meaning absent.
pub open spec fn spec_error_of(j: JsonV) -> Option<MCPErrorV> {
    match spec_json_get(j, "code"@) {
        Some(JsonV::Int(code)) => if i32::MIN <= code <= i32::MAX {
            match spec_json_get(j, "message"@) {
                Some(JsonV::Text(message)) => Some(
                    MCPErrorV {
                        code: code as i32,
                        message,
                        data: match spec_json_get(j, "data"@) {
                            Some(JsonV::Null) => None,
                            Some(d) => Some(d),
                            None => None,
                        },
                    },
                ),
                _ => None,
            }
        } else {
            None
        },
        _ => None,
    }
}

/// What decoding one response value yields: an object with a string
/// `jsonrpc` tag, a non-negative integer `id`, an optional `result` and an
/// optional well-formed `error`, where `null` members count as absent.
pub open spec fn spec_response_of(j: JsonV) -> Option<MCPResponseV> {
    match spec_json_get(j, "jsonrpc"@) {
        Some(JsonV::Text(_)) => match spec_json_get(j, "id"@) {
            Some(JsonV::Int(id)) => if id >= 0 {
                let result = match spec_json_get(j, "result"@) {
                    Some(JsonV::Null) => None,
                    Some(v) => Some(v),
                    None => None,
                };
                match spec_json_get(j, "error"@) {
                    Some(JsonV::Null) => Some(
                        MCPResponseV { id: id as u64, result, error: None },
                    ),
                    Some(e) => match spec_error_of(e) {
                        Some(err) => Some(
                            MCPResponseV { id: id as u64, result, error: Some(err) },
                        ),
                        None => None,
                    },
                    None => Some(MCPResponseV { id: id as u64, result, error: None }),
                }
            } else {
                None
            },
            _ => None,
        },
        _ => None,
    }
}

fn error_of_json(j: &Json) -> (r: Option<MCPError>)
    ensures
        match r {
            Some(e) => spec_error_of(j.deep_view()) == Some(e.deep_view()),
            None => spec_error_of(j.deep_view()) is None,
        },
{
    let code: i32 = match j.get("code") {
        Some(Json::Int(code)) => {
            if *code < i32::MIN as i64 || *code > i32::MAX as i64 {
                return None;
            }
            *code as i32
        },
        _ => {
            return None;
        },
    };
    let message: String = match j.get("message") {
        Some(Json::Text(message)) => message.clone(),
        _ => {
            return None;
        },
    };
    let data: Option<Json> = match j.get("data") {
        Some(Json::Null) => None,
        Some(d) => Some(d.clone()),
        None => None,
    };
    Some(MCPError { code, message, data })
}

/// Decodes one response value, exactly as `spec_response_of` states.
pub fn response_of_json(j: &Json) -> (r: Option<MCPResponse>)
    ensures
        match r {
            Some(resp) => spec_response_of(j.deep_view()) == Some(resp.deep_view()),
            None => spec_response_of(j.deep_view()) is None,
        },
{
    match j.get("jsonrpc") {
        Some(Json::Text(_)) => {},
        _ => {
            return None;
        },
    }
    let id: u64 = match j.get("id") {
        Some(Json::Int(id)) => {
            if *id < 0 {
                return None;
            }
            *id as u64
        },
        _ => {
            return None;
        },
    };
    let result: Option<Json> = match j.get("result") {
        Some(Json::Null) => None,
        Some(v) => Some(v.clone()),
        None => None,
    };
    let error: Option<MCPError> = match j.get("error") {
        Some(Json::Null) => None,
        Some(e) => {
            match error_of_json(e) {
                Some(err) => Some(err),
                None => {
                    return None;
                },
            }
        },
        None => None,
    };
    Some(MCPResponse { id, result, error })
}

/// Decodes one received line: parses it as JSON, then reads it as a
/// response.  The result is exactly `spec_response_of` of the tree the
/// line parses to; a line that is not valid JSON, or whose tree is not
/// response-shaped, is nothing.
pub fn decode_response_line(line: &str) -> (r: Option<MCPResponse>)
    ensures
        match r {
            Some(resp) => crate::json::json_of(line@) matches Some(j) && spec_response_of(j)
                == Some(resp.deep_view()),
            None => match crate::json::json_of(line@) {
                Some(j) => spec_response_of(j) is None,
                None => true,
            },
        },
{
    match parse_json(line) {
        Some(j) => response_of_json(&j),
        None => None,
    }
}

// ---------------------------------------------------------------------------
// Interpreting a tools/call response
// ---------------------------------------------------------------------------

/// What one `tools/call` response means, in documented precedence: an
/// RPC-level error object becomes an error result carrying its message; a
/// result whose `content` is a block list with a text first block yields
/// that text; a result that is itself a string yields it; any other shape
/// is an error describing it; a missing result is an error.
pub open spec fn spec_tool_outcome(r: MCPResponseV) -> ToolResultV {
    match r.error {
        Some(e) => ToolResultV { content: "Error: "@ + e.message, is_error: true },
        None => match r.result {
            Some(v) => if spec_first_block_text(v) is Some {
                ToolResultV { content: spec_first_block_text(v)->Some_0, is_error: false }
            } else {
                match v {
                    JsonV::Text(s) => ToolResultV { content: s, is_error: false },
                    _ => ToolResultV {
                        content: "Unexpected result format: "@ + spec_json_text(v),
                        is_error: true,
                    },
                }
            },
            None => ToolResultV { content: "No result received"@, is_error: true },
        },
    }
}

/// The text of the first content block of a result, when the result has a
/// `content` list whose first element carries a `text` string.
pub open spec fn spec_first_block_text(v: JsonV) -> Option<Seq<char>> {
    match spec_json_get(v, "content"@) {
        Some(JsonV::Arr(blocks)) => if blocks.len() > 0 {
            match spec_json_get(blocks[0], "text"@) {
                Some(JsonV::Text(t)) => Some(t),
                _ => None,
            }
        } else {
            None
        },
        _ => None,
    }
}

/// Interprets one `tools/call` response, exactly as `spec_tool_outcome`
/// states.
pub fn tool_result_of_response(resp: &MCPResponse) -> (r: ToolResult)
    ensures
        r.deep_view() == spec_tool_outcome(resp.deep_view()),
{
    match &resp.error {
        Some(e) => {
            let mut content = String::from_str("Error: ");
            content.append(e.message.as_str());
            proof {
                assert(content@ =~= "Error: "@ + e.message@);
            }
            return ToolResult { content, is_error: true };
        },
        None => {},
    }
    let v = match &resp.result {
        Some(v) => v,
        None => {
            return ToolResult { content: String::from_str("No result received"), is_error: true };
        },
    };
    match v.get("content") {
        Some(Json::Arr(blocks)) => {
            if blocks.len() > 0 {
                proof {
                    lemma_seq_json_view_index(blocks@);
                }
                match blocks[0].get("text") {
                    Some(Json::Text(t)) => {
                        return ToolResult { content: t.clone(), is_error: false };
                    },
                    _ => {},
                }
            }
        },
        _ => {},
    }
    match v {
        Json::Text(s) => ToolResult { content: s.clone(), is_error: false },
        _ => {
            let mut content = String::from_str("Unexpected result format: ");
            let rendered = v.to_text();
            content.append(rendered.as_str());
            proof {
                assert(content@ =~= "Unexpected result format: "@ + spec_json_text(v.deep_view()));
            }
            ToolResult { content, is_error: true }
        },
    }
}

// ---------------------------------------------------------------------------
// Interpreting a tools/list response
// ---------------------------------------------------------------------------

/// What one entry of a `tools` list yields: a definition when the entry is
/// an object with a string `name`, a string `description` and an
/// `inputSchema` member; nothing otherwise, and that entry is skipped.
pub open spec fn spec_tool_def_of(j: JsonV) -> Option<ToolDefinitionV> {
    match spec_json_get(j, "name"@) {
        Some(JsonV::Text(name)) => match spec_json_get(j, "description"@) {
            Some(JsonV::Text(description)) => match spec_json_get(j, "inputSchema"@) {
                Some(parameters) => Some(ToolDefinitionV { name, description, parameters }),
                None => None,
            },
            _ => None,
        },
        _ => None,
    }
}

/// The definitions read from a `tools` list, in order, bad entries skipped.
pub open spec fn spec_tool_defs_of(items: Seq<JsonV>) -> Seq<ToolDefinitionV>
    decreases items.len(),
{
    if items.len() == 0 {
        Seq::empty()
    } else {
        spec_tool_defs_of(items.drop_last()) + match spec_tool_def_of(items.last()) {
            Some(d) => seq![d],
            None => Seq::empty(),
        }
    }
}

/// The definitions announced by one `tools/list` response: those of the
/// `tools` list of its result; none when the result or the list is absent
/// or of the wrong shape.
pub open spec fn spec_tools_of_response(r: MCPResponseV) -> Seq<ToolDefinitionV> {
    match r.result {
        Some(v) => match spec_json_get(v, "tools"@) {
            Some(JsonV::Arr(items)) => spec_tool_defs_of(items),
            _ => Seq::empty(),
        },
        None => Seq::empty(),
    }
}

fn tool_def_of_json(j: &Json) -> (r: Option<ToolDefinition>)
    ensures
        match r {
            Some(d) => spec_tool_def_of(j.deep_view()) == Some(d.deep_view()),
            None => spec_tool_def_of(j.deep_view()) is None,
        },
{
    let name: String = match j.get("name") {
        Some(Json::Text(name)) => name.clone(),
        _ => {
            return None;
        },
    };
    let description: String = match j.get("description") {
        Some(Json::Text(description)) => description.clone(),
        _ => {
            return None;
        },
    };
    let parameters: Json = match j.get("inputSchema") {
        Some(p) => p.clone(),
        None => {
            return None;
        },
    };
    Some(ToolDefinition { name, description, parameters })
}

/// Reads the tool definitions out of one `tools/list` response, exactly as
/// `spec_tools_of_response` states.
pub fn tools_from_response(resp: &MCPResponse) -> (r: Vec<ToolDefinition>)
    ensures
        r.deep_view() == spec_tools_of_response(resp.deep_view()),
{
    let mut out: Vec<ToolDefinition> = Vec::new();
    let v = match &resp.result {
        Some(v) => v,
        None => {
            proof {
                assert(out.deep_view() =~= spec_tools_of_response(resp.deep_view()));
            }
            return out;
        },
    };
    match v.get("tools") {
        Some(Json::Arr(items)) => {
            proof {
                lemma_seq_json_view_index(items@);
            }
            let ghost vs = seq_json_view(items@);
            let mut i: usize = 0;
            while i < items.len()
                invariant
                    0 <= i <= items@.len(),
                    vs == seq_json_view(items@),
                    vs.len() == items@.len(),
                    forall|k: int| 0 <= k < vs.len() ==> vs[k] == json_view(items@[k]),
                    out.deep_view() =~= spec_tool_defs_of(vs.subrange(0, i as int)),
                decreases items@.len() - i,
            {
                let ghost out0 = out.deep_view();
                match tool_def_of_json(&items[i]) {
                    Some(d) => {
                        out.push(d);
                        proof {
                            assert(out.deep_view() =~= out0 + seq![out.deep_view().last()]);
                        }
                    },
                    None => {},
                }
                i = i + 1;
                proof {
                    let p = vs.subrange(0, i as int);
                    assert(p.drop_last() =~= vs.subrange(0, i - 1));
                    assert(p.last() == vs[i - 1]);
                    assert(out.deep_view() =~= spec_tool_defs_of(p));
                }
            }
            proof {
                assert(vs.subrange(0, vs.len() as int) =~= vs);
                assert(out.deep_view() =~= spec_tools_of_response(resp.deep_view()));
            }
            out
        },
        _ => {
            proof {
                assert(out.deep_view() =~= spec_tools_of_response(resp.deep_view()));
            }
            out
        },
    }
}

// ---------------------------------------------------------------------------
// Per-transport framing state
// ---------------------------------------------------------------------------

/// The protocol state of one stdio tool-server transport: how to start the
/// child process, the tools it announced, and the next request id.  The
/// process itself and its pipes are owned by the embedding application.
pub struct StdioMCPClient {
    pub command: String,
    pub args: Vec<String>,
    pub env: Vec<(String, String)>,
    pub tools: Vec<ToolDefinition>,
    pub request_id: u64,
}

impl StdioMCPClient {
    /// A fresh transport state; request ids start at 1.
    pub fn new(command: String, args: Vec<String>, env: Vec<(String, String)>) -> (r:
        StdioMCPClient)
        ensures
            r.command == command,
            r.args == args,
            r.env == env,
            r.tools@.len() == 0,
            r.request_id == 1,
    {
        StdioMCPClient { command, args, env, tools: Vec::new(), request_id: 1 }
    }

    /// Takes the next request id: ids are handed out in increasing order,
    /// one apart, starting from the current one.
    pub fn next_request_id(&mut self) -> (r: u64)
        ensures
            r == old(self).request_id,
            final(self).request_id == if old(self).request_id < u64::MAX {
                old(self).request_id + 1
            } else {
                u64::MAX as int
            },
            final(self).command == old(self).command,
            final(self).args == old(self).args,
            final(self).env == old(self).env,
            final(self).tools == old(self).tools,
    {
        let id = self.request_id;
        if self.request_id < u64::MAX {
            self.request_id = self.request_id + 1;
        }
        id
    }

    /// Records the tools one discovery round announced.
    pub fn record_tools(&mut self, tools: Vec<ToolDefinition>)
        ensures
            final(self).tools == tools,
            final(self).command == old(self).command,
            final(self).args == old(self).args,
            final(self).env == old(self).env,
            final(self).request_id == old(self).request_id,
    {
        self.tools = tools;
    }
}

} // verus!
