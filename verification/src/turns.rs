//! The record of one loop iteration for whoever consumes the event
//! stream: the assistant text, the tool calls with their progress, and the
//! sealed flag.  The record is not needed for the loop's own correctness;
//! it is the shape observers keep.

use vstd::prelude::*;

use crate::engine::AgentUpdate;
use crate::text::str_eq;

verus! {

/// How far one recorded tool call has come.
#[derive(Clone, Copy, PartialEq, Eq, Structural, Debug)]
pub enum ToolCallStatus {
    Started,
    Completed,
    Error,
}

/// One recorded tool call of a turn.
pub struct ToolCallInfo {
    pub id: Option<String>,
    pub tool_name: String,
    pub parameters: String,
    pub status: ToolCallStatus,
    pub result: Option<String>,
    pub error: Option<String>,
}

/// Whether a recorded call carries the given id.
pub open spec fn spec_tool_has_id(t: ToolCallInfo, id: Seq<char>) -> bool {
    match t.id {
        Some(tid) => tid@ == id,
        None => false,
    }
}

/// The position of the first recorded call with the given id, or the
/// length when there is none.
pub open spec fn spec_find_tool(ts: Seq<ToolCallInfo>, id: Seq<char>, from: int) -> int
    decreases ts.len() - from,
{
    if from < 0 || from >= ts.len() {
        ts.len() as int
    } else if spec_tool_has_id(ts[from], id) {
        from
    } else {
        spec_find_tool(ts, id, from + 1)
    }
}

/// One loop iteration's record: created when the turn begins, grown as
/// tool events arrive, sealed when the turn ends.
pub struct Turn {
    pub id: String,
    pub iteration: u32,
    pub text: String,
    pub complete: bool,
    pub tools: Vec<ToolCallInfo>,
}

impl Turn {
    /// A fresh, open record for one turn.
    pub fn new(id: String, iteration: u32) -> (r: Turn)
        ensures
            r.id == id,
            r.iteration == iteration,
            r.text@ == Seq::<char>::empty(),
            !r.complete,
            r.tools@.len() == 0,
    {
        Turn { id, iteration, text: String::new(), complete: false, tools: Vec::new() }
    }

    /// Records a started tool call at the end of the list.
    pub fn record_started(&mut self, id: String, tool_name: String, parameters: String)
        ensures
            final(self).tools@.len() == old(self).tools@.len() + 1,
            forall|i: int|
                0 <= i < old(self).tools@.len() ==> final(self).tools@[i] == old(self).tools@[i],
            ({
                let added = final(self).tools@.last();
                &&& added.id == Some(id)
                &&& added.tool_name == tool_name
                &&& added.parameters == parameters
                &&& added.status is Started
                &&& added.result is None
                &&& added.error is None
            }),
            final(self).id == old(self).id,
            final(self).iteration == old(self).iteration,
            final(self).text == old(self).text,
            final(self).complete == old(self).complete,
    {
        self.tools.push(
            ToolCallInfo {
                id: Some(id),
                tool_name,
                parameters,
                status: ToolCallStatus::Started,
                result: None,
                error: None,
            },
        );
    }

    fn find_tool(&self, id: &str) -> (r: usize)
        ensures
            r == spec_find_tool(self.tools@, id@, 0),
            r <= self.tools@.len(),
    {
        let mut i: usize = 0;
        while i < self.tools.len()
            invariant
                0 <= i <= self.tools@.len(),
                spec_find_tool(self.tools@, id@, 0) == spec_find_tool(self.tools@, id@, i as int),
            decreases self.tools@.len() - i,
        {
            let matched = match &self.tools[i].id {
                Some(tid) => str_eq(tid.as_str(), id),
                None => false,
            };
            if matched {
                return i;
            }
            i = i + 1;
        }
        i
    }

    /// Marks the first recorded call with the given id completed, keeping
    /// the result text; without a match the record is unchanged.
    pub fn record_result(&mut self, id: &str, result: String)
        ensures
            final(self).tools@.len() == old(self).tools@.len(),
            final(self).id == old(self).id,
            final(self).iteration == old(self).iteration,
            final(self).text == old(self).text,
            final(self).complete == old(self).complete,
            ({
                let j = spec_find_tool(old(self).tools@, id@, 0);
                if j == old(self).tools@.len() {
                    final(self).tools == old(self).tools
                } else {
                    &&& forall|k: int|
                        0 <= k < old(self).tools@.len() && k != j ==> final(self).tools@[k] == old(
                            self,
                        ).tools@[k]
                    &&& final(self).tools@[j].status is Completed
                    &&& final(self).tools@[j].result == Some(result)
                    &&& final(self).tools@[j].error == old(self).tools@[j].error
                    &&& final(self).tools@[j].id == old(self).tools@[j].id
                    &&& final(self).tools@[j].tool_name == old(self).tools@[j].tool_name
                    &&& final(self).tools@[j].parameters == old(self).tools@[j].parameters
                }
            }),
    {
        let j = self.find_tool(id);
        if j < self.tools.len() {
            let entry = self.tools.remove(j);
            self.tools.insert(
                j,
                ToolCallInfo {
                    id: entry.id,
                    tool_name: entry.tool_name,
                    parameters: entry.parameters,
                    status: ToolCallStatus::Completed,
                    result: Some(result),
                    error: entry.error,
                },
            );
            proof {
                assert forall|k: int|
                    0 <= k < old(self).tools@.len() && k != j implies self.tools@[k] == old(
                    self,
                ).tools@[k] by {
                    if k < j {
                    } else {
                        assert(self.tools@[k] == old(self).tools@.remove(j as int).insert(
                            j as int,
                            self.tools@[j as int],
                        )[k]);
                    }
                }
            }
        }
    }

    /// Marks the first recorded call with the given id failed, keeping the
    /// error text; without a match the record is unchanged.
    pub fn record_error(&mut self, id: &str, error: String)
        ensures
            final(self).tools@.len() == old(self).tools@.len(),
            final(self).id == old(self).id,
            final(self).iteration == old(self).iteration,
            final(self).text == old(self).text,
            final(self).complete == old(self).complete,
            ({
                let j = spec_find_tool(old(self).tools@, id@, 0);
                if j == old(self).tools@.len() {
                    final(self).tools == old(self).tools
                } else {
                    &&& forall|k: int|
                        0 <= k < old(self).tools@.len() && k != j ==> final(self).tools@[k] == old(
                            self,
                        ).tools@[k]
                    &&& final(self).tools@[j].status is Error
                    &&& final(self).tools@[j].error == Some(error)
                    &&& final(self).tools@[j].result == old(self).tools@[j].result
                    &&& final(self).tools@[j].id == old(self).tools@[j].id
                    &&& final(self).tools@[j].tool_name == old(self).tools@[j].tool_name
                    &&& final(self).tools@[j].parameters == old(self).tools@[j].parameters
                }
            }),
    {
        let j = self.find_tool(id);
        if j < self.tools.len() {
            let entry = self.tools.remove(j);
            self.tools.insert(
                j,
                ToolCallInfo {
                    id: entry.id,
                    tool_name: entry.tool_name,
                    parameters: entry.parameters,
                    status: ToolCallStatus::Error,
                    result: entry.result,
                    error: Some(error),
                },
            );
            proof {
                assert forall|k: int|
                    0 <= k < old(self).tools@.len() && k != j implies self.tools@[k] == old(
                    self,
                ).tools@[k] by {
                    if k < j {
                    } else {
                        assert(self.tools@[k] == old(self).tools@.remove(j as int).insert(
                            j as int,
                            self.tools@[j as int],
                        )[k]);
                    }
                }
            }
        }
    }

    /// Appends assistant text to the turn's accumulated text.
    pub fn append_text(&mut self, chunk: &str)
        ensures
            final(self).text@ == old(self).text@ + chunk@,
            final(self).id == old(self).id,
            final(self).iteration == old(self).iteration,
            final(self).complete == old(self).complete,
            final(self).tools == old(self).tools,
    {
        self.text.append(chunk);
    }

    /// Seals the turn.
    pub fn seal(&mut self)
        ensures
            final(self).complete,
            final(self).id == old(self).id,
            final(self).iteration == old(self).iteration,
            final(self).text == old(self).text,
            final(self).tools == old(self).tools,
    {
        self.complete = true;
    }

    /// Folds one lifecycle event into the record: text accumulates from
    /// deltas and is replaced by the complete text; tool events start,
    /// complete or fail their call; the end of the turn seals it.  Events
    /// that carry nothing for the record leave it unchanged.
    pub fn apply_update(&mut self, update: &AgentUpdate)
        ensures
            final(self).id == old(self).id,
            final(self).iteration == old(self).iteration,
            ({
                let before = *old(self);
                let after = *final(self);
                match update {
                    AgentUpdate::AssistantDelta { text_chunk, .. } => after.text@ == before.text@
                        + text_chunk@ && after.tools == before.tools && after.complete
                        == before.complete,
                    AgentUpdate::AssistantComplete { full_text, .. } => after.text@ == full_text@
                        && after.tools == before.tools && after.complete == before.complete,
                    AgentUpdate::EndTurn { .. } => after.complete && after.text == before.text
                        && after.tools == before.tools,
                    AgentUpdate::ToolStarted { .. } => after.tools@.len() == before.tools@.len()
                        + 1 && after.text == before.text && after.complete == before.complete,
                    AgentUpdate::ToolResult { .. } => after.tools@.len() == before.tools@.len()
                        && after.text == before.text && after.complete == before.complete,
                    AgentUpdate::ToolError { .. } => after.tools@.len() == before.tools@.len()
                        && after.text == before.text && after.complete == before.complete,
                    _ => after == before,
                }
            }),
    {
        match update {
            AgentUpdate::AssistantDelta { text_chunk, .. } => {
                self.append_text(text_chunk.as_str());
            },
            AgentUpdate::AssistantComplete { full_text, .. } => {
                self.text = full_text.clone();
            },
            AgentUpdate::ToolStarted { tool_call_id, name, params_json, .. } => {
                self.record_started(tool_call_id.clone(), name.clone(), params_json.clone());
            },
            AgentUpdate::ToolResult { tool_call_id, result_json, .. } => {
                self.record_result(tool_call_id.as_str(), result_json.clone());
            },
            AgentUpdate::ToolError { tool_call_id, error, .. } => {
                self.record_error(tool_call_id.as_str(), error.clone());
            },
            AgentUpdate::EndTurn { .. } => {
                self.seal();
            },
            _ => {},
        }
    }
}

} // verus!
