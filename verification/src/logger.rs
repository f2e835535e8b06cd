//! The tool-call log: which line is written for each lifecycle point of a
//! turn.  The lines are built here, exactly; appending them to the log
//! file is the embedding application's business.

use vstd::prelude::*;

use crate::text::{spec_dec_u64, u64_to_dec};

verus! {

/// Writes the tool-call log; holds the path of the log file.
pub struct ToolLogger {
    pub log_file: String,
}

impl ToolLogger {
    /// A logger writing to the given file.
    pub fn new(log_file: String) -> (r: ToolLogger)
        ensures
            r.log_file == log_file,
    {
        ToolLogger { log_file }
    }

    /// The heading written when an iteration starts.
    pub fn iteration_start_line(&self, iteration: u32) -> (r: String)
        ensures
            r@ == "\n=== ITERATION "@ + spec_dec_u64(iteration as nat) + " ==="@,
    {
        let mut out = String::from_str("\n=== ITERATION ");
        out.append(u64_to_dec(iteration as u64).as_str());
        out.append(" ===");
        proof {
            assert(out@ =~= "\n=== ITERATION "@ + spec_dec_u64(iteration as nat) + " ==="@);
        }
        out
    }

    /// The line written when a turn begins.
    pub fn begin_turn_line(&self, iteration: u32) -> (r: String)
        ensures
            r@ == "--- Begin Turn "@ + spec_dec_u64(iteration as nat) + " ---"@,
    {
        let mut out = String::from_str("--- Begin Turn ");
        out.append(u64_to_dec(iteration as u64).as_str());
        out.append(" ---");
        proof {
            assert(out@ =~= "--- Begin Turn "@ + spec_dec_u64(iteration as nat) + " ---"@);
        }
        out
    }

    /// The line written when a turn ends.
    pub fn end_turn_line(&self, iteration: u32) -> (r: String)
        ensures
            r@ == "--- End Turn "@ + spec_dec_u64(iteration as nat) + " ---"@,
    {
        let mut out = String::from_str("--- End Turn ");
        out.append(u64_to_dec(iteration as u64).as_str());
        out.append(" ---");
        proof {
            assert(out@ =~= "--- End Turn "@ + spec_dec_u64(iteration as nat) + " ---"@);
        }
        out
    }

    /// The block written for one tool call: the call heading, its id, and
    /// its serialized parameters, one line each.
    pub fn tool_call_line(&self, iteration: u32, name: &str, id: &str, params_json: &str) -> (r:
        String)
        ensures
            r@ == "🔧 Tool Call #"@ + spec_dec_u64(iteration as nat) + ": "@ + name@
                + "\n   ID: "@ + id@ + "\n   Parameters: "@ + params_json@,
    {
        let mut out = String::from_str("🔧 Tool Call #");
        out.append(u64_to_dec(iteration as u64).as_str());
        out.append(": ");
        out.append(name);
        out.append("\n   ID: ");
        out.append(id);
        out.append("\n   Parameters: ");
        out.append(params_json);
        proof {
            assert(out@ =~= "🔧 Tool Call #"@ + spec_dec_u64(iteration as nat) + ": "@ + name@
                + "\n   ID: "@ + id@ + "\n   Parameters: "@ + params_json@);
        }
        out
    }

    /// The block written for one tool result: the outcome heading, then
    /// the result text.
    pub fn tool_result_line(&self, iteration: u32, name: &str, result: &str, is_error: bool) -> (r:
        String)
        ensures
            r@ == (if is_error {
                "❌ ERROR"@
            } else {
                "✅ SUCCESS"@
            }) + " Tool Result #"@ + spec_dec_u64(iteration as nat) + ": "@ + name@
                + "\n   Result: "@ + result@,
    {
        let mut out = if is_error {
            String::from_str("❌ ERROR")
        } else {
            String::from_str("✅ SUCCESS")
        };
        out.append(" Tool Result #");
        out.append(u64_to_dec(iteration as u64).as_str());
        out.append(": ");
        out.append(name);
        out.append("\n   Result: ");
        out.append(result);
        proof {
            assert(out@ =~= (if is_error {
                "❌ ERROR"@
            } else {
                "✅ SUCCESS"@
            }) + " Tool Result #"@ + spec_dec_u64(iteration as nat) + ": "@ + name@
                + "\n   Result: "@ + result@);
        }
        out
    }

    /// The line written for the final response of a conversation.
    pub fn final_response_line(&self, response: &str, iteration: u32) -> (r: String)
        ensures
            r@ == "Final Response (after "@ + spec_dec_u64(iteration as nat) + " iterations): "@
                + response@,
    {
        let mut out = String::from_str("Final Response (after ");
        out.append(u64_to_dec(iteration as u64).as_str());
        out.append(" iterations): ");
        out.append(response);
        proof {
            assert(out@ =~= "Final Response (after "@ + spec_dec_u64(iteration as nat)
                + " iterations): "@ + response@);
        }
        out
    }
}

} // verus!
