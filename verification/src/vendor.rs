//! The request record, the vendor tag, and what is reported back to the UI
//! when a run finishes.
use vstd::prelude::*;
use crate::payload::spec_json_escape;
use crate::strutil::str_eq;

verus! {

/// One "run a prompt" request as the UI hands it over. The sampling
/// settings are carried as already-rendered JSON number text, so that the
/// bodies built from them are plain character data throughout.
pub struct AIRequest {
    pub vendor: String,
    pub model: String,
    pub api_key: String,
    pub system_prompt: String,
    pub user_input: String,
    pub temperature: String,
    pub top_p: String,
    pub thinking_level: Option<i32>,
}

/// One streamed text fragment on its way to the UI.
pub struct AIChunk {
    pub chunk: String,
}

/// The three supported vendors.
#[derive(Clone, Copy, PartialEq, Eq, Structural, Debug)]
pub enum Vendor {
    Google,
    OpenAi,
    Anthropic,
}

/// Which vendor a request tag names, if any.
pub open spec fn spec_parse_vendor(tag: Seq<char>) -> Option<Vendor> {
    if tag == "google"@ {
        Some(Vendor::Google)
    } else if tag == "openai"@ {
        Some(Vendor::OpenAi)
    } else if tag == "anthropic"@ {
        Some(Vendor::Anthropic)
    } else {
        None
    }
}

/// Resolves a vendor tag; an unrecognized tag is an explicit failure.
pub fn parse_vendor(tag: &str) -> (r: Result<Vendor, String>)
    ensures
        match r {
            Ok(v) => spec_parse_vendor(tag@) == Some(v),
            Err(e) => spec_parse_vendor(tag@) is None && e@ == "Unsupported vendor"@,
        },
{
    if str_eq(tag, "google") {
        Ok(Vendor::Google)
    } else if str_eq(tag, "openai") {
        Ok(Vendor::OpenAi)
    } else if str_eq(tag, "anthropic") {
        Ok(Vendor::Anthropic)
    } else {
        Err(String::from_str("Unsupported vendor"))
    }
}

/// The completion event payload after a successful run.
pub open spec fn spec_success_payload() -> Seq<char> {
    "{\"success\":true}"@
}

/// The completion event payload after a failed run, carrying the message.
pub open spec fn spec_failure_payload(e: Seq<char>) -> Seq<char> {
    "{\"success\":false,\"error\":\""@ + spec_json_escape(e) + "\"}"@
}

/// The text fragment shown in the output area when a run fails.
pub open spec fn spec_error_chunk(e: Seq<char>) -> Seq<char> {
    "\n\n\u{274c} **Error:** "@ + e + "\n"@
}

/// What to emit once a run has ended: an extra output fragment for a
/// failure, and the completion event payload.
pub struct CompletionPlan {
    pub chunk: Option<String>,
    pub complete: String,
}

/// Turns a run's outcome into the events reported to the UI: success is
/// announced alone; a failure is first shown in the output, then announced
/// with its message.
pub fn completion_plan(outcome: &Result<(), String>) -> (r: CompletionPlan)
    ensures
        match outcome {
            Ok(_) => r.chunk is None && r.complete@ == spec_success_payload(),
            Err(e) => r.chunk matches Some(c) && c@ == spec_error_chunk(e@) && r.complete@
                == spec_failure_payload(e@),
        },
{
    match outcome {
        Ok(_) => CompletionPlan {
            chunk: None,
            complete: String::from_str("{\"success\":true}"),
        },
        Err(e) => {
            let mut chunk = String::from_str("\n\n\u{274c} **Error:** ");
            chunk.append(e.as_str());
            chunk.append("\n");
            let mut complete = String::from_str("{\"success\":false,\"error\":\"");
            complete.append(crate::payload::json_escape(e.as_str()).as_str());
            complete.append("\"}");
            CompletionPlan { chunk: Some(chunk), complete }
        },
    }
}

} // verus!
