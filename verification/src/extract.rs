//! Decoding the three vendors' event payloads, and folding a stream of
//! text chunks into the fragments forwarded to the UI. The decoders are
//! specified exactly over the named model of the parsed JSON value.
use vstd::prelude::*;
use crate::jsonval::{
    json_at, json_element, json_get, json_member, json_of, json_parse, json_parses, json_text,
    json_as_string,
};
use crate::sse::{data_marker, data_payload, spec_lines, split_lines};
use crate::strutil::{is_prefix, opt_view, str_eq};
use crate::vendor::Vendor;

verus! {

/// What one event payload means: a text fragment to forward, an error the
/// vendor reported in-stream, the end marker, or nothing of interest.
pub enum PayloadEvent {
    Text(String),
    ApiError(String),
    Done,
    Nothing,
}

/// The in-stream error a parsed Google payload carries: present exactly
/// when the value has an `error` member, wording taken from its `message`
/// string, or fixed when that is missing or not a string.
pub open spec fn gemini_error_of(v: serde_json::Value) -> Option<Seq<char>> {
    match json_member(v, "error"@) {
        Some(err) => Some(
            match json_member(err, "message"@) {
                Some(m) => match json_text(m) {
                    Some(s) => s,
                    None => "Unknown API error"@,
                },
                None => "Unknown API error"@,
            },
        ),
        None => None,
    }
}

/// The fragment a parsed Google payload carries: the string at
/// `candidates[0].content.parts[0].text`, if that path leads to one.
pub open spec fn gemini_text_of(v: serde_json::Value) -> Option<Seq<char>> {
    match json_member(v, "candidates"@) {
        Some(candidates) => match json_element(candidates, 0) {
            Some(first) => match json_member(first, "content"@) {
                Some(content) => match json_member(content, "parts"@) {
                    Some(parts) => match json_element(parts, 0) {
                        Some(part) => match json_member(part, "text"@) {
                            Some(t) => json_text(t),
                            None => None,
                        },
                        None => None,
                    },
                    None => None,
                },
                None => None,
            },
            None => None,
        },
        None => None,
    }
}

/// The fragment a parsed OpenAI payload carries: the string at
/// `choices[0].delta.content`, if that path leads to one.
pub open spec fn openai_text_of(v: serde_json::Value) -> Option<Seq<char>> {
    match json_member(v, "choices"@) {
        Some(choices) => match json_element(choices, 0) {
            Some(first) => match json_member(first, "delta"@) {
                Some(delta) => match json_member(delta, "content"@) {
                    Some(content) => json_text(content),
                    None => None,
                },
                None => None,
            },
            None => None,
        },
        None => None,
    }
}

/// Whether a parsed Anthropic payload is a content delta event.
pub open spec fn anthropic_is_delta(v: serde_json::Value) -> bool {
    match json_member(v, "type"@) {
        Some(t) => json_text(t) == Some("content_block_delta"@),
        None => false,
    }
}

/// The fragment a parsed Anthropic payload carries: the string at
/// `delta.text`, and only on a content delta event.
pub open spec fn anthropic_text_of(v: serde_json::Value) -> Option<Seq<char>> {
    if anthropic_is_delta(v) {
        match json_member(v, "delta"@) {
            Some(delta) => match json_member(delta, "text"@) {
                Some(t) => json_text(t),
                None => None,
            },
            None => None,
        }
    } else {
        None
    }
}

/// Decodes a Google payload: an in-stream `error` member aborts with its
/// message; else the text under `candidates[0].content.parts[0].text` is
/// a fragment; anything else is passed over.
pub fn interpret_gemini(payload: &str) -> (r: PayloadEvent)
    ensures
        !json_parses(payload@) ==> r is Nothing,
        json_parses(payload@) ==> ({
            let v = json_of(payload@);
            match gemini_error_of(v) {
                Some(m) => r matches PayloadEvent::ApiError(e) && e@ == m,
                None => match gemini_text_of(v) {
                    Some(s) => r matches PayloadEvent::Text(t) && t@ == s,
                    None => r is Nothing,
                },
            }
        }),
        !(r is Done),
{
    match json_parse(payload) {
        None => PayloadEvent::Nothing,
        Some(v) => {
            if let Some(err) = json_get(&v, "error") {
                let msg = match json_get(err, "message") {
                    Some(m) => match json_as_string(m) {
                        Some(s) => s,
                        None => String::from_str("Unknown API error"),
                    },
                    None => String::from_str("Unknown API error"),
                };
                PayloadEvent::ApiError(msg)
            } else {
                let text = match json_get(&v, "candidates") {
                    Some(candidates) => match json_at(candidates, 0) {
                        Some(first) => match json_get(first, "content") {
                            Some(content) => match json_get(content, "parts") {
                                Some(parts) => match json_at(parts, 0) {
                                    Some(part) => match json_get(part, "text") {
                                        Some(t) => json_as_string(t),
                                        None => None,
                                    },
                                    None => None,
                                },
                                None => None,
                            },
                            None => None,
                        },
                        None => None,
                    },
                    None => None,
                };
                match text {
                    Some(s) => PayloadEvent::Text(s),
                    None => PayloadEvent::Nothing,
                }
            }
        },
    }
}

/// Decodes an OpenAI payload: the `[DONE]` marker ends the stream; else
/// the text under `choices[0].delta.content` is a fragment; anything else
/// is passed over.
pub fn interpret_openai(payload: &str) -> (r: PayloadEvent)
    ensures
        r is Done <==> payload@ == "[DONE]"@,
        payload@ != "[DONE]"@ && !json_parses(payload@) ==> r is Nothing,
        payload@ != "[DONE]"@ && json_parses(payload@) ==> (match openai_text_of(
            json_of(payload@),
        ) {
            Some(s) => r matches PayloadEvent::Text(t) && t@ == s,
            None => r is Nothing,
        }),
        !(r is ApiError),
{
    if str_eq(payload, "[DONE]") {
        return PayloadEvent::Done;
    }
    match json_parse(payload) {
        None => PayloadEvent::Nothing,
        Some(v) => {
            let text = match json_get(&v, "choices") {
                Some(choices) => match json_at(choices, 0) {
                    Some(first) => match json_get(first, "delta") {
                        Some(delta) => match json_get(delta, "content") {
                            Some(content) => json_as_string(content),
                            None => None,
                        },
                        None => None,
                    },
                    None => None,
                },
                None => None,
            };
            match text {
                Some(s) => PayloadEvent::Text(s),
                None => PayloadEvent::Nothing,
            }
        },
    }
}

/// Decodes an Anthropic payload: only an event whose `type` is
/// `content_block_delta` carries a fragment, under `delta.text`; anything
/// else is passed over.
pub fn interpret_anthropic(payload: &str) -> (r: PayloadEvent)
    ensures
        !json_parses(payload@) ==> r is Nothing,
        json_parses(payload@) ==> (match anthropic_text_of(json_of(payload@)) {
            Some(s) => r matches PayloadEvent::Text(t) && t@ == s,
            None => r is Nothing,
        }),
        !(r is Done),
        !(r is ApiError),
{
    match json_parse(payload) {
        None => PayloadEvent::Nothing,
        Some(v) => {
            let is_delta = match json_get(&v, "type") {
                Some(t) => match json_as_string(t) {
                    Some(s) => str_eq(s.as_str(), "content_block_delta"),
                    None => false,
                },
                None => false,
            };
            if is_delta {
                let text = match json_get(&v, "delta") {
                    Some(delta) => match json_get(delta, "text") {
                        Some(t) => json_as_string(t),
                        None => None,
                    },
                    None => None,
                };
                match text {
                    Some(s) => PayloadEvent::Text(s),
                    None => PayloadEvent::Nothing,
                }
            } else {
                PayloadEvent::Nothing
            }
        },
    }
}

/// The end marker: only the OpenAI stream has one.
pub open spec fn payload_done(vendor: Vendor, payload: Seq<char>) -> bool {
    vendor == Vendor::OpenAi && payload == "[DONE]"@
}

/// The in-stream error a payload carries: only the Google decoder has one.
pub open spec fn payload_error(vendor: Vendor, payload: Seq<char>) -> Option<Seq<char>> {
    if vendor == Vendor::Google && json_parses(payload) {
        gemini_error_of(json_of(payload))
    } else {
        None
    }
}

/// The fragment a payload carries for a vendor, when it is neither the
/// end marker nor an in-stream error.
pub open spec fn payload_text(vendor: Vendor, payload: Seq<char>) -> Option<Seq<char>> {
    if !json_parses(payload) || payload_done(vendor, payload) || payload_error(
        vendor,
        payload,
    ) is Some {
        None
    } else {
        match vendor {
            Vendor::Google => gemini_text_of(json_of(payload)),
            Vendor::OpenAi => openai_text_of(json_of(payload)),
            Vendor::Anthropic => anthropic_text_of(json_of(payload)),
        }
    }
}

/// What a sequence of lines folds to: the nonempty fragments of its
/// payload lines in order, stopping at the end marker, or at an in-stream
/// error whose message is carried out. Lines without the marker, payloads
/// that do not parse, payloads lacking the text path, and empty fragments
/// contribute nothing.
pub open spec fn spec_chunk_fold(vendor: Vendor, lines: Seq<Seq<char>>) -> (
    Seq<Seq<char>>,
    Option<Seq<char>>,
)
    decreases lines.len(),
{
    if lines.len() == 0 {
        (Seq::<Seq<char>>::empty(), None::<Seq<char>>)
    } else {
        let line = lines[0];
        let rest = lines.drop_first();
        if !is_prefix(data_marker(), line) {
            spec_chunk_fold(vendor, rest)
        } else {
            let payload = line.skip(data_marker().len() as int);
            if payload_done(vendor, payload) {
                (Seq::<Seq<char>>::empty(), None::<Seq<char>>)
            } else if payload_error(vendor, payload) is Some {
                (Seq::<Seq<char>>::empty(), payload_error(vendor, payload))
            } else {
                match payload_text(vendor, payload) {
                    Some(s) => if s.len() > 0 {
                        let f = spec_chunk_fold(vendor, rest);
                        (seq![s] + f.0, f.1)
                    } else {
                        spec_chunk_fold(vendor, rest)
                    },
                    None => spec_chunk_fold(vendor, rest),
                }
            }
        }
    }
}

/// What a stream has yielded so far: whether any fragment arrived.
pub struct StreamState {
    pub has_content: bool,
}

impl StreamState {
    /// The state before anything has been received.
    pub fn new() -> (r: StreamState)
        ensures
            !r.has_content,
    {
        StreamState { has_content: false }
    }
}

/// What one received chunk contributes: the fragments to forward in
/// order, and an in-stream error if the vendor reported one.
pub struct ChunkOutcome {
    pub fragments: Vec<String>,
    pub error: Option<String>,
}

/// Folds one received text chunk into the stream: splits it into lines
/// and hands back exactly what they fold to — the nonempty fragments in
/// order, and the in-stream error if one arose (only the Google decoder
/// has one; it stops work on the chunk, as the end marker stops the
/// chunk's remaining lines). Whether anything has arrived is carried in
/// the state.
pub fn process_chunk(vendor: Vendor, state: &mut StreamState, text: &str) -> (out: ChunkOutcome)
    ensures
        out.fragments.deep_view() == spec_chunk_fold(vendor, spec_lines(text@)).0,
        opt_view(out.error) == spec_chunk_fold(vendor, spec_lines(text@)).1,
        final(state).has_content == (old(state).has_content || out.fragments@.len() > 0),
        out.error is Some ==> vendor == Vendor::Google,
{
    let lines = split_lines(text);
    let ghost ls = lines.deep_view();
    let mut fragments: Vec<String> = Vec::new();
    let mut i: usize = 0;
    proof {
        assert(ls.skip(0) =~= ls);
        assert(fragments.deep_view() + spec_chunk_fold(vendor, ls).0 =~= spec_chunk_fold(
            vendor,
            ls,
        ).0);
    }
    while i < lines.len()
        invariant
            i <= lines@.len(),
            ls == lines.deep_view(),
            ls == spec_lines(text@),
            ls.len() == lines@.len(),
            state.has_content == (old(state).has_content || fragments@.len() > 0),
            fragments@.len() == fragments.deep_view().len(),
            spec_chunk_fold(vendor, ls).0 == fragments.deep_view() + spec_chunk_fold(
                vendor,
                ls.skip(i as int),
            ).0,
            spec_chunk_fold(vendor, ls).1 == spec_chunk_fold(vendor, ls.skip(i as int)).1,
        decreases lines@.len() - i,
    {
        let ghost rem = ls.skip(i as int);
        proof {
            assert(rem[0] == ls[i as int]);
            assert(rem.drop_first() =~= ls.skip(i + 1));
            assert(ls[i as int] == lines@[i as int]@);
        }
        if let Some(payload) = data_payload(lines[i].as_str()) {
            let ev = match vendor {
                Vendor::Google => interpret_gemini(payload.as_str()),
                Vendor::OpenAi => interpret_openai(payload.as_str()),
                Vendor::Anthropic => interpret_anthropic(payload.as_str()),
            };
            match ev {
                PayloadEvent::Text(s) => {
                    if !s.as_str().is_empty() {
                        state.has_content = true;
                        let ghost dv0 = fragments.deep_view();
                        fragments.push(s);
                        proof {
                            assert(fragments.deep_view() =~= dv0.push(s@));
                            assert(dv0.push(s@) =~= dv0 + seq![s@]);
                            assert((dv0 + seq![s@]) + spec_chunk_fold(vendor, ls.skip(i + 1)).0
                                =~= dv0 + (seq![s@] + spec_chunk_fold(vendor, ls.skip(i + 1)).0));
                        }
                    }
                },
                PayloadEvent::ApiError(msg) => {
                    proof {
                        assert(spec_chunk_fold(vendor, rem).0 =~= Seq::<Seq<char>>::empty());
                        assert(fragments.deep_view() + spec_chunk_fold(vendor, rem).0
                            =~= fragments.deep_view());
                    }
                    return ChunkOutcome { fragments, error: Some(msg) };
                },
                PayloadEvent::Done => {
                    proof {
                        assert(spec_chunk_fold(vendor, rem).0 =~= Seq::<Seq<char>>::empty());
                        assert(fragments.deep_view() + spec_chunk_fold(vendor, rem).0
                            =~= fragments.deep_view());
                    }
                    return ChunkOutcome { fragments, error: None };
                },
                PayloadEvent::Nothing => {},
            }
        }
        i += 1;
    }
    proof {
        assert(ls.skip(ls.len() as int).len() == 0);
        assert(fragments.deep_view() + spec_chunk_fold(vendor, ls.skip(i as int)).0
            =~= fragments.deep_view());
    }
    ChunkOutcome { fragments, error: None }
}

/// The report when a whole stream ended without any fragment.
pub open spec fn spec_no_content_message(v: Vendor) -> Seq<char> {
    match v {
        Vendor::Google => "No response received from AI. Please check your API key and model selection."@,
        Vendor::OpenAi => "No response received from OpenAI. Please check your API key."@,
        Vendor::Anthropic => "No response received from Anthropic. Please check your API key."@,
    }
}

/// Closes a finished stream: a stream that carried no text at all is an
/// error, with the vendor's own wording.
pub fn finish_stream(vendor: Vendor, state: &StreamState) -> (r: Result<(), String>)
    ensures
        match r {
            Ok(_) => state.has_content,
            Err(e) => !state.has_content && e@ == spec_no_content_message(vendor),
        },
{
    if state.has_content {
        Ok(())
    } else {
        match vendor {
            Vendor::Google => Err(
                String::from_str(
                    "No response received from AI. Please check your API key and model selection.",
                ),
            ),
            Vendor::OpenAi => Err(
                String::from_str("No response received from OpenAI. Please check your API key."),
            ),
            Vendor::Anthropic => Err(
                String::from_str("No response received from Anthropic. Please check your API key."),
            ),
        }
    }
}

} // verus!
