//! Request bodies, endpoint addresses and header values for the three
//! vendor APIs, built as JSON text with verified string escaping.
use vstd::prelude::*;
use crate::strutil::push_char;
use crate::vendor::AIRequest;

verus! {

/// The lower-case hexadecimal digit for a value below sixteen.
pub open spec fn spec_hex_digit(d: u32) -> char {
    if d == 0 {
        '0'
    } else if d == 1 {
        '1'
    } else if d == 2 {
        '2'
    } else if d == 3 {
        '3'
    } else if d == 4 {
        '4'
    } else if d == 5 {
        '5'
    } else if d == 6 {
        '6'
    } else if d == 7 {
        '7'
    } else if d == 8 {
        '8'
    } else if d == 9 {
        '9'
    } else if d == 10 {
        'a'
    } else if d == 11 {
        'b'
    } else if d == 12 {
        'c'
    } else if d == 13 {
        'd'
    } else if d == 14 {
        'e'
    } else {
        'f'
    }
}

/// Computes the lower-case hexadecimal digit for a value below sixteen.
pub fn hex_digit(d: u32) -> (c: char)
    requires
        d < 16,
    ensures
        c == spec_hex_digit(d),
{
    if d == 0 {
        '0'
    } else if d == 1 {
        '1'
    } else if d == 2 {
        '2'
    } else if d == 3 {
        '3'
    } else if d == 4 {
        '4'
    } else if d == 5 {
        '5'
    } else if d == 6 {
        '6'
    } else if d == 7 {
        '7'
    } else if d == 8 {
        '8'
    } else if d == 9 {
        '9'
    } else if d == 10 {
        'a'
    } else if d == 11 {
        'b'
    } else if d == 12 {
        'c'
    } else if d == 13 {
        'd'
    } else if d == 14 {
        'e'
    } else {
        'f'
    }
}

/// How one character is written inside a JSON string: quote, backslash and
/// the short control escapes get a two-character form, other control
/// characters a `\u00..` form, and everything else stands as itself.
pub open spec fn spec_escape_char(c: char) -> Seq<char> {
    if c == '"' {
        seq!['\\', '"']
    } else if c == '\\' {
        seq!['\\', '\\']
    } else if c == '\u{8}' {
        seq!['\\', 'b']
    } else if c == '\u{c}' {
        seq!['\\', 'f']
    } else if c == '\n' {
        seq!['\\', 'n']
    } else if c == '\r' {
        seq!['\\', 'r']
    } else if c == '\t' {
        seq!['\\', 't']
    } else if (c as u32) < 32 {
        seq!['\\', 'u', '0', '0', spec_hex_digit((c as u32) / 16), spec_hex_digit(
            (c as u32) % 16,
        )]
    } else {
        seq![c]
    }
}

/// The JSON string escaping of a whole character sequence.
pub open spec fn spec_json_escape(s: Seq<char>) -> Seq<char>
    decreases s.len(),
{
    if s.len() == 0 {
        Seq::<char>::empty()
    } else {
        spec_json_escape(s.drop_last()) + spec_escape_char(s.last())
    }
}

/// Escapes a string for inclusion between quotes in JSON text.
pub fn json_escape(s: &str) -> (r: String)
    ensures
        r@ == spec_json_escape(s@),
{
    let len = s.unicode_len();
    let mut r = String::new();
    let mut i: usize = 0;
    proof {
        assert(s@.subrange(0, 0) =~= Seq::<char>::empty());
    }
    while i < len
        invariant
            len == s@.len(),
            i <= len,
            r@ == spec_json_escape(s@.subrange(0, i as int)),
        decreases len - i,
    {
        let c = s.get_char(i);
        if c == '"' {
            r.append("\\\"");
            proof {
                reveal_strlit("\\\"");
                assert("\\\""@ =~= spec_escape_char(c));
            }
        } else if c == '\\' {
            r.append("\\\\");
            proof {
                reveal_strlit("\\\\");
                assert("\\\\"@ =~= spec_escape_char(c));
            }
        } else if c == '\u{8}' {
            r.append("\\b");
            proof {
                reveal_strlit("\\b");
                assert("\\b"@ =~= spec_escape_char(c));
            }
        } else if c == '\u{c}' {
            r.append("\\f");
            proof {
                reveal_strlit("\\f");
                assert("\\f"@ =~= spec_escape_char(c));
            }
        } else if c == '\n' {
            r.append("\\n");
            proof {
                reveal_strlit("\\n");
                assert("\\n"@ =~= spec_escape_char(c));
            }
        } else if c == '\r' {
            r.append("\\r");
            proof {
                reveal_strlit("\\r");
                assert("\\r"@ =~= spec_escape_char(c));
            }
        } else if c == '\t' {
            r.append("\\t");
            proof {
                reveal_strlit("\\t");
                assert("\\t"@ =~= spec_escape_char(c));
            }
        } else if (c as u32) < 32 {
            let n: u32 = c as u32;
            r.append("\\u00");
            push_char(&mut r, hex_digit(n / 16));
            push_char(&mut r, hex_digit(n % 16));
            proof {
                reveal_strlit("\\u00");
                assert("\\u00"@ + seq![spec_hex_digit(n / 16)] + seq![spec_hex_digit(n % 16)]
                    =~= spec_escape_char(c));
            }
        } else {
            push_char(&mut r, c);
            proof {
                assert(seq![c] =~= spec_escape_char(c));
            }
        }
        proof {
            assert(s@.subrange(0, i + 1).drop_last() =~= s@.subrange(0, i as int));
            assert(s@.subrange(0, i + 1).last() == s@[i as int]);
        }
        i += 1;
    }
    proof {
        assert(s@.subrange(0, len as int) =~= s@);
    }
    r
}

/// The reasoning level name sent for a positive thinking level.
pub open spec fn spec_level_name(l: i32) -> Seq<char> {
    if l == 2 {
        "HIGH"@
    } else if l == 1 {
        "MEDIUM"@
    } else {
        "LOW"@
    }
}

/// The optional `thinkingConfig` member appended inside `generationConfig`.
pub open spec fn spec_thinking_suffix(thinking: Option<i32>) -> Seq<char> {
    match thinking {
        Some(l) => if l > 0 {
            ",\"thinkingConfig\":{\"thinkingLevel\":\""@ + spec_level_name(l) + "\"}"@
        } else {
            Seq::<char>::empty()
        },
        None => Seq::<char>::empty(),
    }
}

/// The streaming request body for the Google endpoint: both prompt parts
/// under one content, sampling settings under `generationConfig`, and the
/// reasoning configuration only when a positive level was asked for.
pub open spec fn spec_gemini_payload(
    sys: Seq<char>,
    user: Seq<char>,
    temp: Seq<char>,
    top_p: Seq<char>,
    thinking: Option<i32>,
) -> Seq<char> {
    "{\"contents\":[{\"parts\":[{\"text\":\""@ + spec_json_escape(sys) + "\"},{\"text\":\""@
        + spec_json_escape(user) + "\"}]}],\"generationConfig\":{\"temperature\":"@ + temp
        + ",\"topP\":"@ + top_p + spec_thinking_suffix(thinking) + "}}"@
}

/// Builds the Google request body from a request record.
pub fn gemini_payload(req: &AIRequest) -> (r: String)
    ensures
        r@ == spec_gemini_payload(
            req.system_prompt@,
            req.user_input@,
            req.temperature@,
            req.top_p@,
            req.thinking_level,
        ),
{
    let mut r = String::from_str("{\"contents\":[{\"parts\":[{\"text\":\"");
    r.append(json_escape(req.system_prompt.as_str()).as_str());
    r.append("\"},{\"text\":\"");
    r.append(json_escape(req.user_input.as_str()).as_str());
    r.append("\"}]}],\"generationConfig\":{\"temperature\":");
    r.append(req.temperature.as_str());
    r.append(",\"topP\":");
    r.append(req.top_p.as_str());
    if let Some(l) = req.thinking_level {
        if l > 0 {
            r.append(",\"thinkingConfig\":{\"thinkingLevel\":\"");
            if l == 2 {
                r.append("HIGH");
            } else if l == 1 {
                r.append("MEDIUM");
            } else {
                r.append("LOW");
            }
            r.append("\"}");
        }
    }
    r.append("}}");
    r
}

/// The streaming request body for the OpenAI endpoint: system and user
/// messages, sampling settings, and the streaming flag.
pub open spec fn spec_openai_payload(
    model: Seq<char>,
    sys: Seq<char>,
    user: Seq<char>,
    temp: Seq<char>,
    top_p: Seq<char>,
) -> Seq<char> {
    "{\"model\":\""@ + spec_json_escape(model)
        + "\",\"messages\":[{\"role\":\"system\",\"content\":\""@ + spec_json_escape(sys)
        + "\"},{\"role\":\"user\",\"content\":\""@ + spec_json_escape(user)
        + "\"}],\"temperature\":"@ + temp + ",\"top_p\":"@ + top_p + ",\"stream\":true}"@
}

/// Builds the OpenAI request body from a request record.
pub fn openai_payload(req: &AIRequest) -> (r: String)
    ensures
        r@ == spec_openai_payload(
            req.model@,
            req.system_prompt@,
            req.user_input@,
            req.temperature@,
            req.top_p@,
        ),
{
    let mut r = String::from_str("{\"model\":\"");
    r.append(json_escape(req.model.as_str()).as_str());
    r.append("\",\"messages\":[{\"role\":\"system\",\"content\":\"");
    r.append(json_escape(req.system_prompt.as_str()).as_str());
    r.append("\"},{\"role\":\"user\",\"content\":\"");
    r.append(json_escape(req.user_input.as_str()).as_str());
    r.append("\"}],\"temperature\":");
    r.append(req.temperature.as_str());
    r.append(",\"top_p\":");
    r.append(req.top_p.as_str());
    r.append(",\"stream\":true}");
    r
}

/// The streaming request body for the Anthropic endpoint: the system text
/// as its own member, one user message, a fixed token ceiling, and the
/// streaming flag.
pub open spec fn spec_anthropic_payload(
    model: Seq<char>,
    sys: Seq<char>,
    user: Seq<char>,
) -> Seq<char> {
    "{\"model\":\""@ + spec_json_escape(model) + "\",\"system\":\""@ + spec_json_escape(sys)
        + "\",\"messages\":[{\"role\":\"user\",\"content\":\""@ + spec_json_escape(user)
        + "\"}],\"max_tokens\":4096,\"stream\":true}"@
}

/// Builds the Anthropic request body from a request record.
pub fn anthropic_payload(req: &AIRequest) -> (r: String)
    ensures
        r@ == spec_anthropic_payload(req.model@, req.system_prompt@, req.user_input@),
{
    let mut r = String::from_str("{\"model\":\"");
    r.append(json_escape(req.model.as_str()).as_str());
    r.append("\",\"system\":\"");
    r.append(json_escape(req.system_prompt.as_str()).as_str());
    r.append("\",\"messages\":[{\"role\":\"user\",\"content\":\"");
    r.append(json_escape(req.user_input.as_str()).as_str());
    r.append("\"}],\"max_tokens\":4096,\"stream\":true}");
    r
}

/// The Google streaming endpoint for a model, with the credential and the
/// event-stream switch in the query string.
pub open spec fn spec_gemini_url(model: Seq<char>, api_key: Seq<char>) -> Seq<char> {
    "https://generativelanguage.googleapis.com/v1beta/models/"@ + model
        + ":streamGenerateContent?key="@ + api_key + "&alt=sse"@
}

/// Builds the Google endpoint address for a model and credential.
pub fn gemini_url(model: &str, api_key: &str) -> (r: String)
    ensures
        r@ == spec_gemini_url(model@, api_key@),
{
    let mut r = String::from_str("https://generativelanguage.googleapis.com/v1beta/models/");
    r.append(model);
    r.append(":streamGenerateContent?key=");
    r.append(api_key);
    r.append("&alt=sse");
    r
}

/// The OpenAI chat-completions endpoint.
pub fn openai_url() -> (r: String)
    ensures
        r@ == "https://api.openai.com/v1/chat/completions"@,
{
    String::from_str("https://api.openai.com/v1/chat/completions")
}

/// The Anthropic messages endpoint.
pub fn anthropic_url() -> (r: String)
    ensures
        r@ == "https://api.anthropic.com/v1/messages"@,
{
    String::from_str("https://api.anthropic.com/v1/messages")
}

/// The bearer form of a credential for the OpenAI authorization header.
pub fn bearer_header(api_key: &str) -> (r: String)
    ensures
        r@ == "Bearer "@ + api_key@,
{
    let mut r = String::from_str("Bearer ");
    r.append(api_key);
    r
}

/// The protocol version sent in the Anthropic version header.
pub fn anthropic_version() -> (r: String)
    ensures
        r@ == "2023-06-01"@,
{
    String::from_str("2023-06-01")
}

} // verus!
