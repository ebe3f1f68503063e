//! Messages for failed HTTP requests: the friendly-message heuristics the
//! Google path applies to its error body, and the raw passthrough form the
//! other two vendors use.
use vstd::prelude::*;
use crate::strutil::{contains, contains_sub, take_chars, truncate_chars};
use crate::vendor::Vendor;

verus! {

/// How many characters of an error body are kept in a passthrough message.
pub open spec fn body_keep_limit() -> int {
    300
}

pub open spec fn spec_invalid_key_msg() -> Seq<char> {
    "Invalid Google API Key. Please check your API key in Settings (Ctrl+S)."@
}

pub open spec fn spec_model_not_found_msg(model: Seq<char>) -> Seq<char> {
    "Model '"@ + model + "' not found. Please select a different model."@
}

pub open spec fn spec_rate_limit_msg() -> Seq<char> {
    "API rate limit exceeded. Please wait a moment and try again."@
}

pub open spec fn spec_quota_msg() -> Seq<char> {
    "API quota exceeded. Please check your Google Cloud billing."@
}

/// The raw passthrough message: status line and truncated body.
pub open spec fn spec_generic_api_error(status: Seq<char>, body: Seq<char>) -> Seq<char> {
    "API Error ("@ + status + "): "@ + take_chars(body, body_keep_limit())
}

/// The friendly message chosen for a failed Google request, by what the
/// error body mentions: a bad credential, an unknown model, rate limiting,
/// an exhausted quota, or — failing all heuristics — the raw passthrough.
pub open spec fn spec_classify_gemini_error(
    model: Seq<char>,
    status: Seq<char>,
    body: Seq<char>,
) -> Seq<char> {
    if contains_sub(body, "API_KEY"@) || contains_sub(body, "api_key"@) {
        spec_invalid_key_msg()
    } else if contains_sub(body, "404"@) || contains_sub(body, "not found"@) || contains_sub(
        body,
        "NOT_FOUND"@,
    ) {
        spec_model_not_found_msg(model)
    } else if contains_sub(body, "RATE_LIMIT"@) || contains_sub(body, "429"@) {
        spec_rate_limit_msg()
    } else if contains_sub(body, "quota"@) || contains_sub(body, "QUOTA"@) {
        spec_quota_msg()
    } else {
        spec_generic_api_error(status, body)
    }
}

/// Classifies a failed Google request into its friendly message.
pub fn classify_gemini_error(model: &str, status_text: &str, body: &str) -> (r: String)
    ensures
        r@ == spec_classify_gemini_error(model@, status_text@, body@),
{
    if contains(body, "API_KEY") || contains(body, "api_key") {
        String::from_str("Invalid Google API Key. Please check your API key in Settings (Ctrl+S).")
    } else if contains(body, "404") || contains(body, "not found") || contains(body, "NOT_FOUND") {
        let mut r = String::from_str("Model '");
        r.append(model);
        r.append("' not found. Please select a different model.");
        r
    } else if contains(body, "RATE_LIMIT") || contains(body, "429") {
        String::from_str("API rate limit exceeded. Please wait a moment and try again.")
    } else if contains(body, "quota") || contains(body, "QUOTA") {
        String::from_str("API quota exceeded. Please check your Google Cloud billing.")
    } else {
        let mut r = String::from_str("API Error (");
        r.append(status_text);
        r.append("): ");
        r.append(truncate_chars(body, 300).as_str());
        r
    }
}

/// The vendor name as it appears in passthrough error messages.
pub open spec fn spec_vendor_name(v: Vendor) -> Seq<char> {
    match v {
        Vendor::Google => "Google"@,
        Vendor::OpenAi => "OpenAI"@,
        Vendor::Anthropic => "Anthropic"@,
    }
}

/// The passthrough message for a failed request: vendor name, status line,
/// and the error body truncated to its first characters.
pub open spec fn spec_plain_api_error(v: Vendor, status: Seq<char>, body: Seq<char>) -> Seq<char> {
    spec_vendor_name(v) + " API Error ("@ + status + "): "@ + take_chars(body, body_keep_limit())
}

/// Builds the passthrough message for a failed request.
pub fn plain_api_error(vendor: Vendor, status_text: &str, body: &str) -> (r: String)
    ensures
        r@ == spec_plain_api_error(vendor, status_text@, body@),
{
    let mut r = match vendor {
        Vendor::Google => String::from_str("Google"),
        Vendor::OpenAi => String::from_str("OpenAI"),
        Vendor::Anthropic => String::from_str("Anthropic"),
    };
    r.append(" API Error (");
    r.append(status_text);
    r.append("): ");
    r.append(truncate_chars(body, 300).as_str());
    r
}

/// The message for a request that could not be sent at all.
pub fn network_error_message(detail: &str) -> (r: String)
    ensures
        r@ == "Network error: "@ + detail@,
{
    let mut r = String::from_str("Network error: ");
    r.append(detail);
    r
}

/// The message for a stream that broke while being read.
pub fn stream_error_message(detail: &str) -> (r: String)
    ensures
        r@ == "Stream error: "@ + detail@,
{
    let mut r = String::from_str("Stream error: ");
    r.append(detail);
    r
}

} // verus!
