//! Transcript retrieval: locating the extraction script through its fixed
//! fallback order, the subprocess invocation to make, and how its captured
//! output becomes the result.
use vstd::prelude::*;
use crate::patterns::{first_existing, first_true, lemma_first_true_bounds};

verus! {

/// The places the extraction script is looked for, in order: the resource
/// location the host reports, then two locations relative to the project.
pub open spec fn spec_script_candidates(primary: Seq<char>) -> Seq<Seq<char>> {
    seq![
        primary,
        "src-tauri/resources/youtube_transcript.py"@,
        "resources/youtube_transcript.py"@,
    ]
}

/// Builds the candidate list for the extraction script.
pub fn script_candidates(primary: &str) -> (r: Vec<String>)
    ensures
        r.deep_view() == spec_script_candidates(primary@),
{
    let mut r: Vec<String> = Vec::new();
    r.push(primary.to_owned());
    r.push(String::from_str("src-tauri/resources/youtube_transcript.py"));
    r.push(String::from_str("resources/youtube_transcript.py"));
    proof {
        assert(r.deep_view() =~= spec_script_candidates(primary@));
    }
    r
}

/// The report when the script exists at none of its candidate locations.
pub open spec fn spec_script_missing_message(primary: Seq<char>) -> Seq<char> {
    "YouTube script not found. Tried: \""@ + primary + "\" and fallbacks."@
}

/// Picks the script location to run, by the existence flags the caller
/// gathered for the three candidates; with none present, the failure names
/// the primary location that was tried.
pub fn resolve_script(primary: &str, candidates: &Vec<String>, exists: &Vec<bool>) -> (r: Result<
    String,
    String,
>)
    requires
        candidates@.len() == exists@.len(),
        candidates.deep_view() == spec_script_candidates(primary@),
    ensures
        match r {
            Ok(p) => first_true(exists@) < exists@.len() && p@ == spec_script_candidates(
                primary@,
            )[first_true(exists@)],
            Err(e) => first_true(exists@) == exists@.len() && e@ == spec_script_missing_message(
                primary@,
            ),
        },
{
    match first_existing(candidates, exists) {
        Some(p) => {
            proof {
                lemma_first_true_bounds(exists@);
                assert(candidates.deep_view()[first_true(exists@)] == candidates@[first_true(
                    exists@,
                )]@);
            }
            Ok(p)
        },
        None => {
            let mut e = String::from_str("YouTube script not found. Tried: \"");
            e.append(primary);
            e.append("\" and fallbacks.");
            Err(e)
        },
    }
}

/// A subprocess invocation: the interpreter launcher and its arguments.
pub struct TranscriptCommand {
    pub program: String,
    pub args: Vec<String>,
}

/// The argument list handed to the interpreter: its version switch, the
/// script, the address, and the timestamps flag only when asked for.
pub open spec fn spec_transcript_args(
    script: Seq<char>,
    url: Seq<char>,
    timestamps: bool,
) -> Seq<Seq<char>> {
    seq!["-3"@, script, "--url"@, url] + if timestamps {
        seq!["--timestamps"@]
    } else {
        Seq::<Seq<char>>::empty()
    }
}

/// Builds the subprocess invocation that fetches a transcript.
pub fn build_transcript_command(script_path: &str, url: &str, include_timestamps: bool) -> (r:
    TranscriptCommand)
    ensures
        r.program@ == "py"@,
        r.args.deep_view() == spec_transcript_args(script_path@, url@, include_timestamps),
{
    let mut args: Vec<String> = Vec::new();
    args.push(String::from_str("-3"));
    args.push(script_path.to_owned());
    args.push(String::from_str("--url"));
    args.push(url.to_owned());
    if include_timestamps {
        args.push(String::from_str("--timestamps"));
    }
    proof {
        assert(args.deep_view() =~= spec_transcript_args(script_path@, url@, include_timestamps));
    }
    TranscriptCommand { program: String::from_str("py"), args }
}

/// Turns a finished subprocess into the result: captured standard output
/// on success, captured standard error otherwise.
pub fn transcript_outcome(success: bool, stdout: String, stderr: String) -> (r: Result<
    String,
    String,
>)
    ensures
        match r {
            Ok(s) => success && s == stdout,
            Err(e) => !success && e == stderr,
        },
{
    if success {
        Ok(stdout)
    } else {
        Err(stderr)
    }
}

} // verus!
