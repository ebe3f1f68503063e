use fabric_gui_core::patterns::{
    collect_pattern_names, fallback_patterns_dir, first_existing, pattern_content_missing_message,
    pattern_file_path, patterns_dir_candidates, patterns_dir_missing_message, sort_names,
    DirEntry, Pattern,
};
use fabric_gui_core::youtube::{
    build_transcript_command, resolve_script, script_candidates, transcript_outcome,
};

#[test]
fn candidate_order_is_env_then_home_then_repo() {
    let cands = patterns_dir_candidates(
        &Some("/custom/patterns".to_string()),
        &Some("/home/me".to_string()),
    );
    assert_eq!(
        cands,
        vec![
            "/custom/patterns".to_string(),
            "/home/me/.config/fabric/patterns".to_string(),
            "/home/me/.fabric/patterns".to_string(),
            "G:\\Fabric\\data\\patterns".to_string(),
        ]
    );
}

#[test]
fn candidates_without_env_or_home() {
    let cands = patterns_dir_candidates(&None, &None);
    assert_eq!(cands, vec!["G:\\Fabric\\data\\patterns".to_string()]);
}

#[test]
fn fallback_prefers_home() {
    assert_eq!(
        fallback_patterns_dir(&Some("/home/me".to_string())),
        "/home/me/.config/fabric/patterns"
    );
    assert_eq!(fallback_patterns_dir(&None), ".config/fabric/patterns");
}

#[test]
fn the_first_existing_candidate_wins() {
    let cands = vec!["a".to_string(), "b".to_string(), "c".to_string()];
    assert_eq!(first_existing(&cands, &vec![false, true, true]), Some("b".to_string()));
    assert_eq!(first_existing(&cands, &vec![true, false, false]), Some("a".to_string()));
    assert_eq!(first_existing(&cands, &vec![false, false, false]), None);
}

#[test]
fn only_directories_become_pattern_names() {
    let entries = vec![
        DirEntry { name: "summarize".to_string(), is_dir: true },
        DirEntry { name: "README.md".to_string(), is_dir: false },
        DirEntry { name: "analyze".to_string(), is_dir: true },
    ];
    let names = collect_pattern_names(&entries);
    assert_eq!(names, vec!["summarize".to_string(), "analyze".to_string()]);
}

#[test]
fn pattern_names_come_out_sorted() {
    let names = vec![
        "write_essay".to_string(),
        "analyze_claims".to_string(),
        "summarize".to_string(),
        "analyze_claims".to_string(),
    ];
    let sorted = sort_names(names);
    assert_eq!(
        sorted,
        vec![
            "analyze_claims".to_string(),
            "analyze_claims".to_string(),
            "summarize".to_string(),
            "write_essay".to_string(),
        ]
    );
}

#[test]
fn pattern_struct_holds_name_and_path() {
    let p = Pattern { name: "summarize".to_string(), path: "/p/summarize".to_string() };
    assert_eq!(p.name, "summarize");
    assert_eq!(p.path, "/p/summarize");
}

#[test]
fn instruction_file_sits_inside_the_pattern() {
    assert_eq!(
        pattern_file_path("/home/me/.config/fabric/patterns", "summarize"),
        "/home/me/.config/fabric/patterns/summarize/system.md"
    );
}

#[test]
fn missing_directory_and_missing_file_read_differently() {
    assert_eq!(
        patterns_dir_missing_message(),
        "Fabric patterns directory not found. Please install Fabric first."
    );
    assert_eq!(pattern_content_missing_message(), "Pattern content (system.md) not found.");
}

#[test]
fn script_is_sought_at_three_places() {
    let cands = script_candidates("/app/resources/youtube_transcript.py");
    assert_eq!(
        cands,
        vec![
            "/app/resources/youtube_transcript.py".to_string(),
            "src-tauri/resources/youtube_transcript.py".to_string(),
            "resources/youtube_transcript.py".to_string(),
        ]
    );
}

#[test]
fn script_resolution_follows_the_fallback_order() {
    let primary = "/app/resources/youtube_transcript.py";
    let cands = script_candidates(primary);
    assert_eq!(
        resolve_script(primary, &cands, &vec![true, true, false]),
        Ok(primary.to_string())
    );
    assert_eq!(
        resolve_script(primary, &cands, &vec![false, false, true]),
        Ok("resources/youtube_transcript.py".to_string())
    );
    assert_eq!(
        resolve_script(primary, &cands, &vec![false, false, false]),
        Err(format!("YouTube script not found. Tried: \"{}\" and fallbacks.", primary))
    );
}

#[test]
fn transcript_command_is_positional() {
    let cmd = build_transcript_command("/s/yt.py", "https://youtu.be/abc", false);
    assert_eq!(cmd.program, "py");
    assert_eq!(
        cmd.args,
        vec!["-3".to_string(), "/s/yt.py".to_string(), "--url".to_string(),
            "https://youtu.be/abc".to_string()]
    );
    let cmd = build_transcript_command("/s/yt.py", "https://youtu.be/abc", true);
    assert_eq!(cmd.args.last().unwrap(), "--timestamps");
}

#[test]
fn transcript_outcome_maps_exit_status() {
    assert_eq!(
        transcript_outcome(true, "the text".to_string(), "".to_string()),
        Ok("the text".to_string())
    );
    assert_eq!(
        transcript_outcome(false, "".to_string(), "no captions".to_string()),
        Err("no captions".to_string())
    );
}
