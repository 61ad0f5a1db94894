use amanuensis::asr::rewrite::{
    control_line, extract_cleaned_text, max_new_tokens, rewrite, stderr_signals_failure,
    RewriteOptions, RunnerRun, MAX_NEW_TOKENS, MAX_TRANSCRIPT_PATTERN_BYTES, MIN_NEW_TOKENS,
    S1_CONTROL_LINE,
};

#[test]
fn extraction_strips_banner_and_trailer() {
    let transcript = "hello world";
    let all = format!(
        "[Styling: semi-formal] [Structure: prose] [Context: general]\n{transcript}\ncleaned words here\nExiting...\n"
    );
    let cleaned = extract_cleaned_text(&all, transcript, S1_CONTROL_LINE);
    assert_eq!(cleaned, "cleaned words here");
}

#[test]
fn extraction_fallback_via_assistant_when_boundary_missing() {
    let all = "some prompt bytes\nassistant\nthe real answer\n[ Generation: 12 tokens ]";
    let cleaned = extract_cleaned_text(all, "nothing", S1_CONTROL_LINE);
    assert_eq!(cleaned, "the real answer");
}

#[test]
fn extraction_returns_empty_when_no_marker() {
    let cleaned = extract_cleaned_text("no markers at all", "x", S1_CONTROL_LINE);
    assert_eq!(cleaned, "");
}

#[test]
fn max_new_tokens_scales_with_floor_and_ceiling() {
    assert_eq!(max_new_tokens(""), MIN_NEW_TOKENS);
    assert_eq!(max_new_tokens("hi"), MIN_NEW_TOKENS);
    assert_eq!(max_new_tokens(&"a".repeat(400)), 162);
    assert_eq!(max_new_tokens(&"a".repeat(100_000)), MAX_NEW_TOKENS);
}

#[test]
fn max_new_tokens_floor_boundary() {
    assert_eq!(max_new_tokens(&"a".repeat(96)), 64);
    assert_eq!(max_new_tokens(&"a".repeat(100)), 64);
    assert_eq!(max_new_tokens(&"a".repeat(104)), 65);
}

#[test]
fn max_new_tokens_ceiling_boundary() {
    assert_eq!(max_new_tokens(&"a".repeat(3052)), 1023);
    assert_eq!(max_new_tokens(&"a".repeat(3056)), MAX_NEW_TOKENS);
}

#[test]
fn stderr_ignores_benign_error_mentions() {
    assert!(!stderr_signals_failure(
        "llama_context: error stats live here"
    ));
    assert!(!stderr_signals_failure(""));
    assert!(stderr_signals_failure("error: failed to load model"));
    assert!(stderr_signals_failure(
        "llama_cli: failed to open model file"
    ));
    assert!(stderr_signals_failure("could not read vocab"));
    assert!(stderr_signals_failure("FATAL"));
}

#[test]
fn extraction_rejects_bare_assistant_mention() {
    let cleaned = extract_cleaned_text("my assistant helped a lot today", "zzz", S1_CONTROL_LINE);
    assert_eq!(cleaned, "");
}

#[test]
fn extraction_accepts_colon_role_header() {
    let cleaned = extract_cleaned_text("prompt\nassistant: the answer", "zzz", S1_CONTROL_LINE);
    assert_eq!(cleaned, "the answer");
}

#[test]
fn extraction_handles_overcap_transcript_via_tail() {
    let transcript = "t".repeat(MAX_TRANSCRIPT_PATTERN_BYTES + 100);
    let all = format!("{S1_CONTROL_LINE}\n{transcript}\nreal answer\n");
    assert_eq!(
        extract_cleaned_text(&all, &transcript, S1_CONTROL_LINE),
        "real answer"
    );
}

#[test]
fn extraction_overcap_without_newline_boundary_returns_empty() {
    let transcript = "t".repeat(MAX_TRANSCRIPT_PATTERN_BYTES + 100);
    let all = format!("prefix {} suffix without boundary", &transcript[..300]);
    assert_eq!(extract_cleaned_text(&all, &transcript, S1_CONTROL_LINE), "");
}

#[test]
fn control_line_builds_from_valid_presets() {
    assert_eq!(
        control_line("formal", "lists", "email"),
        "[Styling: formal] [Structure: lists] [Context: email]"
    );
    assert_eq!(
        control_line("casual", "prose", "general"),
        "[Styling: casual] [Structure: prose] [Context: general]"
    );
}

#[test]
fn control_line_falls_back_per_field() {
    assert_eq!(
        control_line("shouty", "bullets", "meeting"),
        "[Styling: casual] [Structure: prose] [Context: general]"
    );
    assert_eq!(
        control_line("", "", ""),
        "[Styling: casual] [Structure: prose] [Context: general]"
    );
    assert_eq!(
        control_line("formal", "bullets", "email"),
        "[Styling: formal] [Structure: prose] [Context: email]"
    );
}

#[test]
fn extraction_matches_runtime_control_line() {
    let line = control_line("formal", "lists", "email");
    let transcript = "hello world";
    let all = format!("{line}\n{transcript}\ncleaned words here\n");
    assert_eq!(
        extract_cleaned_text(&all, transcript, &line),
        "cleaned words here"
    );
    assert_eq!(
        extract_cleaned_text(&all, transcript, S1_CONTROL_LINE),
        "cleaned words here"
    );
}

fn options() -> RewriteOptions {
    RewriteOptions { threads: 2, gpu_layers: 0, control_line: S1_CONTROL_LINE.to_owned() }
}

#[test]
fn a_runner_that_is_missing_or_does_not_start_gives_nothing() {
    assert!(rewrite("hello world", &options(), None, 5).is_none());
    assert!(rewrite("hello world", &options(), Some(&RunnerRun::NotStarted), 5).is_none());
}

#[test]
fn a_run_that_was_started_has_a_result() {
    let lost = rewrite("hello world", &options(), Some(&RunnerRun::Lost), 5).unwrap();
    assert_eq!((lost.text.as_str(), lost.ok, lost.wall_ms, lost.out_tokens), ("", false, 5, 0));
    let ended = |success: bool, stderr: &str| RunnerRun::Ended {
        success,
        stdout: format!("{S1_CONTROL_LINE}\nhello world\nHello, world.\n"),
        stderr: stderr.to_owned(),
    };
    let done = rewrite("hello world", &options(), Some(&ended(true, "")), 9).unwrap();
    assert_eq!((done.text.as_str(), done.ok, done.wall_ms), ("Hello, world.", true, 9));
    for run in [ended(false, ""), ended(true, "error: out of memory")] {
        let failed = rewrite("hello world", &options(), Some(&run), 9).unwrap();
        assert_eq!((failed.text.as_str(), failed.ok), ("", false));
    }
}
