use video_splitter::errors::SplitError;
use video_splitter::parse::parse_duration_millis;
use video_splitter::paths::{extension_of, extension_or_default, join_path};
use video_splitter::probe::{interpret_probe_outcome, progress_after, tool_available, ProbeOutcome};
use video_splitter::text::{contains_str, is_benign_tail_diagnostic};

#[test]
fn parses_typical_probe_output() {
    assert_eq!(parse_duration_millis("125.000000").unwrap(), 125_000);
    assert_eq!(parse_duration_millis("60.000000").unwrap(), 60_000);
    assert_eq!(parse_duration_millis("0.500000").unwrap(), 500);
}

#[test]
fn parses_whitespace_and_plain_integers() {
    assert_eq!(parse_duration_millis(" 42\n").unwrap(), 42_000);
    assert_eq!(parse_duration_millis("\t7.25 \r\n").unwrap(), 7_250);
    assert_eq!(parse_duration_millis("3").unwrap(), 3_000);
}

#[test]
fn cuts_fraction_at_milliseconds() {
    assert_eq!(parse_duration_millis("1.2345").unwrap(), 1_234);
    assert_eq!(parse_duration_millis("1.2").unwrap(), 1_200);
    assert_eq!(parse_duration_millis("1.23").unwrap(), 1_230);
    assert_eq!(parse_duration_millis("12.").unwrap(), 12_000);
}

#[test]
fn rejects_non_numeric_output() {
    assert!(matches!(parse_duration_millis("N/A"), Err(SplitError::MalformedOutput)));
    assert!(matches!(parse_duration_millis(""), Err(SplitError::MalformedOutput)));
    assert!(matches!(parse_duration_millis("  "), Err(SplitError::MalformedOutput)));
    assert!(matches!(parse_duration_millis("12a"), Err(SplitError::MalformedOutput)));
    assert!(matches!(parse_duration_millis("1.2.3"), Err(SplitError::MalformedOutput)));
    assert!(matches!(parse_duration_millis("-5"), Err(SplitError::MalformedOutput)));
    assert!(matches!(parse_duration_millis("1e3"), Err(SplitError::MalformedOutput)));
    assert!(matches!(parse_duration_millis(".5"), Err(SplitError::MalformedOutput)));
}

#[test]
fn whole_second_digits_are_capped() {
    assert_eq!(parse_duration_millis("9999999999999999").unwrap(), 9_999_999_999_999_999_000);
    assert!(matches!(
        parse_duration_millis("99999999999999999"),
        Err(SplitError::MalformedOutput)
    ));
}

#[test]
fn finds_substrings() {
    assert!(contains_str("hello world", "lo wo"));
    assert!(contains_str("abc", ""));
    assert!(!contains_str("abc", "abcd"));
    assert!(!contains_str("hello", "world"));
}

#[test]
fn classifies_benign_tail_diagnostic() {
    assert!(is_benign_tail_diagnostic("out.mp4: Output file is empty, nothing was encoded"));
    assert!(!is_benign_tail_diagnostic("Invalid data found when processing input"));
    assert!(!is_benign_tail_diagnostic(""));
}

#[test]
fn extension_follows_file_name() {
    assert_eq!(extension_of("a/b/c.mkv").unwrap(), "mkv");
    assert_eq!(extension_of("movie.final.mp4").unwrap(), "mp4");
    assert!(extension_of("noext").is_none());
    assert!(extension_of(".hidden").is_none());
    assert!(extension_of("dir.d/file").is_none());
    assert_eq!(extension_or_default("in.webm"), "webm");
    assert_eq!(extension_or_default("in"), "mp4");
}

#[test]
fn joins_paths_with_one_slash() {
    assert_eq!(join_path("out", "clip001.mp4"), "out/clip001.mp4");
}

#[test]
fn interprets_probe_outcomes() {
    let ok = ProbeOutcome::Completed {
        exit_success: true,
        stdout: String::from("3.5\n"),
        stderr: String::new(),
    };
    assert_eq!(interpret_probe_outcome(ok).unwrap(), 3_500);

    let failed = ProbeOutcome::Completed {
        exit_success: false,
        stdout: String::new(),
        stderr: String::from("no such file"),
    };
    match interpret_probe_outcome(failed) {
        Err(SplitError::ProbeFailed { diagnostic }) => assert_eq!(diagnostic, "no such file"),
        other => panic!("expected ProbeFailed, got {:?}", other.is_ok()),
    }

    let unlaunchable = ProbeOutcome::LaunchFailed { detail: String::from("not found") };
    match interpret_probe_outcome(unlaunchable) {
        Err(SplitError::ToolUnavailable { tool, detail }) => {
            assert_eq!(tool, "ffprobe");
            assert_eq!(detail, "not found");
        },
        other => panic!("expected ToolUnavailable, got {:?}", other.is_ok()),
    }
}

#[test]
fn availability_is_never_an_error() {
    // An absent binary never raises: it is simply not available.
    assert!(!tool_available(false, false));
    assert!(!tool_available(true, false));
    assert!(tool_available(true, true));
}

#[test]
fn progress_percentage() {
    let p = progress_after(1, 3);
    assert_eq!(p.current_clip, 1);
    assert_eq!(p.total_clips, 3);
    assert_eq!(p.percentage, 33);
    assert_eq!(progress_after(3, 3).percentage, 100);
}
