use video_splitter::errors::SplitError;
use video_splitter::probe::ProbeOutcome;
use video_splitter::session::{ExtractOutcome, SplitAction, SplitSession};

fn new_session(input: &str, clip_ms: u64) -> SplitSession {
    SplitSession::new(
        String::from(input),
        String::from("out"),
        String::from("clip"),
        String::new(),
        clip_ms,
    )
    .unwrap()
}

fn probe_ok(stdout: &str) -> ProbeOutcome {
    ProbeOutcome::Completed {
        exit_success: true,
        stdout: String::from(stdout),
        stderr: String::new(),
    }
}

fn extract_ok() -> ExtractOutcome {
    ExtractOutcome::Completed { exit_success: true, stderr: String::new() }
}

/// Runs probe and directory preparation, answering the probe with `stdout`.
fn up_to_extraction(session: &mut SplitSession, stdout: &str) {
    match session.next_action() {
        Some(SplitAction::RunProbe { path }) => assert_eq!(path, session.input_path),
        _ => panic!("expected a probe request"),
    }
    session.on_probe(probe_ok(stdout));
    match session.next_action() {
        Some(SplitAction::PrepareDirectory { dir }) => assert_eq!(dir, "out"),
        _ => panic!("expected directory preparation"),
    }
    session.on_directory_prepared(true, String::new());
}

#[test]
fn scenario_partial_tail_yields_three_clips() {
    // 125 s at 60 s per clip: clips of 60, 60 and a 5 s tail.
    let mut s = new_session("in.mp4", 60_000);
    up_to_extraction(&mut s, "125.000000");
    let mut seen = Vec::new();
    while !s.is_finished() {
        match s.next_action() {
            Some(SplitAction::RunExtraction { clip }) => {
                seen.push((clip.index, clip.start_ms, clip.output_path));
                s.on_extraction(extract_ok());
            },
            _ => panic!("expected an extraction"),
        }
    }
    assert_eq!(
        seen,
        vec![
            (1, 0, String::from("out/clip001.mp4")),
            (2, 60_000, String::from("out/clip002.mp4")),
            (3, 120_000, String::from("out/clip003.mp4")),
        ]
    );
    assert_eq!(s.into_result().unwrap(), 3);
}

#[test]
fn scenario_exact_fit_yields_one_clip() {
    let mut s = new_session("in.mp4", 60_000);
    up_to_extraction(&mut s, "60.000000");
    match s.next_action() {
        Some(SplitAction::RunExtraction { clip }) => {
            assert_eq!(clip.index, 1);
            assert_eq!(clip.start_ms, 0);
            assert_eq!(clip.output_path, "out/clip001.mp4");
        },
        _ => panic!("expected an extraction"),
    }
    s.on_extraction(extract_ok());
    assert!(s.is_finished());
    assert_eq!(s.into_result().unwrap(), 1);
}

#[test]
fn scenario_malformed_probe_output_stops_before_extraction() {
    let mut s = new_session("in.mp4", 60_000);
    s.on_probe(probe_ok("N/A"));
    // The split failed before any extraction was requested.
    assert!(s.is_finished());
    assert!(s.next_action().is_none());
    assert!(matches!(s.into_result(), Err(SplitError::MalformedOutput)));
}

#[test]
fn scenario_hard_failure_on_clip_two_aborts() {
    let mut s = new_session("in.mp4", 60_000);
    up_to_extraction(&mut s, "125.000000");
    s.on_extraction(extract_ok());
    match s.next_action() {
        Some(SplitAction::RunExtraction { clip }) => assert_eq!(clip.index, 2),
        _ => panic!("expected clip 2"),
    }
    s.on_extraction(ExtractOutcome::Completed {
        exit_success: false,
        stderr: String::from("Invalid data found when processing input"),
    });
    // Aborted: clip 3 is never requested, and the error names clip 2.
    assert!(s.is_finished());
    assert!(s.next_action().is_none());
    match s.into_result() {
        Err(SplitError::ExtractionFailed { clip_index, diagnostic }) => {
            assert_eq!(clip_index, 2);
            assert_eq!(diagnostic, "Invalid data found when processing input");
        },
        _ => panic!("expected ExtractionFailed for clip 2"),
    }
}

#[test]
fn benign_tail_failure_is_swallowed() {
    let mut s = new_session("in.mp4", 60_000);
    up_to_extraction(&mut s, "125.000000");
    s.on_extraction(extract_ok());
    s.on_extraction(extract_ok());
    s.on_extraction(ExtractOutcome::Completed {
        exit_success: false,
        stderr: String::from("out/clip003.mp4: Output file is empty, nothing was encoded"),
    });
    assert_eq!(s.into_result().unwrap(), 3);
}

#[test]
fn output_names_inherit_the_input_extension() {
    let mut s = new_session("movies/in.webm", 30_000);
    up_to_extraction(&mut s, "30");
    match s.next_action() {
        Some(SplitAction::RunExtraction { clip }) => {
            assert_eq!(clip.output_path, "out/clip001.webm");
        },
        _ => panic!("expected an extraction"),
    }
}

#[test]
fn probe_launch_failure_means_tool_unavailable() {
    let mut s = new_session("in.mp4", 60_000);
    s.on_probe(ProbeOutcome::LaunchFailed { detail: String::from("no such binary") });
    match s.into_result() {
        Err(SplitError::ToolUnavailable { tool, detail }) => {
            assert_eq!(tool, "ffprobe");
            assert_eq!(detail, "no such binary");
        },
        _ => panic!("expected ToolUnavailable"),
    }
}

#[test]
fn probe_exit_failure_carries_the_diagnostic() {
    let mut s = new_session("in.mp4", 60_000);
    s.on_probe(ProbeOutcome::Completed {
        exit_success: false,
        stdout: String::new(),
        stderr: String::from("in.mp4: No such file or directory"),
    });
    match s.into_result() {
        Err(SplitError::ProbeFailed { diagnostic }) => {
            assert_eq!(diagnostic, "in.mp4: No such file or directory");
        },
        _ => panic!("expected ProbeFailed"),
    }
}

#[test]
fn zero_probed_duration_is_invalid() {
    let mut s = new_session("in.mp4", 60_000);
    s.on_probe(probe_ok("0.0"));
    assert!(matches!(s.into_result(), Err(SplitError::InvalidDuration)));
}

#[test]
fn directory_failure_is_fatal_before_extraction() {
    let mut s = new_session("in.mp4", 60_000);
    s.on_probe(probe_ok("125.0"));
    s.on_directory_prepared(false, String::from("permission denied"));
    assert!(s.next_action().is_none());
    match s.into_result() {
        Err(SplitError::DirectoryError { detail }) => assert_eq!(detail, "permission denied"),
        _ => panic!("expected DirectoryError"),
    }
}

#[test]
fn extraction_launch_failure_means_tool_unavailable() {
    let mut s = new_session("in.mp4", 60_000);
    up_to_extraction(&mut s, "10");
    s.on_extraction(ExtractOutcome::LaunchFailed { detail: String::from("gone") });
    match s.into_result() {
        Err(SplitError::ToolUnavailable { tool, detail }) => {
            assert_eq!(tool, "ffmpeg");
            assert_eq!(detail, "gone");
        },
        _ => panic!("expected ToolUnavailable"),
    }
}

#[test]
fn request_validation() {
    assert!(matches!(
        SplitSession::new(
            String::from("in.mp4"),
            String::from("out"),
            String::new(),
            String::new(),
            0
        ),
        Err(SplitError::InvalidDuration)
    ));
    assert!(matches!(
        SplitSession::new(String::new(), String::from("out"), String::new(), String::new(), 1),
        Err(SplitError::FileAccessError { .. })
    ));
    assert!(matches!(
        SplitSession::new(String::from("in.mp4"), String::new(), String::new(), String::new(), 1),
        Err(SplitError::DirectoryError { .. })
    ));
}
