use video_splitter::errors::SplitError;
use video_splitter::naming::{clip_file_name, planned_file_names, render_decimal, render_index_padded};
use video_splitter::planner::{plan_clip_count, start_offset};

#[test]
fn plan_counts_partial_tail() {
    // 125 s cut into 60 s clips: 60, 60 and a 5 s tail.
    assert_eq!(plan_clip_count(125_000, 60_000).unwrap(), 3);
}

#[test]
fn plan_counts_exact_fit() {
    // 60 s cut into 60 s clips: exactly one clip.
    assert_eq!(plan_clip_count(60_000, 60_000).unwrap(), 1);
}

#[test]
fn plan_counts_more_shapes() {
    assert_eq!(plan_clip_count(1, 60_000).unwrap(), 1);
    assert_eq!(plan_clip_count(60_001, 60_000).unwrap(), 2);
    assert_eq!(plan_clip_count(120_000, 60_000).unwrap(), 2);
    assert_eq!(plan_clip_count(10, 3).unwrap(), 4);
}

#[test]
fn plan_rejects_zero_clip_duration() {
    assert!(matches!(plan_clip_count(125_000, 0), Err(SplitError::InvalidDuration)));
}

#[test]
fn plan_rejects_zero_total_duration() {
    assert!(matches!(plan_clip_count(0, 60_000), Err(SplitError::InvalidDuration)));
}

#[test]
fn start_offset_of_first_clip_is_zero() {
    assert_eq!(start_offset(1, 60_000), 0);
    assert_eq!(start_offset(1, 7), 0);
}

#[test]
fn start_offset_steps_by_clip_length() {
    assert_eq!(start_offset(2, 60_000), 60_000);
    assert_eq!(start_offset(3, 60_000), 120_000);
    assert_eq!(start_offset(10, 500), 4_500);
}

#[test]
fn render_decimal_plain() {
    assert_eq!(render_decimal(0), "0");
    assert_eq!(render_decimal(42), "42");
    assert_eq!(render_decimal(10_000), "10000");
}

#[test]
fn index_padding_is_three_digits() {
    assert_eq!(render_index_padded(1), "001");
    assert_eq!(render_index_padded(7), "007");
    assert_eq!(render_index_padded(42), "042");
    assert_eq!(render_index_padded(999), "999");
    assert_eq!(render_index_padded(1000), "1000");
}

#[test]
fn file_name_format() {
    assert_eq!(clip_file_name("clip", 1, "_part", "mp4"), "clip001_part.mp4");
    assert_eq!(clip_file_name("", 12, "", "mkv"), "012.mkv");
}

#[test]
fn padded_names_sort_like_numbers() {
    let mut prev = clip_file_name("clip", 1, "", "mp4");
    for i in 2..=999u64 {
        let cur = clip_file_name("clip", i, "", "mp4");
        assert!(prev < cur, "{} should sort before {}", prev, cur);
        prev = cur;
    }
}

#[test]
fn naming_is_idempotent() {
    let first = planned_file_names("clip", "_x", "mp4", 12);
    let second = planned_file_names("clip", "_x", "mp4", 12);
    assert_eq!(first, second);
    assert_eq!(first.len(), 12);
    assert_eq!(first[0], "clip001_x.mp4");
    assert_eq!(first[11], "clip012_x.mp4");
}
