use lolshorts::segments::{
    build_concat_list, classify_shortfall, completed_segment_index, compute_clip_window, concat_timeline,
    ensure_usable_clip_window, even_dimensions, parse_progress_frame, retain_measured_segments, ClipShortfall,
    MIN_CLIP_DURATION_MS,
};

// ---- progress parsing ----

#[test]
fn parses_unpadded_progress_frame_line() {
    assert_eq!(parse_progress_frame("frame=123"), Some(123));
    assert_eq!(parse_progress_frame("frame=0"), Some(0));
}

#[test]
fn tolerates_stray_whitespace_around_value() {
    assert_eq!(parse_progress_frame("frame= 4567 "), Some(4567));
}

#[test]
fn ignores_other_progress_fields() {
    assert_eq!(parse_progress_frame("fps=60.00"), None);
    assert_eq!(parse_progress_frame("out_time=00:00:02.050000"), None);
    assert_eq!(parse_progress_frame("progress=continue"), None);
    assert_eq!(parse_progress_frame("dup_frames=0"), None);
}

#[test]
fn returns_none_for_nonnumeric_frame_value() {
    assert_eq!(parse_progress_frame("frame=N/A"), None);
    assert_eq!(parse_progress_frame("frame="), None);
}

// ---- clip windows (times in ms) ----

#[test]
fn long_session_seeks_video_into_concat_and_audio_deep_into_wav() {
    let w = compute_clip_window(60_000, 1_200_000, 1_200_000, 1_110_000, Some(0), None);
    assert_eq!(w.video_ss, 30_000);
    assert_eq!(w.audio_ss, 1_140_000);
    assert_eq!(w.duration, 60_000);
}

#[test]
fn short_session_clamps_duration_to_available_and_seeks_from_zero() {
    let w = compute_clip_window(60_000, 40_000, 40_000, 2_000, Some(0), None);
    assert_eq!(w.video_ss, 0);
    assert_eq!(w.audio_ss, 2_000);
    assert_eq!(w.duration, 38_000);
}

#[test]
fn no_wav_makes_audio_offset_equal_video_offset() {
    let w = compute_clip_window(60_000, 1_200_000, 1_200_000, 1_110_000, None, None);
    assert_eq!(w.audio_ss, w.video_ss);
    assert_eq!(w.mic_ss, w.video_ss);
    assert_eq!(w.video_ss, 30_000);
}

#[test]
fn request_equal_to_buffer_seeks_from_concat_start() {
    let w = compute_clip_window(90_000, 1_200_000, 1_200_000, 1_110_000, Some(0), None);
    assert_eq!(w.video_ss, 0);
    assert_eq!(w.audio_ss, 1_110_000);
    assert_eq!(w.duration, 90_000);
}

#[test]
fn offsets_never_go_negative() {
    let w = compute_clip_window(60_000, 100_000, 100_000, 40_000, Some(1_000_000), None);
    assert_eq!(w.audio_ss, 0);
    assert_eq!(w.video_ss, 0);
}

#[test]
fn video_and_audio_target_same_wall_clock_instant() {
    let now = 1_500_000i64;
    let concat_start = 1_400_000i64;
    let wav_start = 12_000i64;
    let w = compute_clip_window(75_000, now, now, concat_start, Some(wav_start), None);
    assert_eq!(concat_start + w.video_ss as i64, wav_start + w.audio_ss as i64);
}

#[test]
fn long_session_seeks_mic_deep_into_mic_wav() {
    let w = compute_clip_window(60_000, 1_200_000, 1_200_000, 1_110_000, Some(0), Some(0));
    assert_eq!(w.video_ss, 30_000);
    assert_eq!(w.audio_ss, 1_140_000);
    assert_eq!(w.mic_ss, 1_140_000);
    assert_eq!(w.duration, 60_000);
}

#[test]
fn mic_started_later_than_system_seeks_shallower() {
    let w = compute_clip_window(60_000, 1_200_000, 1_200_000, 1_110_000, Some(0), Some(100_000));
    assert_eq!(w.audio_ss, 1_140_000);
    assert_eq!(w.mic_ss, 1_040_000);
}

#[test]
fn mic_only_no_system_audio_still_anchors_mic() {
    let w = compute_clip_window(60_000, 1_200_000, 1_200_000, 1_110_000, None, Some(0));
    assert_eq!(w.video_ss, 30_000);
    assert_eq!(w.audio_ss, w.video_ss);
    assert_eq!(w.mic_ss, 1_140_000);
}

#[test]
fn mic_offset_never_goes_negative() {
    let w = compute_clip_window(60_000, 100_000, 100_000, 40_000, Some(0), Some(1_000_000));
    assert_eq!(w.mic_ss, 0);
}

#[test]
fn video_system_and_mic_target_same_wall_clock_instant() {
    let now = 1_500_000i64;
    let concat_start = 1_400_000i64;
    let wav_start = 12_000i64;
    let mic_start = 37_000i64;
    let w = compute_clip_window(75_000, now, now, concat_start, Some(wav_start), Some(mic_start));
    let video_instant = concat_start + w.video_ss as i64;
    let audio_instant = wav_start + w.audio_ss as i64;
    let mic_instant = mic_start + w.mic_ss as i64;
    assert_eq!(video_instant, audio_instant);
    assert_eq!(audio_instant, mic_instant);
}

#[test]
fn past_end_anchor_cuts_the_window_around_the_event_not_around_now() {
    let event_wall = 1_150_000i64;
    let (pre, post) = (5_000i64, 3_000i64);
    let end_anchor = event_wall + post;
    let available_end = 1_200_000;
    let concat_start = 1_110_000;
    let w = compute_clip_window(pre + post, end_anchor, available_end, concat_start, None, None);
    assert_eq!(w.duration, 8_000);
    assert_eq!(w.video_ss, 35_000);
    assert_eq!(concat_start + w.video_ss as i64, event_wall - pre);
}

#[test]
fn end_anchor_beyond_available_footage_is_clamped_and_keeps_the_start() {
    let event_wall = 1_190_000i64;
    let (pre, post) = (10_000i64, 6_000i64);
    let end_anchor = event_wall + post;
    let available_end = 1_192_000;
    let concat_start = 1_100_000;
    let w = compute_clip_window(pre + post, end_anchor, available_end, concat_start, None, None);
    assert_eq!(w.video_ss, 80_000);
    assert_eq!(w.duration, 12_000);
}

#[test]
fn anchor_older_than_the_buffer_never_produces_a_negative_duration() {
    let w = compute_clip_window(20_000, 500_000, 1_200_000, 1_110_000, Some(0), Some(0));
    assert_eq!(w.duration, 0);
    assert_eq!(w.video_ss, 0);
}

#[test]
fn anchored_window_keeps_audio_and_video_on_the_same_instant() {
    let concat_start = 1_400_000i64;
    let wav_start = 12_000i64;
    let mic_start = 37_000i64;
    let w = compute_clip_window(30_000, 1_470_000, 1_490_000, concat_start, Some(wav_start), Some(mic_start));
    assert_eq!(w.duration, 30_000);
    assert_eq!(concat_start + w.video_ss as i64, 1_440_000);
    assert_eq!(wav_start + w.audio_ss as i64, 1_440_000);
    assert_eq!(mic_start + w.mic_ss as i64, 1_440_000);
}

#[test]
fn window_that_fell_out_of_the_rolling_buffer_is_rejected_not_exported() {
    let requested = 13_000;
    let w = compute_clip_window(requested, 1_000_000, 1_200_000, 1_110_000, Some(0), None);
    assert!(w.duration < MIN_CLIP_DURATION_MS, "precondition: duration={}", w.duration);
    let err = ensure_usable_clip_window(&w, requested).expect_err("an empty window must not be exported");
    let message = err.message("clip.mp4");
    assert!(message.contains("너무 짧습니다"), "unexpected error: {}", message);
    assert!(message.contains("clip.mp4"));
}

#[test]
fn sub_second_tail_is_rejected_too() {
    let w = compute_clip_window(16_000, 1_196_000, 1_190_400, 1_190_000, None, None);
    assert!(w.duration < MIN_CLIP_DURATION_MS, "duration={}", w.duration);
    assert!(ensure_usable_clip_window(&w, 16_000).is_err());
}

#[test]
fn normal_window_passes_the_guard() {
    let w = compute_clip_window(13_000, 1_200_000, 1_200_000, 1_110_000, Some(0), None);
    assert_eq!(w.duration, 13_000);
    assert!(ensure_usable_clip_window(&w, 13_000).is_ok());
}

// ---- which segments make the clip (lengths in ms) ----

fn names(v: &[&str]) -> Vec<String> {
    v.iter().map(|s| s.to_string()).collect()
}

#[test]
fn a_hole_in_the_middle_discards_everything_before_it() {
    let segments = names(&["s0.mp4", "s1.mp4", "s2.mp4", "s3.mp4"]);
    let probed = vec![Some(10_000), None, Some(10_000), Some(4_000)];
    let (kept, durations) = retain_measured_segments(&segments, &probed).expect("a contiguous run remains");
    assert_eq!(kept, names(&["s2.mp4", "s3.mp4"]));
    assert_eq!(durations, vec![10_000, 4_000]);
}

#[test]
fn only_the_unmeasurable_tail_is_dropped() {
    let segments = names(&["s0.mp4", "s1.mp4", "s2.mp4"]);
    let probed = vec![Some(10_000), Some(10_000), None];
    let (kept, durations) = retain_measured_segments(&segments, &probed).expect("the front is kept");
    assert_eq!(kept.len(), 2);
    assert_eq!(durations, vec![10_000, 10_000]);
}

#[test]
fn a_single_trailing_survivor_is_still_usable() {
    let segments = names(&["s0.mp4", "s1.mp4"]);
    let probed = vec![None, Some(7_500)];
    let (kept, durations) = retain_measured_segments(&segments, &probed).expect("one remains");
    assert_eq!(kept, names(&["s1.mp4"]));
    assert_eq!(durations, vec![7_500]);
}

#[test]
fn every_file_line_is_followed_by_a_duration_directive() {
    let segments = names(&["/tmp/segments/segment_000.mp4", "/tmp/segments/segment_001.mp4"]);
    let list = build_concat_list(&segments, &vec![10_016, 9_984]);
    let lines: Vec<&str> = list.lines().collect();
    assert_eq!(lines.len(), 4, "list was: {:?}", lines);
    assert_eq!(lines[0], "file '/tmp/segments/segment_000.mp4'");
    assert_eq!(lines[1], "duration 10.016");
    assert_eq!(lines[2], "file '/tmp/segments/segment_001.mp4'");
    assert_eq!(lines[3], "duration 9.984");
    assert!(list.ends_with('\n'));
}

#[test]
fn implausible_durations_are_omitted_rather_than_written() {
    let segments = names(&["a.mp4", "b.mp4", "c.mp4"]);
    let list = build_concat_list(&segments, &vec![0, 0, 10_000]);
    let lines: Vec<&str> = list.lines().collect();
    assert_eq!(lines, vec!["file 'a.mp4'", "file 'b.mp4'", "file 'c.mp4'", "duration 10.000"]);
}

#[test]
fn missing_duration_entries_still_emit_the_file_lines() {
    let segments = names(&["a.mp4", "b.mp4"]);
    let list = build_concat_list(&segments, &vec![10_000]);
    assert_eq!(list.lines().collect::<Vec<_>>(), vec!["file 'a.mp4'", "duration 10.000", "file 'b.mp4'"]);
}

#[test]
fn apostrophes_in_the_path_are_escaped_for_the_concat_parser() {
    let segments = names(&["/home/o'brien/seg.mp4"]);
    let list = build_concat_list(&segments, &vec![10_000]);
    assert_eq!(list.lines().next().unwrap(), r"file '/home/o'\''brien/seg.mp4'");
}

#[test]
fn empty_segment_list_yields_empty_content() {
    assert_eq!(build_concat_list(&Vec::new(), &Vec::new()), "");
}

#[test]
fn unmeasurable_segment_is_excluded_from_the_concat_list() {
    let segments = names(&["seg_000.mp4", "seg_001.mp4", "seg_002.mp4"]);
    let (kept, durations) = retain_measured_segments(&segments, &vec![Some(10_016), None, Some(9_984)])
        .expect("the trailing run is usable");
    assert_eq!(kept, names(&["seg_002.mp4"]));
    assert_eq!(durations, vec![9_984]);
    let list = build_concat_list(&kept, &durations);
    assert!(!list.contains("seg_001.mp4"), "list was: {}", list);
    assert!(!list.contains("seg_000.mp4"), "list was: {}", list);
    assert_eq!(list.lines().collect::<Vec<_>>(), vec!["file 'seg_002.mp4'", "duration 9.984"]);
}

#[test]
fn every_segment_unmeasurable_is_an_error_not_a_guessed_timeline() {
    let segments = names(&["a.mp4", "b.mp4"]);
    let err = retain_measured_segments(&segments, &vec![None, None])
        .expect_err("a fully unmeasurable buffer must not be exported");
    let message = err.message();
    assert!(message.contains("측정"), "unexpected error: {}", message);
    assert_eq!(err.segment_count, 2);
}

#[test]
fn fully_measured_segments_pass_through_unchanged() {
    let segments = names(&["a.mp4", "b.mp4"]);
    let (kept, durations) =
        retain_measured_segments(&segments, &vec![Some(10_000), Some(4_500)]).expect("all measurable");
    assert_eq!(kept, segments);
    assert_eq!(durations, vec![10_000, 4_500]);
}

#[test]
fn implausible_measurements_are_dropped_like_outright_failures() {
    let segments = names(&["a.mp4", "b.mp4", "c.mp4"]);
    let (kept, durations) = retain_measured_segments(&segments, &vec![Some(0), None, Some(12_000)])
        .expect("one segment is measurable");
    assert_eq!(kept, names(&["c.mp4"]));
    assert_eq!(durations, vec![12_000]);
}

#[test]
fn missing_probe_entries_count_as_failures() {
    let segments = names(&["a.mp4", "b.mp4"]);
    let (kept, durations) = retain_measured_segments(&segments, &vec![Some(10_000)]).expect("first is measurable");
    assert_eq!(kept, names(&["a.mp4"]));
    assert_eq!(durations, vec![10_000]);
}

#[test]
fn odd_capture_sizes_are_rounded_down_to_even() {
    assert_eq!(even_dimensions(1919, 1079), (1918, 1078));
    assert_eq!(even_dimensions(1920, 1080), (1920, 1080));
    assert_eq!(even_dimensions(1, 1), (0, 0));
    assert_eq!(even_dimensions(0, 0), (0, 0));
}

// ---- shortfall ----

#[test]
fn a_clip_of_the_requested_length_reports_nothing() {
    assert_eq!(classify_shortfall(13_000, 13_000), ClipShortfall::Complete);
    assert_eq!(classify_shortfall(13_000, 12_900), ClipShortfall::Complete);
    assert_eq!(classify_shortfall(13_000, 13_400), ClipShortfall::Complete);
}

#[test]
fn the_observed_regression_is_reported_instead_of_passing_as_success() {
    assert_eq!(classify_shortfall(13_000, 8_000), ClipShortfall::Partial);
}

#[test]
fn less_than_half_the_request_is_severe() {
    assert_eq!(classify_shortfall(13_000, 6_000), ClipShortfall::Severe);
    assert_eq!(classify_shortfall(60_000, 5_000), ClipShortfall::Severe);
}

#[test]
fn a_non_positive_or_unusable_request_reports_nothing() {
    assert_eq!(classify_shortfall(0, 0), ClipShortfall::Complete);
    assert_eq!(classify_shortfall(-1_000, 5_000), ClipShortfall::Complete);
}

// ---- further cases ----

#[test]
fn the_concat_timeline_runs_back_from_the_newest_segment() {
    let (end, start) = concat_timeline(&vec![10_000, 10_000, 4_000], 1_000_000, 2_000_000);
    assert_eq!(end, 1_000_000);
    assert_eq!(start, 976_000);
    // A segment stamped in the future is not trusted past now; an unknown one means now.
    assert_eq!(concat_timeline(&vec![1_000], 3_000_000, 2_000_000).0, 2_000_000);
    assert_eq!(concat_timeline(&vec![1_000], 0, 2_000_000), (2_000_000, 1_999_000));
}

#[test]
fn the_newest_complete_segment_skips_the_one_being_written() {
    assert_eq!(completed_segment_index(5, true), Some(3));
    assert_eq!(completed_segment_index(5, false), Some(4));
    assert_eq!(completed_segment_index(1, true), None);
    assert_eq!(completed_segment_index(0, false), None);
}

#[test]
fn a_request_of_nothing_takes_what_the_buffer_holds() {
    let w = compute_clip_window(0, 1_200_000, 1_200_000, 1_110_000, None, None);
    assert_eq!(w.duration, 0);
    let w = compute_clip_window(-5_000, 1_200_000, 1_150_000, 1_110_000, None, None);
    assert_eq!(w.duration, 0);
}
