use lolshorts::recorder::{CaptureState, SEGMENTS_DIR_NAME};
use lolshorts::recorder::SegmentSession;
use lolshorts::control::{manual_bucket_id, manual_clip_game_id, manual_clip_id, manual_game_metadata};
use lolshorts::audio::{AudioConfig, AudioDevice, AudioDeviceType};
use lolshorts::control::{
    available_encoders, check_save_replay, choose_recording_target, disk_usage, encoder_smoke_test_args,
    is_segment_artifact, live_game_status, manual_clip_offset_ms, recorder_is_running, segments_may_be_cleared,
    start_refusal, still_recording_after_stop, stop_outcome_result, SaveReplayRefusal, GIB,
};
use lolshorts::encoding::{detailed_recording_status, RecordingConfig, RecordingStatus};
use lolshorts::ffmpeg_args::{
    export_args, monitor_region, recording_args, safe_capture_target, volume_string, window_capture_region,
    CaptureError, CaptureSource, ExportInputs, RecordingArgsConfig,
};
use lolshorts::game_monitor::{GameMode, UnifiedGameStatus};
use lolshorts::lifecycle::{CaptureStopOutcome, LiveClientBasicInfo};
use lolshorts::readiness::{
    build_recording_readiness, build_replay_target_candidates, PlayerInfo, RecordingReadinessProbe, ReplayTargetError,
};
use lolshorts::recorder::{
    available_mb_for, begin_recording_stop, check_clip_save, check_config_update, check_recording_start,
    classify_stderr_line, coverage_timeout_ms, disk_alert, dshow_fallback_device, event_clip_file_name,
    ffmpeg_health_decision, last_seconds_file_name, loopback_device_hint, start_failure_message,
    status_after_capture_start, status_after_capture_stop, status_after_health_check, watchdog_step, DiskAlert,
    DiskInfo, ProcessPoll, RecorderStartError, RecorderStopError, StderrTail, WatchdogStep, MIN_FREE_BYTES,
};
use lolshorts::segments::ClipWindow;

#[test]
fn a_capture_starts_only_when_idle_with_enough_disk() {
    assert_eq!(check_recording_start(RecordingStatus::Idle, Some(MIN_FREE_BYTES)), Ok(RecordingStatus::Buffering));
    assert_eq!(
        check_recording_start(RecordingStatus::Buffering, Some(MIN_FREE_BYTES)),
        Err(RecorderStartError::AlreadyActive)
    );
    assert_eq!(check_recording_start(RecordingStatus::Idle, None), Err(RecorderStartError::DiskSpaceUnknown));
    let low = check_recording_start(RecordingStatus::Idle, Some(1 << 30)).unwrap_err();
    assert_eq!(low, RecorderStartError::LowDiskSpace(1 << 30));
    assert!(low.message().ends_with("(현재: 1.0GB)"));
    assert_eq!(status_after_capture_start(false), RecordingStatus::Idle);
    assert_eq!(status_after_capture_start(true), RecordingStatus::Recording);
}

#[test]
fn stops_are_refused_when_idle_or_already_stopping() {
    assert_eq!(begin_recording_stop(RecordingStatus::Idle), Err(RecorderStopError::NotRecording));
    assert_eq!(begin_recording_stop(RecordingStatus::Processing), Err(RecorderStopError::AlreadyStopping));
    assert_eq!(begin_recording_stop(RecordingStatus::Error), Ok(RecordingStatus::Processing));
    assert_eq!(begin_recording_stop(RecordingStatus::Recording), Ok(RecordingStatus::Processing));
    assert_eq!(status_after_capture_stop(true), RecordingStatus::Idle);
    assert_eq!(status_after_capture_stop(false), RecordingStatus::Error);
    assert_eq!(RecorderStopError::NotRecording.message(), "진행 중인 녹화가 없습니다");
}

#[test]
fn the_watchdog_checks_only_running_captures_and_restarts_once() {
    assert_eq!(watchdog_step(RecordingStatus::Recording), WatchdogStep::Check);
    assert_eq!(watchdog_step(RecordingStatus::Processing), WatchdogStep::Skip);
    assert_eq!(watchdog_step(RecordingStatus::Error), WatchdogStep::Exit);
    let first = ffmpeg_health_decision(ProcessPoll::Exited, false);
    assert!(first.restart && first.forget_process && first.restart_attempted);
    let second = ffmpeg_health_decision(ProcessPoll::Exited, true);
    assert!(!second.restart && second.forget_process);
    let running = ffmpeg_health_decision(ProcessPoll::Running, false);
    assert!(!running.restart && !running.forget_process && !running.restart_attempted);
    assert_eq!(status_after_health_check(false), Some(RecordingStatus::Error));
    assert_eq!(status_after_health_check(true), None);
}

#[test]
fn clips_are_cut_only_while_capturing() {
    assert!(check_clip_save(RecordingStatus::Buffering).is_ok());
    assert!(check_clip_save(RecordingStatus::Idle).is_err());
    assert_eq!(last_seconds_file_name("20260509_010203", 30), "clip_20260509_010203_30.mp4");
    assert_eq!(event_clip_file_name("merged_100_108"), "merged_100_108.mp4");
    assert!(check_config_update(RecordingStatus::Idle).is_ok());
    assert!(check_config_update(RecordingStatus::Recording).is_err());
}

#[test]
fn the_coverage_wait_is_bounded() {
    assert_eq!(coverage_timeout_ms(1_000_000, 995_000, 10), 17_000);
    assert_eq!(coverage_timeout_ms(1_000_000, 1_005_000, 10), 12_000);
    assert_eq!(coverage_timeout_ms(i64::MAX, i64::MIN, 10), 120_000);
}

#[test]
fn disk_alerts_and_the_disk_holding_a_path() {
    assert_eq!(disk_alert(100), DiskAlert::Critical);
    assert_eq!(disk_alert(499), DiskAlert::Critical);
    assert_eq!(disk_alert(500), DiskAlert::Warning);
    assert_eq!(disk_alert(1023), DiskAlert::Warning);
    assert_eq!(disk_alert(1024), DiskAlert::Fine);
    assert_eq!(disk_alert(700), DiskAlert::Warning);
    assert_eq!(disk_alert(4_000), DiskAlert::Fine);
    let disks = vec![
        DiskInfo { mount_point: "C:\\".to_string(), available_bytes: 10 << 20 },
        DiskInfo { mount_point: "D:\\".to_string(), available_bytes: 20 << 20 },
        DiskInfo { mount_point: "D:\\Games".to_string(), available_bytes: 30 << 20 },
    ];
    assert_eq!(available_mb_for("d:\\games\\recordings", &disks), 30);
    assert_eq!(available_mb_for("D:\\Videos", &disks), 20);
    assert_eq!(available_mb_for("E:\\x", &disks), 10);
    assert_eq!(available_mb_for("E:\\x", &Vec::new()), u64::MAX);
}

#[test]
fn audio_sources_fall_back_in_order() {
    let mut audio = AudioConfig::default();
    audio.system_audio_device = Some("Speakers".to_string());
    assert_eq!(loopback_device_hint(&audio).as_deref(), Some("Speakers"));
    audio.audio_device_id = Some("{0.0.0}".to_string());
    assert_eq!(loopback_device_hint(&audio).as_deref(), Some("{0.0.0}"));
    let listed = vec![
        AudioDevice { name: "Mic".to_string(), device_type: AudioDeviceType::Microphone },
        AudioDevice { name: "Stereo Mix".to_string(), device_type: AudioDeviceType::SystemAudio },
    ];
    assert_eq!(dshow_fallback_device(None, Some(listed)).as_deref(), Some("Stereo Mix"));
    assert_eq!(dshow_fallback_device(Some("Cfg".to_string()), None).as_deref(), Some("Cfg"));
    assert_eq!(dshow_fallback_device(None, None), None);
}

#[test]
fn the_stderr_tail_keeps_the_last_twenty_lines() {
    let mut tail = StderrTail::new();
    assert_eq!(tail.joined(), "");
    for i in 0..25 {
        tail.push_line(format!("line {i}"));
    }
    let joined = tail.joined();
    let lines: Vec<&str> = joined.split('\n').collect();
    assert_eq!(lines.len(), 20);
    assert_eq!(lines[0], "line 5");
    assert_eq!(lines[19], "line 24");
    assert_eq!(
        start_failure_message(Some(-22), ""),
        "FFmpeg가 시작 직후 종료되었습니다 (종료 코드: Some(-22)). FFmpeg 출력: (출력 없음)"
    );
    assert_eq!(
        start_failure_message(None, "boom"),
        format!("FFmpeg가 시작 직후 종료되었습니다 (종료 코드: {:?}). FFmpeg 출력: boom", None::<i32>)
    );
}

#[test]
fn stderr_lines_are_classified_by_their_words() {
    let k = classify_stderr_line("[h264_nvenc] Error initializing");
    assert!(k.notable && k.is_error);
    let k = classify_stderr_line("Warning: past duration");
    assert!(k.notable && !k.is_error);
    let k = classify_stderr_line("ERROR in caps only");
    assert!(!k.notable && !k.is_error);
}

#[test]
fn volumes_are_written_like_floats() {
    for percent in 0..=255u8 {
        assert_eq!(volume_string(percent), format!("{}", percent as f32 / 100.0), "percent = {percent}");
    }
}

#[test]
fn capture_regions_are_even_and_large_enough() {
    assert_eq!(window_capture_region(Some((10, 20, 1919, 1079))), Ok((10, 20, 1918, 1078)));
    assert_eq!(window_capture_region(Some((0, 0, 1, 1))), Err(CaptureError::WindowTooSmall));
    assert_eq!(window_capture_region(None), Err(CaptureError::WindowTooSmall));
    assert_eq!(monitor_region(1, (1920, 0, 2561, 1441)), Some((1920, 0, 2560, 1440)));
    assert_eq!(monitor_region(0, (0, 0, 1920, 1080)), None);
    assert_eq!(safe_capture_target("tcp://evil", "League"), "League");
    assert_eq!(safe_capture_target("League of Legends", "x"), "League of Legends");
}

#[test]
fn the_recording_command_lists_input_encoder_and_segments() {
    let config = RecordingArgsConfig {
        fps: 60,
        bitrate: 20_000_000,
        encoder_name: "h264_nvenc".to_string(),
        segment_audio: Some((192, 44_100)),
        segment_duration_secs: 10,
        buffer_duration_secs: 90,
        segment_pattern: "seg_%03d.mp4".to_string(),
    };
    let args = recording_args(&CaptureSource::WindowTitle("LoL".to_string()), &Some("Mix".to_string()), &config);
    let line = args.join(" ");
    assert!(line.starts_with("-y -nostats -progress pipe:1 -f gdigrab -framerate 60 -draw_mouse 0 -i title=LoL"));
    assert!(line.contains("-f dshow -i audio=Mix"));
    assert!(line.contains("-c:v h264_nvenc -b:v 20000k -maxrate 30000k -bufsize 60000k -preset p4 -g 120"));
    assert!(line.contains("-c:a aac -b:a 192k -ar 48000"));
    assert!(line.ends_with("-segment_time 10 -segment_wrap 9 -segment_format mp4 -reset_timestamps 1 -strftime 0 seg_%03d.mp4"));
}

#[test]
fn the_export_command_seeks_each_input() {
    let window = ClipWindow { video_ss: 30_000, audio_ss: 1_140_000, mic_ss: 1_040_000, duration: 13_000 };
    let inputs = ExportInputs {
        concat_file: "list.txt".to_string(),
        system_wav: Some("sys.wav".to_string()),
        mic_wav: Some("mic.wav".to_string()),
        system_audio_embedded: false,
        audio_bitrate_kbps: 192,
        system_volume: 100,
        mic_volume: 120,
        output_path: "out.mp4".to_string(),
    };
    let args = export_args(&window, &inputs);
    let line = args.join(" ");
    assert!(line.contains("-ss 30.000"));
    assert!(line.contains("-ss 1140.000"));
    assert!(line.contains("-ss 1040.000"));
    assert!(line.contains("volume=1.2"));
    assert!(line.ends_with("out.mp4"));
}

fn player(name: &str) -> PlayerInfo {
    PlayerInfo { summoner_name: name.to_string(), champion_id: 1, team_id: 100 }
}

#[test]
fn commands_gate_starts_stops_and_saves() {
    assert!(recorder_is_running(RecordingStatus::Recording));
    assert!(!recorder_is_running(RecordingStatus::Processing));
    let probe = RecordingReadinessProbe {
        recording_status: RecordingStatus::Idle,
        output_dir: "C:/recordings".to_string(),
        output_dir_error: None,
        free_space_bytes: Some(1024),
        ffmpeg_path: Some("ffmpeg".to_string()),
        ffmpeg_error: None,
        ffprobe_available: true,
        encoder_name: "h264_nvenc".to_string(),
        encoder_available: Some(true),
        software_fallback_available: Some(true),
        audio_configured: true,
        system_audio_device_available: true,
        lcu_connected: true,
        live_client_available: true,
    };
    let refusal = start_refusal(&build_recording_readiness(probe)).unwrap();
    assert!(refusal.starts_with("Recording readiness blockers: "));
    assert!(still_recording_after_stop(false, RecordingStatus::Recording));
    assert!(!still_recording_after_stop(true, RecordingStatus::Recording));
    assert_eq!(check_save_replay(0, RecordingStatus::Recording), Err(SaveReplayRefusal::DurationOutOfRange));
    assert_eq!(check_save_replay(301, RecordingStatus::Recording), Err(SaveReplayRefusal::DurationOutOfRange));
    assert_eq!(check_save_replay(30, RecordingStatus::Idle), Err(SaveReplayRefusal::NotCapturing(RecordingStatus::Idle)));
    assert_eq!(
        SaveReplayRefusal::NotCapturing(RecordingStatus::Idle).message(),
        "Cannot save replay while recorder is Idle; start recording and wait for buffering first"
    );
    assert!(check_save_replay(300, RecordingStatus::Buffering).is_ok());
    assert_eq!(manual_clip_offset_ms(2_000), 0);
    assert_eq!(manual_clip_offset_ms(30_000), 27_000);
}

#[test]
fn the_first_failed_stop_step_is_reported() {
    let outcome = CaptureStopOutcome {
        event_monitoring: Ok(()),
        recording_stopped: Err("recorder".to_string()),
        finalized: Err("finalize".to_string()),
    };
    assert_eq!(stop_outcome_result(outcome), Err("recorder".to_string()));
    let outcome = CaptureStopOutcome { event_monitoring: Ok(()), recording_stopped: Ok(()), finalized: Ok(None) };
    assert_eq!(stop_outcome_result(outcome), Ok(()));
}

#[test]
fn recording_targets_are_trimmed_and_checked() {
    let readiness = build_replay_target_candidates(true, Ok(vec![player("Faker")]), None);
    assert_eq!(choose_recording_target("  Faker ", &readiness).unwrap(), "Faker");
    assert!(matches!(choose_recording_target("Chovy", &readiness), Err(ReplayTargetError::Stale(_))));
    let padded = format!("{}Faker", " ".repeat(30));
    assert!(matches!(choose_recording_target(&padded, &readiness), Err(ReplayTargetError::BadLength)));
}

#[test]
fn the_status_follows_the_live_client_and_the_recorder() {
    let info = LiveClientBasicInfo {
        summoner_name: "me".to_string(),
        champion_name: "Ahri".to_string(),
        game_time_ms: 61_000,
        game_mode: "TFT".to_string(),
    };
    let s = live_game_status(UnifiedGameStatus::new(), Some(info), RecordingStatus::Buffering, 3);
    assert!(s.in_game && s.is_recording);
    assert_eq!(s.game_mode, GameMode::TFT);
    assert_eq!(s.champion_name, None);
    assert_eq!(s.session_clip_count, 3);
    let s = live_game_status(s, None, RecordingStatus::Idle, 3);
    assert!(!s.in_game && !s.is_recording);
    assert_eq!(s.game_mode, GameMode::Live);
    let config = RecordingConfig::default();
    let info = detailed_recording_status(RecordingStatus::Buffering, false, true, &config, None, None, None);
    assert_eq!(info.status, "buffering");
    assert!(info.is_monitoring);
    assert_eq!(info.buffer_duration_secs, 60);
}

#[test]
fn encoders_offered_follow_the_smoke_tests() {
    let only_software = available_encoders(false, false, false);
    assert_eq!(only_software.total_count, 1);
    assert_eq!(only_software.auto_detected, "software");
    assert_eq!(only_software.available[0].av1_encoder.as_deref(), Some("libsvtav1"));
    let some = available_encoders(false, true, true);
    let ids: Vec<&str> = some.available.iter().map(|e| e.id.as_str()).collect();
    assert_eq!(ids, vec!["qsv", "amf", "software"]);
    assert_eq!(some.auto_detected, "qsv");
    assert_eq!(some.available[1].h265_encoder, "hevc_amf");
    assert_eq!(
        encoder_smoke_test_args("hevc_nvenc").join(" "),
        "-f lavfi -i nullsrc=s=256x256:d=0.1 -c:v hevc_nvenc -f null -"
    );
}

#[test]
fn disk_usage_flags_follow_their_thresholds() {
    let u = disk_usage(21 * GIB, 3 * GIB, 1, Some((100 * GIB, 9 * GIB)));
    assert!(u.disk_space_known && u.cleanup_needed && u.cleanup_temp && u.archive_old_recordings && u.low_disk_space);
    assert_eq!(u.used_bytes, 91 * GIB);
    let u = disk_usage(0, 0, 0, None);
    assert!(!u.disk_space_known && !u.low_disk_space && !u.cleanup_temp);
    assert_eq!(u.total_bytes, 0);
    assert!(is_segment_artifact(Some("MP4")));
    assert!(is_segment_artifact(Some("wav")));
    assert!(!is_segment_artifact(Some("mkv")));
    assert!(!is_segment_artifact(None));
    assert!(!segments_may_be_cleared(RecordingStatus::Recording));
    assert!(segments_may_be_cleared(RecordingStatus::Idle));
}

#[test]
fn manual_clips_are_filed_under_the_game_or_the_day() {
    // 2026-05-09T01:02:03Z
    let now = 1_778_288_523i64;
    assert_eq!(manual_bucket_id(now).as_deref(), Some("manual_20260509"));
    assert_eq!(manual_clip_game_id(None, now).as_deref(), Some("manual_20260509"));
    assert_eq!(manual_clip_game_id(Some("auto_x".to_string()), now).as_deref(), Some("auto_x"));
    assert!(manual_bucket_id(i64::MAX).is_none());
    assert_eq!(manual_clip_id(1_778_288_523_456), "manual_1778288523456");
    let m = manual_game_metadata("manual_20260509".to_string(), now);
    assert_eq!((m.champion.as_str(), m.game_mode.as_str()), ("Manual", "MANUAL"));
    assert_eq!(m.start_time_secs, now);
    assert_eq!(
        lolshorts::recorder::last_seconds_clip_name(now, 30).as_deref(),
        Some("clip_20260509_010203_30.mp4")
    );
}

#[test]
fn exports_use_the_audio_settings_or_their_defaults() {
    let e = lolshorts::ffmpeg_args::export_inputs("l".to_string(), None, None, false, &None, "o".to_string());
    assert_eq!((e.audio_bitrate_kbps, e.system_volume, e.mic_volume), (192, 100, 120));
    let mut audio = AudioConfig::default();
    audio.bitrate = 128;
    audio.system_audio_volume = 80;
    let e = lolshorts::ffmpeg_args::export_inputs("l".to_string(), None, None, true, &Some(audio), "o".to_string());
    assert_eq!((e.audio_bitrate_kbps, e.system_volume, e.mic_volume), (128, 80, 120));
    assert!(e.system_audio_embedded);
}

#[test]
fn the_recorder_state_follows_starts_and_stops() {
    let mut state = CaptureState::new();
    assert_eq!(state.begin_stop(), Err(RecorderStopError::NotRecording));
    assert_eq!(state.begin_start(None), Err(RecorderStartError::DiskSpaceUnknown));
    assert_eq!(state.status, RecordingStatus::Idle);
    assert_eq!(state.begin_start(Some(MIN_FREE_BYTES)), Ok(()));
    assert_eq!(state.status, RecordingStatus::Buffering);
    state.finish_start(true, 7_000);
    assert_eq!((state.status, state.start_time_ms), (RecordingStatus::Recording, Some(7_000)));
    assert_eq!(state.begin_start(Some(MIN_FREE_BYTES)), Err(RecorderStartError::AlreadyActive));
    assert_eq!(state.begin_stop(), Ok(()));
    assert_eq!(state.begin_stop(), Err(RecorderStopError::AlreadyStopping));
    let out = "C:/rec".to_string();
    assert_eq!(state.finish_stop(Ok(()), &out), Ok(("C:/rec".to_string(), SEGMENTS_DIR_NAME)));
    assert_eq!((state.status, state.start_time_ms), (RecordingStatus::Idle, None));
    state.begin_start(Some(MIN_FREE_BYTES)).unwrap();
    state.finish_start(true, 9_000);
    state.begin_stop().unwrap();
    assert_eq!(state.finish_stop(Err("kill failed".to_string()), &out), Err("kill failed".to_string()));
    assert_eq!(state.status, RecordingStatus::Error);
    assert_eq!(state.start_time_ms, Some(9_000));
    assert_eq!(state.begin_stop(), Ok(()));
}

#[test]
fn the_segment_session_guards_launches_and_resets_on_a_fresh_start() {
    let mut s = SegmentSession::new();
    s.audio_start_wall_ms = Some(5);
    s.system_audio_active = true;
    s.frame_count = 99;
    assert_eq!(s.begin_launch(false), Ok(()));
    assert_eq!(s.frame_count, 99);
    s.finish_launch(true, false);
    assert_eq!(s.begin_launch(true), Err(RecorderStartError::AlreadyActive));
    assert!(s.apply_health(ProcessPoll::Exited));
    assert!(!s.ffmpeg_running && s.restart_attempted);
    assert_eq!(s.audio_start_wall_ms, Some(5));
    assert_eq!(s.begin_launch(false), Ok(()));
    s.finish_launch(false, false);
    assert_eq!(s.audio_start_wall_ms, Some(5));
    assert!(!s.apply_health(ProcessPoll::Exited));
    assert_eq!(s.begin_fresh_start(), Ok(()));
    assert!(!s.restart_attempted);
    assert_eq!((s.audio_start_wall_ms, s.system_audio_active, s.frame_count), (None, false, 0));
    s.mic_active = true;
    s.finish_launch(false, true);
    assert!(!s.mic_active);
    s.finish_launch(true, true);
    s.stopped();
    assert!(!s.ffmpeg_running);
}

#[test]
fn the_locked_manager_error_names_itself() {
    assert_eq!(lolshorts::audio::AudioError::ManagerLocked.message(), "Audio device manager is locked");
}
