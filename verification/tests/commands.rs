use lolshorts::readiness::add_overlay_status;
use lolshorts::encoding::{HwAccel, RecordingConfig};
use lolshorts::readiness::{failed_environment_probe, readiness_cache_key, readiness_probe};
use lolshorts::encoding::{RecordingStatus, TargetPlatform};
use lolshorts::readiness::{
    build_recording_readiness, build_replay_target_candidates, format_gib, readiness_blocker_message,
    readiness_cache_is_fresh, recording_quality_resolution_label, reject_raw_stop_during_auto_capture,
    validate_replay_target_selection, PlayerInfo, ReadinessCache, RecordingReadinessCacheKey,
    RecordingReadinessEnvironmentProbe, RecordingReadinessProbe, ReplayTargetCandidateStatus, ReplayTargetError,
    MIN_RECORDING_FREE_BYTES, READINESS_CACHE_TTL_MS,
};

#[test]
fn readiness_environment_cache_expires_after_ttl() {
    let now = 1_000_000u64;
    assert!(readiness_cache_is_fresh(now, now));
    assert!(readiness_cache_is_fresh(now, now + READINESS_CACHE_TTL_MS - 1));
    assert!(!readiness_cache_is_fresh(now, now + READINESS_CACHE_TTL_MS));
}

#[test]
fn raw_stop_rejects_an_owned_auto_capture_session() {
    let error = reject_raw_stop_during_auto_capture(true)
        .expect_err("raw stop must not tear down only one part of the pipeline");
    let message = error.message().to_string();
    assert!(message.contains("stop_auto_capture"), "unexpected error: {message}");
    assert!(reject_raw_stop_during_auto_capture(false).is_ok());
}

fn player(name: &str, champion_id: u32, team_id: u32) -> PlayerInfo {
    PlayerInfo { summoner_name: name.to_string(), champion_id, team_id }
}

#[test]
fn replay_candidates_ready_when_participants_exist() {
    let readiness = build_replay_target_candidates(
        true,
        Ok(vec![player("Faker", 1, 100), player("Gumayusi", 2, 100)]),
        Some("Faker".to_string()),
    );

    assert_eq!(readiness.status, ReplayTargetCandidateStatus::Ready);
    assert_eq!(readiness.candidates.len(), 2);
    assert_eq!(readiness.selected_target.as_deref(), Some("Faker"));
    assert!(!readiness.retryable);
}

#[test]
fn replay_target_validation_rejects_stale_target_when_ready() {
    let readiness = build_replay_target_candidates(true, Ok(vec![player("Faker", 1, 100)]), None);

    let error = validate_replay_target_selection("Chovy", &readiness).unwrap_err();

    assert!(error.message().contains("stale"));
}

#[test]
fn replay_target_validation_allows_target_when_candidates_unavailable() {
    let readiness = build_replay_target_candidates(false, Ok(Vec::new()), None);

    assert!(validate_replay_target_selection("Faker", &readiness).is_ok());
}

#[test]
fn recording_readiness_blocks_missing_ffmpeg_and_low_disk() {
    let readiness = build_recording_readiness(RecordingReadinessProbe {
        recording_status: RecordingStatus::Idle,
        output_dir: "C:/recordings".to_string(),
        output_dir_error: None,
        free_space_bytes: Some(1024),
        ffmpeg_path: None,
        ffmpeg_error: Some("not found".to_string()),
        ffprobe_available: false,
        encoder_name: "h264_nvenc".to_string(),
        encoder_available: None,
        software_fallback_available: None,
        audio_configured: true,
        system_audio_device_available: true,
        lcu_connected: false,
        live_client_available: false,
    });

    assert!(!readiness.ready);
    assert!(readiness.blockers.iter().any(|blocker| blocker.code == "ffmpeg_missing"));
    assert!(readiness.blockers.iter().any(|blocker| blocker.code == "disk_space_low"));
}

#[test]
fn recording_readiness_warns_for_unverified_hardware_capture() {
    let readiness = build_recording_readiness(RecordingReadinessProbe {
        recording_status: RecordingStatus::Idle,
        output_dir: "C:/recordings".to_string(),
        output_dir_error: None,
        free_space_bytes: Some(MIN_RECORDING_FREE_BYTES),
        ffmpeg_path: Some("C:/ffmpeg/bin/ffmpeg.exe".to_string()),
        ffmpeg_error: None,
        ffprobe_available: true,
        encoder_name: "libx264".to_string(),
        encoder_available: Some(true),
        software_fallback_available: Some(true),
        audio_configured: true,
        system_audio_device_available: true,
        lcu_connected: true,
        live_client_available: false,
    });

    assert!(readiness.ready);
    assert!(readiness.warnings.iter().any(|warning| warning.code == "capture_hardware_unverified"));
}

#[test]
fn recording_quality_resolution_label_reports_native_on_windows() {
    assert_eq!(recording_quality_resolution_label((1920, 1080), TargetPlatform::Windows), "native (game window)");
    assert_eq!(recording_quality_resolution_label((2560, 1440), TargetPlatform::Windows), "native (game window)");
}

#[test]
fn recording_quality_resolution_label_echoes_configured_value_elsewhere() {
    assert_eq!(recording_quality_resolution_label((1920, 1080), TargetPlatform::Linux), "1920x1080");
}

// ---- further cases ----

fn idle_probe() -> RecordingReadinessProbe {
    RecordingReadinessProbe {
        recording_status: RecordingStatus::Idle,
        output_dir: "C:/recordings".to_string(),
        output_dir_error: None,
        free_space_bytes: Some(MIN_RECORDING_FREE_BYTES),
        ffmpeg_path: Some("ffmpeg".to_string()),
        ffmpeg_error: None,
        ffprobe_available: true,
        encoder_name: "h264_nvenc".to_string(),
        encoder_available: Some(true),
        software_fallback_available: Some(true),
        audio_configured: true,
        system_audio_device_available: true,
        lcu_connected: true,
        live_client_available: true,
    }
}

#[test]
fn gib_values_are_written_with_one_rounded_decimal() {
    for bytes in [
        0u64,
        1,
        1024,
        1 << 28,
        3 << 28,
        5 << 27,
        (1 << 30) - 1,
        1 << 30,
        MIN_RECORDING_FREE_BYTES,
        123_456_789_012,
        u64::MAX,
    ] {
        let expected = format!("{:.1}", bytes as f64 / (1024.0 * 1024.0 * 1024.0));
        assert_eq!(format_gib(bytes), expected, "bytes = {bytes}");
    }
}

#[test]
fn the_blocker_message_lists_every_blocker_in_order() {
    let mut probe = idle_probe();
    probe.ffmpeg_path = None;
    probe.ffmpeg_error = Some("not found".to_string());
    probe.free_space_bytes = Some(1024);
    let readiness = build_recording_readiness(probe);
    let message = readiness_blocker_message(&readiness).unwrap();
    assert_eq!(readiness.blockers.len(), 2);
    let expected: Vec<String> = readiness
        .blockers
        .iter()
        .map(|b| format!("{}: {} ({})", b.component, b.message, b.action))
        .collect();
    assert_eq!(message, expected.join("; "));
    let fine = build_recording_readiness(idle_probe());
    assert!(fine.ready);
    assert_eq!(readiness_blocker_message(&fine), None);
}

#[test]
fn a_blank_or_overlong_target_is_refused_before_anything_else() {
    let readiness = build_replay_target_candidates(true, Ok(vec![player("Faker", 1, 100)]), None);
    assert!(matches!(
        validate_replay_target_selection("   ", &readiness),
        Err(ReplayTargetError::BadLength)
    ));
    let long = "x".repeat(33);
    assert!(matches!(validate_replay_target_selection(&long, &readiness), Err(ReplayTargetError::BadLength)));
    assert!(validate_replay_target_selection(" faker ", &readiness).is_ok());
}

#[test]
fn an_empty_lobby_asks_the_user_to_wait() {
    let readiness = build_replay_target_candidates(true, Ok(Vec::new()), None);
    assert_eq!(readiness.status, ReplayTargetCandidateStatus::Empty);
    let error = validate_replay_target_selection("Faker", &readiness).unwrap_err();
    assert!(matches!(error, ReplayTargetError::NoCandidates));
    assert!(error.message().contains("wait for replay participants"));
}

fn key(dir: &str) -> RecordingReadinessCacheKey {
    RecordingReadinessCacheKey {
        output_dir: dir.to_string(),
        encoder_name: "h264_nvenc".to_string(),
        software_fallback_name: "libx264".to_string(),
        audio_configured: true,
    }
}

fn env_probe(free: u64) -> RecordingReadinessEnvironmentProbe {
    RecordingReadinessEnvironmentProbe {
        output_dir_error: None,
        free_space_bytes: Some(free),
        ffmpeg_path: Some("ffmpeg".to_string()),
        ffmpeg_error: None,
        ffprobe_available: true,
        encoder_available: Some(true),
        software_fallback_available: Some(true),
        system_audio_device_available: true,
        live_client_available: false,
    }
}

#[test]
fn a_cached_probe_is_given_back_for_its_key_until_it_expires() {
    let mut cache = ReadinessCache::new();
    assert!(cache.cached_environment_probe(&key("a"), 0).is_none());
    cache.cache_environment_probe(key("a"), env_probe(77), 1_000);
    let hit = cache.cached_environment_probe(&key("a"), 1_000 + READINESS_CACHE_TTL_MS - 1).unwrap();
    assert_eq!(hit.free_space_bytes, Some(77));
    assert!(cache.cached_environment_probe(&key("b"), 1_001).is_none());
    assert!(cache.cached_environment_probe(&key("a"), 1_000 + READINESS_CACHE_TTL_MS).is_none());
}

#[test]
fn the_overlay_status_is_reported_as_a_component() {
    let mut r = build_recording_readiness(idle_probe());
    let components = r.components.len();
    add_overlay_status(&mut r, false, false);
    assert_eq!(r.components.len(), components + 1);
    assert_eq!(r.components.last().unwrap().status, "ok");
    let warnings = r.warnings.len();
    add_overlay_status(&mut r, true, false);
    assert_eq!(r.warnings.len(), warnings + 1);
    assert_eq!(r.warnings.last().unwrap().code, "overlay_exclusion_unavailable");
    assert_eq!(r.components.last().unwrap().status, "warning");
    assert!(r.ready);
}

#[test]
fn a_probe_is_assembled_from_the_config_and_the_environment() {
    let mut config = RecordingConfig::default();
    config.hw_accel = HwAccel::Qsv;
    config.audio_config = None;
    let key = readiness_cache_key(&config, TargetPlatform::Windows);
    assert_eq!(key.encoder_name, "h264_qsv");
    assert_eq!(key.software_fallback_name, "libx264");
    assert!(!key.audio_configured);
    let failed = failed_environment_probe();
    assert_eq!(failed.ffmpeg_error.as_deref(), Some("Readiness background probe did not complete"));
    let probe = readiness_probe(RecordingStatus::Idle, key, failed, true);
    assert_eq!(probe.encoder_name, "h264_qsv");
    assert!(probe.lcu_connected);
    let readiness = build_recording_readiness(probe);
    assert!(!readiness.ready);
    assert!(readiness.blockers.iter().any(|b| b.code == "ffmpeg_missing"));
}
