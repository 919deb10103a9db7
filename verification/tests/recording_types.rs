use lolshorts::encoding::{
    hw_accel_from_preference, recording_config_from_settings, HwAccel, RecordingConfig, RecordingStatus,
    TargetPlatform, VideoEncoder, VideoSettingsConfig, DEFAULT_CAPTURE_TITLE,
};

// ---- RecordingConfig ----

#[test]
fn recording_config_default_has_expected_fps() {
    let config = RecordingConfig::default();
    assert_eq!(config.fps, 60);
}

#[test]
fn recording_config_default_has_expected_bitrate() {
    let config = RecordingConfig::default();
    assert_eq!(config.bitrate, 15_000_000);
}

#[test]
fn recording_config_default_has_expected_resolution() {
    let config = RecordingConfig::default();
    assert_eq!(config.resolution, (1920, 1080));
}

#[test]
fn recording_config_default_has_buffer_duration_60s() {
    let config = RecordingConfig::default();
    assert_eq!(config.buffer_duration_secs, 60);
}

#[test]
fn recording_config_default_has_segment_duration_10s() {
    let config = RecordingConfig::default();
    assert_eq!(config.segment_duration_secs, 10);
}

#[test]
fn recording_config_default_has_capture_target_or_hwnd() {
    let config = RecordingConfig::default();
    assert!(
        config.capture_hwnd.is_some() || config.capture_target.is_some(),
        "Expected either capture_hwnd or capture_target to be set"
    );
}

#[test]
fn recording_config_default_has_audio_config() {
    let config = RecordingConfig::default();
    assert!(config.audio_config.is_some());
}

// ---- VideoEncoder::to_ffmpeg_name ----

#[test]
fn video_encoder_h264_to_ffmpeg_name_returns_non_empty_string() {
    let name = VideoEncoder::H264.to_ffmpeg_name(TargetPlatform::Windows);
    assert!(!name.is_empty());
}

#[test]
fn video_encoder_h265_to_ffmpeg_name_returns_non_empty_string() {
    let name = VideoEncoder::H265.to_ffmpeg_name(TargetPlatform::Windows);
    assert!(!name.is_empty());
}

#[test]
fn video_encoder_h264_h265_produce_different_ffmpeg_names() {
    let h264 = VideoEncoder::H264.to_ffmpeg_name(TargetPlatform::Windows);
    let h265 = VideoEncoder::H265.to_ffmpeg_name(TargetPlatform::Windows);
    assert_ne!(h264, h265);
}

// ---- VideoEncoder::to_ffmpeg_name_with_hw ----

#[test]
fn video_encoder_nvenc_h264_returns_h264_nvenc() {
    let name = VideoEncoder::H264.to_ffmpeg_name_with_hw(HwAccel::Nvenc, TargetPlatform::Windows);
    assert_eq!(name, "h264_nvenc");
}

#[test]
fn video_encoder_nvenc_h265_returns_hevc_nvenc() {
    let name = VideoEncoder::H265.to_ffmpeg_name_with_hw(HwAccel::Nvenc, TargetPlatform::Windows);
    assert_eq!(name, "hevc_nvenc");
}

#[test]
fn video_encoder_qsv_h264_returns_h264_qsv() {
    let name = VideoEncoder::H264.to_ffmpeg_name_with_hw(HwAccel::Qsv, TargetPlatform::Windows);
    assert_eq!(name, "h264_qsv");
}

#[test]
fn video_encoder_qsv_h265_returns_hevc_qsv() {
    let name = VideoEncoder::H265.to_ffmpeg_name_with_hw(HwAccel::Qsv, TargetPlatform::Windows);
    assert_eq!(name, "hevc_qsv");
}

#[test]
fn video_encoder_amf_h264_returns_h264_amf() {
    let name = VideoEncoder::H264.to_ffmpeg_name_with_hw(HwAccel::Amf, TargetPlatform::Windows);
    assert_eq!(name, "h264_amf");
}

#[test]
fn video_encoder_amf_h265_returns_hevc_amf() {
    let name = VideoEncoder::H265.to_ffmpeg_name_with_hw(HwAccel::Amf, TargetPlatform::Windows);
    assert_eq!(name, "hevc_amf");
}

#[test]
fn video_encoder_software_h264_returns_libx264() {
    let name = VideoEncoder::H264.to_ffmpeg_name_with_hw(HwAccel::Software, TargetPlatform::Windows);
    assert_eq!(name, "libx264");
}

#[test]
fn video_encoder_software_h265_returns_libx265() {
    let name = VideoEncoder::H265.to_ffmpeg_name_with_hw(HwAccel::Software, TargetPlatform::Windows);
    assert_eq!(name, "libx265");
}

// ---- VideoEncoder::to_software_fallback ----

#[test]
fn video_encoder_h264_software_fallback_is_libx264() {
    assert_eq!(VideoEncoder::H264.to_software_fallback(), "libx264");
}

#[test]
fn video_encoder_h265_software_fallback_is_libx265() {
    assert_eq!(VideoEncoder::H265.to_software_fallback(), "libx265");
}

// ---- VideoEncoder::to_extension ----

#[test]
fn video_encoder_h264_extension_is_mp4() {
    assert_eq!(VideoEncoder::H264.to_extension(), "mp4");
}

#[test]
fn video_encoder_h265_extension_is_mp4() {
    assert_eq!(VideoEncoder::H265.to_extension(), "mp4");
}

// ---- HwAccel ----

#[test]
fn hw_accel_default_is_auto() {
    let hw: HwAccel = HwAccel::default();
    assert!(matches!(hw, HwAccel::Auto));
}

// ---- RecordingStatus ----

#[test]
fn recording_status_default_is_idle() {
    let status = RecordingStatus::default();
    assert_eq!(status, RecordingStatus::Idle);
}

#[test]
fn recording_status_equality_same_variants() {
    assert_eq!(RecordingStatus::Recording, RecordingStatus::Recording);
    assert_eq!(RecordingStatus::Error, RecordingStatus::Error);
}

#[test]
fn recording_status_inequality_different_variants() {
    assert_ne!(RecordingStatus::Idle, RecordingStatus::Recording);
    assert_ne!(RecordingStatus::Buffering, RecordingStatus::Processing);
}

#[test]
fn recording_status_serializes_to_lowercase() {
    let idle = serde_json::to_string(RecordingStatus::Idle.as_str()).unwrap();
    assert_eq!(idle, "\"idle\"");

    let recording = serde_json::to_string(RecordingStatus::Recording.as_str()).unwrap();
    assert_eq!(recording, "\"recording\"");
}

#[test]
fn recording_status_deserializes_from_lowercase() {
    let name: String = serde_json::from_str("\"buffering\"").unwrap();
    let status = RecordingStatus::from_name(&name).unwrap();
    assert_eq!(status, RecordingStatus::Buffering);
}

// ---- VideoSettingsConfig ----

#[test]
fn video_settings_config_default_resolution_is_1080p() {
    let config = VideoSettingsConfig::default();
    assert_eq!(config.resolution, (1920, 1080));
}

#[test]
fn video_settings_config_default_fps_is_60() {
    let config = VideoSettingsConfig::default();
    assert_eq!(config.fps, 60);
}

#[test]
fn video_settings_config_default_bitrate_is_15mbps() {
    let config = VideoSettingsConfig::default();
    assert_eq!(config.bitrate, 15_000_000);
}

#[test]
fn video_settings_config_default_encoder_preference_is_auto() {
    let config = VideoSettingsConfig::default();
    assert_eq!(config.encoder_preference, "auto");
}

#[test]
fn video_settings_config_default_use_h265_is_false() {
    let config = VideoSettingsConfig::default();
    assert!(!config.use_h265);
}

// ---- further cases ----

#[test]
fn platform_encoders_follow_the_operating_system() {
    assert_eq!(VideoEncoder::H264.to_ffmpeg_name(TargetPlatform::Windows), "h264_nvenc");
    assert_eq!(VideoEncoder::H265.to_ffmpeg_name(TargetPlatform::MacOs), "hevc_videotoolbox");
    assert_eq!(VideoEncoder::H264.to_ffmpeg_name(TargetPlatform::Linux), "h264_vaapi");
    assert_eq!(VideoEncoder::H265.to_ffmpeg_name(TargetPlatform::Linux), "hevc_vaapi");
    for platform in [TargetPlatform::Windows, TargetPlatform::MacOs, TargetPlatform::Linux] {
        for codec in [VideoEncoder::H264, VideoEncoder::H265] {
            assert_ne!(codec.to_ffmpeg_name(platform), codec.to_software_fallback());
        }
    }
    assert_eq!(
        VideoEncoder::H265.to_ffmpeg_name_with_hw(HwAccel::Auto, TargetPlatform::Windows),
        "hevc_nvenc"
    );
}

#[test]
fn unknown_status_names_are_refused() {
    assert_eq!(RecordingStatus::from_name("Idle"), None);
    assert_eq!(RecordingStatus::from_name("processing"), Some(RecordingStatus::Processing));
    assert_eq!(RecordingStatus::Error.as_str(), "error");
}

#[test]
fn encoder_preferences_map_to_hardware_choices() {
    assert_eq!(hw_accel_from_preference("nvenc"), HwAccel::Nvenc);
    assert_eq!(hw_accel_from_preference("qsv"), HwAccel::Qsv);
    assert_eq!(hw_accel_from_preference("amf"), HwAccel::Amf);
    assert_eq!(hw_accel_from_preference("software"), HwAccel::Software);
    assert_eq!(hw_accel_from_preference("NVENC"), HwAccel::Auto);
    assert_eq!(hw_accel_from_preference("auto"), HwAccel::Auto);
}

#[test]
fn settings_override_only_the_video_part_of_the_default_config() {
    let video = VideoSettingsConfig {
        resolution: (2560, 1440),
        fps: 30,
        bitrate: 8_000_000,
        use_h265: true,
        encoder_preference: "qsv".to_string(),
    };
    let config = recording_config_from_settings("/tmp/rec".to_string(), None, Some(video));
    assert_eq!(config.resolution, (2560, 1440));
    assert_eq!(config.fps, 30);
    assert_eq!(config.bitrate, 8_000_000);
    assert_eq!(config.encoder, VideoEncoder::H265);
    assert_eq!(config.hw_accel, HwAccel::Qsv);
    assert_eq!(config.output_dir, "/tmp/rec");
    assert!(config.audio_config.is_none());
    assert_eq!(config.buffer_duration_secs, 60);
    assert_eq!(config.capture_target.as_deref(), Some(DEFAULT_CAPTURE_TITLE));

    let defaults = recording_config_from_settings("out".to_string(), None, None);
    assert_eq!(defaults.encoder, VideoEncoder::H264);
    assert_eq!(defaults.hw_accel, HwAccel::Auto);
    assert_eq!(defaults.fps, 60);
}
