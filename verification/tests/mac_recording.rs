use lolshorts::mac::{mac_command_args, AudioParameters, MacVideoArgs};
use lolshorts::mac::{
    begin_start, begin_stop, create_encoder_info, is_macos_encoder, optimize_ffmpeg_params, parse_macos_encoders,
    recording_use_case, select_encoder, FFmpegUseCase, MacFFmpegConfig, MacFFmpegEncoder, MacRecordingConfig,
    MacRecordingError, MacRecordingStatus,
};
use lolshorts::mac_audio::{
    detect_device_type, device_from_profiler_entry, devices_from_profiler, extract_avfoundation_device_name,
    generate_device_id, get_fallback_devices, mac_device_type, merge_device_sources, parse_ffmpeg_devices,
    parse_ireg_output, CoreAudioDeviceType, CoreAudioManager, MacAudioDevice, MacAudioDeviceType, MacAudioManager,
    ProfilerEntry,
};

#[test]
fn test_encoder_creation() {
    let encoder = create_encoder_info("h264_videotoolbox", "H.264 VideoToolbox encoder");
    assert_eq!(encoder.encoder, "h264_videotoolbox");
    assert!(encoder.is_hardware);
    assert_eq!(encoder.pixel_format, "nv12");
}

#[test]
fn test_optimization_for_use_cases() {
    let encoder = MacFFmpegEncoder {
        name: "VideoToolbox".to_string(),
        encoder: "h264_videotoolbox".to_string(),
        pixel_format: "nv12".to_string(),
        preset: Some("medium".to_string()),
        tune: None,
        profile: Some("high".to_string()),
        level: Some("4.0".to_string()),
        is_hardware: true,
        supports_b_frames: true,
    };

    let realtime_config = optimize_ffmpeg_params(&encoder, FFmpegUseCase::RealTimeRecording);
    assert_eq!(realtime_config.video_encoder.preset, Some("veryfast".to_string()));

    let high_quality_config = optimize_ffmpeg_params(&encoder, FFmpegUseCase::HighQualityEncoding);
    assert_eq!(high_quality_config.video_encoder.preset, Some("slow".to_string()));
}

#[test]
fn test_mac_recording_config_default() {
    let config = MacRecordingConfig::default();
    assert_eq!(config.fps, 60);
    assert_eq!(config.bitrate, 15_000_000);
    assert_eq!(config.resolution, (1920, 1080));
    assert_eq!(config.display_id, 0);
    assert!(config.use_hardware_encoding);
}

#[test]
fn test_mac_recording_status_transitions() {
    let status = MacRecordingStatus::default();
    assert_eq!(status, MacRecordingStatus::Idle);
    assert_ne!(status, MacRecordingStatus::Capturing);
    assert_ne!(status, MacRecordingStatus::Error);
}

#[test]
fn test_audio_manager_initialization() {
    let manager = MacAudioManager::new();
    assert_eq!(manager.get_devices().len(), 0);
}

#[test]
fn test_device_type_detection() {
    assert!(matches!(detect_device_type("Bluetooth", "AirPods Pro"), CoreAudioDeviceType::Bluetooth));
    assert!(matches!(detect_device_type("USB", "USB Audio Device"), CoreAudioDeviceType::USB));
}

#[test]
fn test_device_id_generation() {
    let id1 = generate_device_id("Test Device");
    let id2 = generate_device_id("Test Device");
    let id3 = generate_device_id("Different Device");
    assert_eq!(id1, id2);
    assert_ne!(id1, id3);
}

#[test]
fn test_fallback_devices() {
    let devices = get_fallback_devices();
    assert!(!devices.is_empty());
    assert!(devices.iter().any(|d| d.name.contains("Built-in")));
    assert!(devices.iter().any(|d| d.is_input));
    assert!(devices.iter().any(|d| d.is_output));
}

// ---- further cases ----

#[test]
fn only_one_mac_capture_runs_at_a_time() {
    assert_eq!(begin_start(MacRecordingStatus::Idle), Ok(MacRecordingStatus::Preparing));
    assert_eq!(begin_start(MacRecordingStatus::Capturing), Err(MacRecordingError::AlreadyRecording));
    assert_eq!(begin_stop(MacRecordingStatus::Capturing), Ok(MacRecordingStatus::Encoding));
    assert_eq!(begin_stop(MacRecordingStatus::Idle), Err(MacRecordingError::NotRecording));
}

#[test]
fn the_encoder_list_keeps_apple_encoders_and_adds_software_ones() {
    let listing = " V....D h264_videotoolbox    VideoToolbox H.264 Encoder (codec h264)\n\
 V....D libx264              libx264 H.264 / AVC (codec h264)\n\
 ------\n\
 A....D aac_at               aac (AudioToolbox) (codec aac)\n\
 V....D hevc_videotoolbox    VideoToolbox H.265 Encoder (codec hevc)\n";
    let encoders = parse_macos_encoders(listing);
    let names: Vec<&str> = encoders.iter().map(|e| e.encoder.as_str()).collect();
    assert_eq!(names, vec!["h264_videotoolbox", "hevc_videotoolbox", "libx264", "libx265"]);
    assert!(encoders[0].is_hardware);
    assert_eq!(encoders[1].profile.as_deref(), Some("main"));
    assert_eq!(encoders[1].tune, None);
    assert_eq!(encoders[0].tune.as_deref(), Some("zerolatency"));
    assert_eq!(select_encoder(&encoders), Some(0));
    assert!(is_macos_encoder("aac_at", "AAC (Apple AudioToolbox)"));
    assert!(!is_macos_encoder("libopus", "libopus Opus"));
}

#[test]
fn software_only_lists_pick_the_first_encoder() {
    let encoders = parse_macos_encoders("");
    assert_eq!(encoders.len(), 2);
    assert_eq!(select_encoder(&encoders), Some(0));
    assert_eq!(select_encoder(&Vec::new()), None);
    assert_eq!(recording_use_case(true), FFmpegUseCase::RealTimeRecording);
    assert_eq!(recording_use_case(false), FFmpegUseCase::HighQualityEncoding);
}

#[test]
fn use_cases_add_their_own_arguments() {
    let encoder = create_encoder_info("libx264", "libx264 H.264");
    let realtime = optimize_ffmpeg_params(&encoder, FFmpegUseCase::RealTimeRecording);
    assert_eq!(realtime.additional_args, vec!["-threads", "0", "-async", "1", "-async", "1"]);
    let streaming = optimize_ffmpeg_params(&encoder, FFmpegUseCase::LowLatencyStreaming);
    assert_eq!(streaming.video_encoder.preset.as_deref(), Some("ultrafast"));
    assert_eq!(streaming.video_encoder.tune.as_deref(), Some("zerolatency"));
    let defaults = MacFFmpegConfig::default();
    assert_eq!(defaults.video_encoder.encoder, "h264_videotoolbox");
    assert_eq!(defaults.mov_flags, vec!["+faststart", "use_metadata_tags"]);
}

fn mac_device(id: u32, name: &str, device_type: MacAudioDeviceType, input: bool, output: bool) -> MacAudioDevice {
    MacAudioDevice {
        id,
        name: name.to_string(),
        device_type,
        is_input: input,
        is_output: output,
        channels: 2,
        sample_rate_hz: 48_000,
    }
}

#[test]
fn mac_device_kinds_come_from_transport_then_name() {
    assert_eq!(mac_device_type("USB", "External Microphone"), MacAudioDeviceType::USB);
    assert_eq!(mac_device_type("Bluetooth", "AirPods Pro"), MacAudioDeviceType::Bluetooth);
    assert_eq!(mac_device_type("Internal", "Unknown Device"), MacAudioDeviceType::Unknown);
    assert_eq!(mac_device_type("Internal", "MacBook Pro Microphone"), MacAudioDeviceType::Microphone);
    assert_eq!(mac_device_type("", "Studio Headphones"), MacAudioDeviceType::Headphones);
    assert_eq!(mac_device_type("", "LINE IN"), MacAudioDeviceType::LineIn);
}

#[test]
fn the_mac_manager_filters_and_finds_devices() {
    let mut manager = MacAudioManager::new();
    manager.set_devices(vec![
        mac_device(1, "Built-in Microphone", MacAudioDeviceType::Microphone, true, false),
        mac_device(2, "Speakers", MacAudioDeviceType::Speaker, false, true),
        mac_device(3, "Headphones", MacAudioDeviceType::Headphones, false, true),
        mac_device(4, "Mic without input", MacAudioDeviceType::Microphone, false, false),
    ]);
    let mics: Vec<u32> = manager.get_microphones().iter().map(|d| d.id).collect();
    assert_eq!(mics, vec![1]);
    let speakers: Vec<u32> = manager.get_speakers().iter().map(|d| d.id).collect();
    assert_eq!(speakers, vec![2, 3]);
    assert_eq!(manager.find_device_by_id(3).map(|d| d.id), Some(3));
    assert!(manager.find_device_by_id(9).is_none());
    assert_eq!(manager.find_device_by_name("SPEAK").map(|d| d.id), Some(2));
    assert_eq!(manager.find_device_by_name("mic").map(|d| d.id), Some(1));
}

#[test]
fn ioreg_listings_become_devices() {
    let listing = "+-o IOAudioDevice  <class IOAudioDevice>\n\
    \"IOAudioDeviceName\" = \"Built-in\"\n\
    \"IOAudioEngineOutputChannelCount\" = 2\n\
+-o IOAudioDevice  <class IOAudioDevice>\n\
    \"IOAudioEngineInputChannelCount\" = 1\n";
    let devices = parse_ireg_output(listing);
    assert_eq!(devices.len(), 1);
    // The first quoted text of the name line is the key itself.
    assert_eq!(devices[0].name, "IOAudioDeviceName");
    assert!(devices[0].is_output);
    assert!(!devices[0].is_input);
    assert_eq!(devices[0].uid, format!("ireg_{}", devices[0].id));
    assert_eq!(devices[0].device_type, CoreAudioDeviceType::Unknown);
}

#[test]
fn ffmpeg_avfoundation_listings_become_input_devices() {
    assert_eq!(
        extract_avfoundation_device_name("[AVFoundation input device @ 0x7f8b] [0] Built-in Microphone "),
        Some("[0] Built-in Microphone".to_string())
    );
    assert_eq!(extract_avfoundation_device_name("no brackets"), None);
    let listing = "[AVFoundation input device] [0] Built-in Microphone\n\
[AVFoundation indev @ 0x1] [1] USB Mic\n\
[AVFoundation input device] [2] usb headset\n";
    let devices = parse_ffmpeg_devices(listing);
    let names: Vec<&str> = devices.iter().map(|d| d.name.as_str()).collect();
    assert_eq!(names, vec!["[0] Built-in Microphone", "[2] usb headset"]);
    assert_eq!(devices[0].device_type, CoreAudioDeviceType::BuiltIn);
    assert_eq!(devices[1].device_type, CoreAudioDeviceType::USB);
    assert!(devices.iter().all(|d| d.is_input && !d.is_output && d.uid.starts_with("ffmpeg_")));
}

#[test]
fn profiler_entries_need_a_name() {
    let named = ProfilerEntry {
        name: Some("Thunderbolt Display Audio".to_string()),
        transport: Some("Thunderbolt".to_string()),
        channel_count: Some(6),
        sample_rate_hz: None,
        inputs: Some(0),
        outputs: Some(2),
    };
    let device = device_from_profiler_entry(&named).unwrap();
    assert_eq!(device.device_type, CoreAudioDeviceType::Thunderbolt);
    assert_eq!(device.channels, 6);
    assert_eq!(device.sample_rate_hz, 44_100);
    assert!(!device.is_input && device.is_output);
    assert_eq!(device.uid, format!("coreaudio_{}", device.id));
    let unnamed = ProfilerEntry {
        name: None,
        transport: None,
        channel_count: None,
        sample_rate_hz: None,
        inputs: None,
        outputs: None,
    };
    assert!(device_from_profiler_entry(&unnamed).is_none());
    let devices = devices_from_profiler(&vec![unnamed, named]);
    assert_eq!(devices.len(), 1);
    assert_eq!(devices[0].name, "Thunderbolt Display Audio");
}

#[test]
fn enumeration_falls_back_only_when_nothing_was_found() {
    let fallback = merge_device_sources(None, Some(Vec::new()), None);
    assert_eq!(fallback.len(), 3);
    assert_eq!(fallback[0].uid, "builtin_mic");
    let found = merge_device_sources(None, None, Some(parse_ffmpeg_devices("[AVFoundation input device] [0] Mic\n")));
    assert_eq!(found.len(), 1);
    let mut manager = CoreAudioManager::new();
    manager.set_devices(get_fallback_devices());
    assert_eq!(manager.get_input_devices().len(), 2);
    assert_eq!(manager.get_output_devices().len(), 2);
    assert_eq!(manager.get_devices_by_type(CoreAudioDeviceType::Virtual).len(), 1);
    assert_eq!(manager.find_device_by_id(2).map(|d| d.name.as_str()), Some("Built-in Output"));
}

#[test]
fn the_mac_command_lists_its_parts_in_order() {
    let config = optimize_ffmpeg_params(&create_encoder_info("h264_videotoolbox", "H.264"), FFmpegUseCase::RealTimeRecording);
    let video = MacVideoArgs { width: 1920, height: 1080, bitrate: 10_000_000, gop_size: 30, max_b_frames: 0 };
    let audio = AudioParameters { sample_rate: 44_100, channels: 2, bitrate: 128_000, enabled: true };
    let inputs = vec!["1:0".to_string(), "1:0:0".to_string()];
    let args = mac_command_args(&config, &inputs, &video, "60", "15", "20", &audio, "/tmp/out.mp4");
    let line = args.join(" ");
    assert!(line.starts_with("-y -f avfoundation -framerate 60 -video_size 1920x1080 -pixel_format nv12 -i 1:0 -i 1:0:0 -map 0:v:0 -map 1:a? -c:v h264_videotoolbox -preset veryfast -tune zerolatency"));
    assert!(line.contains("-b:v 10M -maxrate 15M -bufsize 20M -g 30 -bf 0 -c:a aac -b:a 128k -ar 44100 -ac 2 -f mp4 -movflags +faststart -movflags use_metadata_tags"));
    assert!(line.ends_with("-threads 0 -async 1 -async 1 /tmp/out.mp4"));
    let quiet = AudioParameters { enabled: false, ..audio };
    let line = mac_command_args(&config, &inputs[..1].to_vec(), &video, "30", "15", "20", &quiet, "o.mp4").join(" ");
    assert!(line.contains("-i 1:0 -map 0:v:0 -c:v"));
    assert!(!line.contains("-c:a"));
}
