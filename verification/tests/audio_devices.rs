use lolshorts::audio::{
    classify_dshow_device, get_audio_devices_clone, parse_dshow_audio_devices, AudioConfig, AudioDevice,
    AudioDeviceManager, AudioDeviceType, AudioError,
};

/// A fixed reading of the monotonic clock (ms).
const NOW_MS: u64 = 5_000_000;

#[test]
fn test_audio_config_default() {
    let config = AudioConfig::default();
    assert!(!config.record_microphone);
    assert!(config.record_system_audio);
    assert_eq!(config.sample_rate, 48000);
    assert_eq!(config.bitrate, 192);
}

#[test]
fn test_audio_config_disabled_is_not_enabled() {
    let config = AudioConfig {
        record_microphone: false,
        record_system_audio: false,
        ..Default::default()
    };
    assert!(!config.is_enabled());
}

#[test]
fn test_audio_config_enabled_when_only_microphone() {
    let config = AudioConfig {
        record_microphone: true,
        microphone_volume: 150,
        record_system_audio: false,
        ..Default::default()
    };
    assert!(config.is_enabled());
}

#[test]
fn test_audio_config_enabled_when_only_system_audio() {
    let config = AudioConfig {
        record_microphone: false,
        record_system_audio: true,
        ..Default::default()
    };
    assert!(config.is_enabled());
}

#[test]
fn audio_device_manager_new_is_not_initialized() {
    let manager = AudioDeviceManager::new(NOW_MS);
    assert!(!manager.initialized);
}

#[test]
fn audio_device_manager_never_skips_refresh_before_first_successful_refresh() {
    let manager = AudioDeviceManager::new(NOW_MS);
    assert!(!manager.should_skip_refresh(NOW_MS));
}

#[test]
fn audio_device_manager_skips_refresh_when_initialized_and_within_ttl() {
    let mut manager = AudioDeviceManager::new(NOW_MS);
    manager.initialized = true;
    manager.last_refresh = NOW_MS;
    manager.cache_ttl = 60_000;
    assert!(manager.should_skip_refresh(NOW_MS));
}

#[test]
fn audio_device_manager_does_not_skip_refresh_once_ttl_expires() {
    let mut manager = AudioDeviceManager::new(NOW_MS);
    manager.initialized = true;
    manager.cache_ttl = 1;
    manager.last_refresh = NOW_MS - 1_000;
    assert!(!manager.should_skip_refresh(NOW_MS));
}

// ---- further cases ----

fn device(name: &str, device_type: AudioDeviceType) -> AudioDevice {
    AudioDevice { name: name.to_string(), device_type }
}

#[test]
fn a_refreshed_list_is_reused_until_the_ttl_and_not_after() {
    let mut manager = AudioDeviceManager::new(NOW_MS);
    manager.record_refresh(vec![device("Speakers", AudioDeviceType::SystemAudio)], NOW_MS);
    assert!(manager.should_skip_refresh(NOW_MS + 59_999));
    assert!(!manager.should_skip_refresh(NOW_MS + 60_000));
    assert_eq!(manager.get_devices().len(), 1);
}

#[test]
fn forcing_a_refresh_expires_the_cache_but_keeps_the_list() {
    let mut manager = AudioDeviceManager::new(NOW_MS);
    manager.record_refresh(vec![device("Mic", AudioDeviceType::Microphone)], NOW_MS);
    manager.expire(NOW_MS + 10);
    assert!(!manager.should_skip_refresh(NOW_MS + 10));
    assert_eq!(manager.get_devices()[0].name, "Mic");
}

#[test]
fn a_failed_enumeration_leaves_the_manager_untouched() {
    let mut manager = AudioDeviceManager::new(NOW_MS);
    let r = manager.finish_refresh(Err("ffmpeg missing".to_string()), NOW_MS + 5);
    assert_eq!(r, Err("ffmpeg missing".to_string()));
    assert!(!manager.initialized);
    assert_eq!(manager.last_refresh, NOW_MS);
    let ok = manager.finish_refresh(Ok(vec![device("Line", AudioDeviceType::SystemAudio)]), NOW_MS + 7);
    assert_eq!(ok, Ok(()));
    assert!(manager.initialized);
    assert_eq!(manager.last_refresh, NOW_MS + 7);
}

#[test]
fn a_locked_manager_gives_an_error() {
    assert!(matches!(get_audio_devices_clone(None), Err(AudioError::ManagerLocked)));
    let mut manager = AudioDeviceManager::new(NOW_MS);
    manager.record_refresh(vec![device("A", AudioDeviceType::SystemAudio)], NOW_MS);
    let copy = get_audio_devices_clone(Some(&manager)).unwrap();
    assert_eq!(copy.len(), 1);
    assert_eq!(copy[0].name, "A");
}

#[test]
fn dshow_names_are_classified_case_insensitively() {
    assert_eq!(classify_dshow_device("Microphone (Realtek)"), AudioDeviceType::Microphone);
    assert_eq!(classify_dshow_device("USB MIC"), AudioDeviceType::Microphone);
    assert_eq!(classify_dshow_device("Line INPUT 2"), AudioDeviceType::Microphone);
    assert_eq!(classify_dshow_device("Stereo Mix"), AudioDeviceType::SystemAudio);
}

#[test]
fn dshow_listing_keeps_only_the_audio_section() {
    let listing = "[dshow @ 0x1] DirectShow video devices (some may be both video and audio devices)\r\n\
[dshow @ 0x1]  \"Webcam\"\r\n\
[dshow @ 0x1] DirectShow audio devices\r\n\
[dshow @ 0x1]  \"Microphone (USB)\"\r\n\
[dshow @ 0x1]     Alternative name \"@device_cm_{33D9A762}\"\r\n\
[dshow @ 0x1]  \"Stereo Mix (Realtek)\"\r\n\
[dshow @ 0x1] DirectShow video devices\r\n\
[dshow @ 0x1]  \"Capture card\"\n";
    let devices = parse_dshow_audio_devices(listing);
    let names: Vec<&str> = devices.iter().map(|d| d.name.as_str()).collect();
    // The first video header precedes the audio section and already ends the listing.
    assert!(names.is_empty());

    let audio_first = "DirectShow audio devices\n  \"Microphone (USB)\"\n  Alternative name \"@device_cm_{33D9A762}\"\n  \"Stereo Mix\"\nDirectShow video devices\n  \"Capture card\"\n";
    let devices = parse_dshow_audio_devices(audio_first);
    let names: Vec<&str> = devices.iter().map(|d| d.name.as_str()).collect();
    assert_eq!(names, vec!["Microphone (USB)", "@device_cm_{33D9A762}", "Stereo Mix"]);
    assert_eq!(devices[0].device_type, AudioDeviceType::Microphone);
    assert_eq!(devices[2].device_type, AudioDeviceType::SystemAudio);
}

#[test]
fn the_cache_info_counts_whole_seconds() {
    let mut manager = AudioDeviceManager::new(NOW_MS);
    manager.record_refresh(vec![device("A", AudioDeviceType::SystemAudio)], NOW_MS);
    let info = manager.cache_info(NOW_MS + 59_999);
    assert_eq!((info.cache_age_secs, info.cache_ttl_secs, info.cache_valid, info.total_devices), (59, 60, true, 1));
    assert!(!manager.cache_info(NOW_MS + 60_000).cache_valid);
}
