//! Audio capture settings and the cached list of capture devices.
//!
//! Devices are enumerated outside the library (FFmpeg/DirectShow); the manager
//! here decides when the cached list may be reused and keeps it.
use vstd::prelude::*;

use crate::text::{contains_seq, lines, lines_of, lowercase, quoted_part, quoted_value, str_contains, to_lowercase};

verus! {

/// Default sample rate of captured audio (Hz).
pub const DEFAULT_SAMPLE_RATE: u32 = 48000;
/// Default audio bitrate (kbps).
pub const DEFAULT_AUDIO_BITRATE_KBPS: u32 = 192;
/// How long an enumerated device list stays fresh (ms).
pub const DEVICE_CACHE_TTL_MS: u64 = 60_000;

/// Kind of an audio capture device.
#[derive(Clone, Copy, Debug, PartialEq, Eq, Structural)]
pub enum AudioDeviceType {
    Microphone,
    SystemAudio,
}

/// An audio capture device.
#[derive(Clone, Debug)]
pub struct AudioDevice {
    pub name: String,
    pub device_type: AudioDeviceType,
}

impl AudioDevice {
    /// A copy of this device.
    pub fn duplicate(&self) -> (r: Self)
        ensures
            r == *self,
    {
        AudioDevice { name: self.name.clone(), device_type: self.device_type }
    }
}

/// Audio capture configuration.
#[derive(Clone, Debug)]
pub struct AudioConfig {
    /// Record the microphone.
    pub record_microphone: bool,
    /// Microphone device name (None: the default device).
    pub microphone_device: Option<String>,
    /// Microphone volume (0-200 %).
    pub microphone_volume: u8,
    /// Record the system audio.
    pub record_system_audio: bool,
    /// System audio device name (None: the default device).
    pub system_audio_device: Option<String>,
    /// System audio volume (0-200 %).
    pub system_audio_volume: u8,
    /// Sample rate (Hz).
    pub sample_rate: u32,
    /// Bitrate (kbps).
    pub bitrate: u32,
    /// Explicit loopback device id; takes priority over `system_audio_device`.
    pub audio_device_id: Option<String>,
}

/// The default audio configuration: system audio on, microphone off.
pub open spec fn default_audio_config() -> AudioConfig {
    AudioConfig {
        record_microphone: false,
        microphone_device: None,
        microphone_volume: 120,
        record_system_audio: true,
        system_audio_device: None,
        system_audio_volume: 100,
        sample_rate: DEFAULT_SAMPLE_RATE,
        bitrate: DEFAULT_AUDIO_BITRATE_KBPS,
        audio_device_id: None,
    }
}

impl Default for AudioConfig {
    fn default() -> (c: Self)
        ensures
            c == default_audio_config(),
    {
        AudioConfig {
            record_microphone: false,
            microphone_device: None,
            microphone_volume: 120,
            record_system_audio: true,
            system_audio_device: None,
            system_audio_volume: 100,
            sample_rate: DEFAULT_SAMPLE_RATE,
            bitrate: DEFAULT_AUDIO_BITRATE_KBPS,
            audio_device_id: None,
        }
    }
}

impl AudioConfig {
    /// Whether any audio is captured.
    pub fn is_enabled(&self) -> (r: bool)
        ensures
            r == (self.record_microphone || self.record_system_audio),
    {
        self.record_microphone || self.record_system_audio
    }
}

/// The cached list of audio devices.
pub struct AudioDeviceManager {
    /// The cached devices.
    pub devices: Vec<AudioDevice>,
    /// When the list was last refreshed (ms on a monotonic clock).
    pub last_refresh: u64,
    /// How long the list stays fresh (ms).
    pub cache_ttl: u64,
    /// True once one enumeration has succeeded.
    pub initialized: bool,
}

/// Time passed since `since` on a monotonic clock read at `now` (zero if `now` is earlier).
pub open spec fn elapsed_ms(since: u64, now: u64) -> int {
    if now >= since {
        now - since
    } else {
        0
    }
}

impl AudioDeviceManager {
    pub open spec fn spec_devices(&self) -> Seq<AudioDevice> {
        self.devices@
    }

    /// An empty manager that has never enumerated devices.
    pub fn new(now_ms: u64) -> (m: Self)
        ensures
            m.spec_devices() == Seq::<AudioDevice>::empty(),
            m.last_refresh == now_ms,
            m.cache_ttl == DEVICE_CACHE_TTL_MS,
            !m.initialized,
    {
        AudioDeviceManager {
            devices: Vec::new(),
            last_refresh: now_ms,
            cache_ttl: DEVICE_CACHE_TTL_MS,
            initialized: false,
        }
    }

    /// The cached devices.
    pub fn get_devices(&self) -> (d: &[AudioDevice])
        ensures
            d@ == self.spec_devices(),
    {
        self.devices.as_slice()
    }

    /// Whether the cached list may be reused: it was filled once and is younger than the TTL.
    pub fn should_skip_refresh(&self, now_ms: u64) -> (r: bool)
        ensures
            r == (self.initialized && elapsed_ms(self.last_refresh, now_ms) < self.cache_ttl),
    {
        let elapsed = if now_ms >= self.last_refresh {
            now_ms - self.last_refresh
        } else {
            0
        };
        self.initialized && elapsed < self.cache_ttl
    }

    /// Stores a freshly enumerated list.
    pub fn record_refresh(&mut self, devices: Vec<AudioDevice>, now_ms: u64)
        ensures
            final(self).spec_devices() == devices@,
            final(self).last_refresh == now_ms,
            final(self).initialized,
            final(self).cache_ttl == old(self).cache_ttl,
    {
        self.devices = devices;
        self.last_refresh = now_ms;
        self.initialized = true;
    }

    /// Makes the cached list stale, so that the next refresh enumerates again.
    pub fn expire(&mut self, now_ms: u64)
        requires
            old(self).cache_ttl <= now_ms,
        ensures
            final(self).last_refresh == now_ms - old(self).cache_ttl,
            final(self).spec_devices() == old(self).spec_devices(),
            final(self).cache_ttl == old(self).cache_ttl,
            final(self).initialized == old(self).initialized,
            !final(self).should_skip_refresh_spec(now_ms),
    {
        self.last_refresh = now_ms - self.cache_ttl;
    }

    pub open spec fn should_skip_refresh_spec(&self, now_ms: u64) -> bool {
        self.initialized && elapsed_ms(self.last_refresh, now_ms) < self.cache_ttl
    }

    /// A copy of the cached devices.
    pub fn devices_clone(&self) -> (v: Vec<AudioDevice>)
        ensures
            v@ == self.spec_devices(),
    {
        let mut v: Vec<AudioDevice> = Vec::new();
        let mut i: usize = 0;
        while i < self.devices.len()
            invariant
                i <= self.devices@.len(),
                v@ == self.devices@.take(i as int),
            decreases self.devices@.len() - i,
        {
            v.push(self.devices[i].duplicate());
            proof {
                assert(self.devices@.take(i + 1) =~= self.devices@.take(i as int).push(self.devices@[i as int]));
            }
            i = i + 1;
        }
        proof {
            assert(self.devices@.take(self.devices@.len() as int) =~= self.devices@);
        }
        v
    }
}

/// What the settings page shows of the device cache: its age and lifetime in
/// whole seconds, whether it is still valid by that count, and how many devices it
/// holds.
#[derive(Clone, Copy, Debug, PartialEq, Eq, Structural)]
pub struct DeviceCacheInfo {
    pub cache_age_secs: u64,
    pub cache_ttl_secs: u64,
    pub cache_valid: bool,
    pub total_devices: usize,
}

impl AudioDeviceManager {
    /// The cache's age and lifetime at `now_ms`, compared in whole seconds.
    pub fn cache_info(&self, now_ms: u64) -> (i: DeviceCacheInfo)
        ensures
            i.cache_age_secs == elapsed_ms(self.last_refresh, now_ms) / 1000,
            i.cache_ttl_secs == self.cache_ttl / 1000,
            i.cache_valid == (i.cache_age_secs < i.cache_ttl_secs),
            i.total_devices == self.spec_devices().len(),
    {
        let elapsed = if now_ms >= self.last_refresh {
            now_ms - self.last_refresh
        } else {
            0
        };
        let age = elapsed / 1000;
        let ttl = self.cache_ttl / 1000;
        DeviceCacheInfo { cache_age_secs: age, cache_ttl_secs: ttl, cache_valid: age < ttl, total_devices: self.devices.len() }
    }
}

/// Why the device list could not be read.
#[derive(Clone, Copy, Debug, PartialEq, Eq, Structural)]
pub enum AudioError {
    /// The shared manager was held by another task.
    ManagerLocked,
}

impl AudioError {
    /// The message shown to the user.
    pub fn message(&self) -> (s: &'static str)
        ensures
            s@ == "Audio device manager is locked"@,
    {
        "Audio device manager is locked"
    }
}

/// A copy of the cached devices of the shared manager; `None` stands for a manager
/// that another task holds.
pub fn get_audio_devices_clone(manager: Option<&AudioDeviceManager>) -> (r: Result<Vec<AudioDevice>, AudioError>)
    ensures
        match manager {
            Some(m) => r matches Ok(v) && v@ == m.spec_devices(),
            None => r == Err::<Vec<AudioDevice>, AudioError>(AudioError::ManagerLocked),
        },
{
    match manager {
        Some(m) => Ok(m.devices_clone()),
        None => Err(AudioError::ManagerLocked),
    }
}

/// A fresh manager is never reused: the first call always enumerates.
pub proof fn a_new_manager_always_refreshes(m: AudioDeviceManager, now: u64)
    requires
        !m.initialized,
    ensures
        !m.should_skip_refresh_spec(now),
{
}

/// Right after a successful refresh the list is reused until the TTL runs out, and
/// not after.
pub proof fn a_refreshed_list_is_reused_until_it_expires(m: AudioDeviceManager, at: u64, later: u64)
    requires
        m.initialized,
        m.last_refresh == at,
        at <= later,
    ensures
        m.should_skip_refresh_spec(later) <==> later - at < m.cache_ttl,
{
}

impl AudioDeviceManager {
    /// Takes the outcome of an enumeration started because the list was stale:
    /// a list is stored as fresh; a failure leaves the manager as it was, so that
    /// the next call enumerates again, and is handed back.
    pub fn finish_refresh(&mut self, outcome: Result<Vec<AudioDevice>, String>, now_ms: u64) -> (r: Result<(), String>)
        ensures
            match outcome {
                Ok(devices) => {
                    &&& r is Ok
                    &&& final(self).spec_devices() == devices@
                    &&& final(self).last_refresh == now_ms
                    &&& final(self).initialized
                    &&& final(self).cache_ttl == old(self).cache_ttl
                },
                Err(e) => r == Err::<(), String>(e) && *final(self) == *old(self),
            },
    {
        match outcome {
            Ok(devices) => {
                self.record_refresh(devices, now_ms);
                Ok(())
            },
            Err(e) => Err(e),
        }
    }
}

/// The kind of a DirectShow device, guessed from its name.
pub open spec fn dshow_device_type(name: Seq<char>) -> AudioDeviceType {
    let l = lowercase(name);
    if contains_seq(l, "mic"@) || contains_seq(l, "microphone"@) || contains_seq(l, "input"@) {
        AudioDeviceType::Microphone
    } else {
        AudioDeviceType::SystemAudio
    }
}

/// The audio devices that FFmpeg's DirectShow listing names, from the given lines
/// on: a device is the quoted name on a line of the audio section; the section
/// starts after the audio header and the listing ends at the video header.
pub open spec fn dshow_devices(ls: Seq<Seq<char>>, in_audio: bool) -> Seq<(Seq<char>, AudioDeviceType)>
    decreases ls.len(),
{
    if ls.len() == 0 {
        Seq::empty()
    } else {
        let l = ls[0];
        let rest = ls.drop_first();
        if contains_seq(l, "DirectShow audio devices"@) {
            dshow_devices(rest, true)
        } else if contains_seq(l, "DirectShow video devices"@) {
            Seq::empty()
        } else if in_audio && quoted_part(l) is Some {
            let name = quoted_part(l)->0;
            seq![(name, dshow_device_type(name))] + dshow_devices(rest, in_audio)
        } else {
            dshow_devices(rest, in_audio)
        }
    }
}

pub open spec fn device_view(d: AudioDevice) -> (Seq<char>, AudioDeviceType) {
    (d.name@, d.device_type)
}

/// Guesses a DirectShow device's kind from its name.
pub fn classify_dshow_device(name: &str) -> (t: AudioDeviceType)
    ensures
        t == dshow_device_type(name@),
{
    let lower = to_lowercase(name);
    if str_contains(lower.as_str(), "mic") || str_contains(lower.as_str(), "microphone") || str_contains(
        lower.as_str(),
        "input",
    ) {
        AudioDeviceType::Microphone
    } else {
        AudioDeviceType::SystemAudio
    }
}

/// The audio devices of FFmpeg's DirectShow device listing (its standard error).
pub fn parse_dshow_audio_devices(listing: &str) -> (devices: Vec<AudioDevice>)
    ensures
        devices@.map_values(|d: AudioDevice| device_view(d)) == dshow_devices(lines_of(listing@), false),
{
    let ls = lines(listing);
    let ghost lv = lines_of(listing@);
    let mut devices: Vec<AudioDevice> = Vec::new();
    let mut in_audio = false;
    let mut i: usize = 0;
    proof {
        assert(ls@.map_values(|l: String| l@) == lv);
        assert(lv.skip(0) =~= lv);
    }
    while i < ls.len()
        invariant
            i <= ls@.len(),
            lv == lines_of(listing@),
            ls@.map_values(|l: String| l@) == lv,
            dshow_devices(lv, false) == devices@.map_values(|d: AudioDevice| device_view(d)) + dshow_devices(
                lv.skip(i as int),
                in_audio,
            ),
        decreases ls@.len() - i,
    {
        let line = ls[i].as_str();
        let ghost before = devices@.map_values(|d: AudioDevice| device_view(d));
        proof {
            assert(lv.skip(i as int)[0] == lv[i as int]);
            assert(lv[i as int] == ls@[i as int]@);
            assert(lv.skip(i as int).drop_first() =~= lv.skip(i + 1));
        }
        if str_contains(line, "DirectShow audio devices") {
            in_audio = true;
        } else if str_contains(line, "DirectShow video devices") {
            proof {
                assert(dshow_devices(lv.skip(i as int), in_audio) == Seq::<(Seq<char>, AudioDeviceType)>::empty());
                assert(before + dshow_devices(lv.skip(i as int), in_audio) =~= before);

            }
            return devices;
        } else if in_audio {
            match quoted_value(line) {
                Some(name) => {
                    let device_type = classify_dshow_device(name.as_str());
                    let ghost nv = name@;
                    devices.push(AudioDevice { name, device_type });
                    proof {
                        let after = devices@.map_values(|d: AudioDevice| device_view(d));
                        assert(after =~= before.push((nv, dshow_device_type(nv))));
                        assert(after + dshow_devices(lv.skip(i + 1), in_audio) =~= before + (seq![
                            (nv, dshow_device_type(nv)),
                        ] + dshow_devices(lv.skip(i + 1), in_audio)));
                    }
                },
                None => {},
            }
        }
        i = i + 1;
    }
    proof {
        let done = devices@.map_values(|d: AudioDevice| device_view(d));
        assert(lv.skip(i as int).len() == 0);
        assert(done + dshow_devices(lv.skip(i as int), in_audio) =~= done);
    }
    devices
}

} // verus!
