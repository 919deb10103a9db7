//! Encoder choices, recording configuration and recorder status.
use vstd::prelude::*;

use crate::audio::{default_audio_config, AudioConfig};
use crate::text::{str_eq, string_of};

verus! {

/// Window title used to capture the game when no window handle is known.
pub const DEFAULT_CAPTURE_TITLE: &'static str = "League of Legends (TM) Client";
/// Default frame rate.
pub const DEFAULT_FPS: u32 = 60;
/// Default video bitrate (bit/s).
pub const DEFAULT_BITRATE: u32 = 15_000_000;
/// Default width of the capture.
pub const DEFAULT_WIDTH: u32 = 1920;
/// Default height of the capture.
pub const DEFAULT_HEIGHT: u32 = 1080;
/// Default length of the replay buffer (s).
pub const DEFAULT_BUFFER_SECS: u64 = 60;
/// Default length of one recorded segment (s).
pub const DEFAULT_SEGMENT_SECS: u64 = 10;

/// The operating system the recorder runs on.
#[derive(Clone, Copy, Debug, PartialEq, Eq, Structural)]
pub enum TargetPlatform {
    Windows,
    MacOs,
    Linux,
}

/// Video codec of a recording.
#[derive(Clone, Copy, Debug, PartialEq, Eq, Structural)]
pub enum VideoEncoder {
    H264,
    H265,
}

/// Hardware acceleration choice.
#[derive(Clone, Copy, Debug, PartialEq, Eq, Structural)]
pub enum HwAccel {
    Auto,
    Nvenc,
    Qsv,
    Amf,
    Software,
}

impl Default for HwAccel {
    fn default() -> (h: Self)
        ensures
            h == HwAccel::Auto,
    {
        HwAccel::Auto
    }
}

/// The platform's preferred (hardware) FFmpeg encoder for a codec.
pub open spec fn platform_encoder_name(e: VideoEncoder, p: TargetPlatform) -> Seq<char> {
    match (p, e) {
        (TargetPlatform::Windows, VideoEncoder::H264) => "h264_nvenc"@,
        (TargetPlatform::Windows, VideoEncoder::H265) => "hevc_nvenc"@,
        (TargetPlatform::MacOs, VideoEncoder::H264) => "h264_videotoolbox"@,
        (TargetPlatform::MacOs, VideoEncoder::H265) => "hevc_videotoolbox"@,
        (TargetPlatform::Linux, VideoEncoder::H264) => "h264_vaapi"@,
        (TargetPlatform::Linux, VideoEncoder::H265) => "hevc_vaapi"@,
    }
}

/// The software encoder for a codec.
pub open spec fn software_encoder_name(e: VideoEncoder) -> Seq<char> {
    match e {
        VideoEncoder::H264 => "libx264"@,
        VideoEncoder::H265 => "libx265"@,
    }
}

/// The FFmpeg encoder for a codec under a hardware acceleration choice.
pub open spec fn hw_encoder_name(e: VideoEncoder, hw: HwAccel, p: TargetPlatform) -> Seq<char> {
    match hw {
        HwAccel::Nvenc => match e {
            VideoEncoder::H264 => "h264_nvenc"@,
            VideoEncoder::H265 => "hevc_nvenc"@,
        },
        HwAccel::Qsv => match e {
            VideoEncoder::H264 => "h264_qsv"@,
            VideoEncoder::H265 => "hevc_qsv"@,
        },
        HwAccel::Amf => match e {
            VideoEncoder::H264 => "h264_amf"@,
            VideoEncoder::H265 => "hevc_amf"@,
        },
        HwAccel::Software => software_encoder_name(e),
        HwAccel::Auto => platform_encoder_name(e, p),
    }
}

impl VideoEncoder {
    /// The platform's hardware-accelerated FFmpeg encoder: NVENC on Windows,
    /// VideoToolbox on macOS, VA-API on Linux.
    pub fn to_ffmpeg_name(&self, platform: TargetPlatform) -> (r: &'static str)
        ensures
            r@ == platform_encoder_name(*self, platform),
    {
        match platform {
            TargetPlatform::Windows => match self {
                VideoEncoder::H264 => "h264_nvenc",
                VideoEncoder::H265 => "hevc_nvenc",
            },
            TargetPlatform::MacOs => match self {
                VideoEncoder::H264 => "h264_videotoolbox",
                VideoEncoder::H265 => "hevc_videotoolbox",
            },
            TargetPlatform::Linux => match self {
                VideoEncoder::H264 => "h264_vaapi",
                VideoEncoder::H265 => "hevc_vaapi",
            },
        }
    }

    /// The FFmpeg encoder name under the given hardware acceleration.
    pub fn to_ffmpeg_name_with_hw(&self, hw: HwAccel, platform: TargetPlatform) -> (r: &'static str)
        ensures
            r@ == hw_encoder_name(*self, hw, platform),
    {
        match hw {
            HwAccel::Nvenc => match self {
                VideoEncoder::H264 => "h264_nvenc",
                VideoEncoder::H265 => "hevc_nvenc",
            },
            HwAccel::Qsv => match self {
                VideoEncoder::H264 => "h264_qsv",
                VideoEncoder::H265 => "hevc_qsv",
            },
            HwAccel::Amf => match self {
                VideoEncoder::H264 => "h264_amf",
                VideoEncoder::H265 => "hevc_amf",
            },
            HwAccel::Software => self.to_software_fallback(),
            HwAccel::Auto => self.to_ffmpeg_name(platform),
        }
    }

    /// The software encoder, for compatibility.
    pub fn to_software_fallback(&self) -> (r: &'static str)
        ensures
            r@ == software_encoder_name(*self),
    {
        match self {
            VideoEncoder::H264 => "libx264",
            VideoEncoder::H265 => "libx265",
        }
    }

    /// The container file extension.
    pub fn to_extension(&self) -> (r: &'static str)
        ensures
            r@ == "mp4"@,
    {
        "mp4"
    }
}

/// The two codecs never share an encoder on a platform, and the platform's
/// encoder is always a hardware one, never the software fallback.
pub proof fn codecs_have_distinct_encoders(p: TargetPlatform)
    ensures
        platform_encoder_name(VideoEncoder::H264, p) != platform_encoder_name(VideoEncoder::H265, p),
        platform_encoder_name(VideoEncoder::H264, p) != software_encoder_name(VideoEncoder::H264),
        platform_encoder_name(VideoEncoder::H265, p) != software_encoder_name(VideoEncoder::H265),
{
    reveal_strlit("h264_vaapi");
    reveal_strlit("hevc_vaapi");
    reveal_strlit("h264_nvenc");
    reveal_strlit("hevc_nvenc");
    reveal_strlit("h264_videotoolbox");
    reveal_strlit("hevc_videotoolbox");
    reveal_strlit("libx264");
    reveal_strlit("libx265");
    assert("h264_nvenc"@[1] != "hevc_nvenc"@[1]);
    assert("h264_videotoolbox"@[1] != "hevc_videotoolbox"@[1]);
    assert("h264_vaapi"@[1] != "hevc_vaapi"@[1]);
    assert("h264_nvenc"@[0] != "libx264"@[0]);
    assert("hevc_nvenc"@[0] != "libx265"@[0]);
    assert("h264_videotoolbox"@[0] != "libx264"@[0]);
    assert("hevc_videotoolbox"@[0] != "libx265"@[0]);
    assert("h264_vaapi"@[0] != "libx264"@[0]);
    assert("hevc_vaapi"@[0] != "libx265"@[0]);
}

/// State of the recorder.
#[derive(Clone, Copy, Debug, PartialEq, Eq, Structural)]
pub enum RecordingStatus {
    Idle,
    Buffering,
    Recording,
    Processing,
    Error,
}

impl Default for RecordingStatus {
    fn default() -> (s: Self)
        ensures
            s == RecordingStatus::Idle,
    {
        RecordingStatus::Idle
    }
}

/// The lower-case name of a status, as it is serialised.
pub open spec fn status_name(s: RecordingStatus) -> Seq<char> {
    match s {
        RecordingStatus::Idle => "idle"@,
        RecordingStatus::Buffering => "buffering"@,
        RecordingStatus::Recording => "recording"@,
        RecordingStatus::Processing => "processing"@,
        RecordingStatus::Error => "error"@,
    }
}

impl RecordingStatus {
    /// The lower-case name of the status, as it is serialised.
    pub fn as_str(&self) -> (r: &'static str)
        ensures
            r@ == status_name(*self),
    {
        match self {
            RecordingStatus::Idle => "idle",
            RecordingStatus::Buffering => "buffering",
            RecordingStatus::Recording => "recording",
            RecordingStatus::Processing => "processing",
            RecordingStatus::Error => "error",
        }
    }

    /// The status with the given serialised name.
    pub fn from_name(name: &str) -> (r: Option<Self>)
        ensures
            match r {
                Some(s) => status_name(s) == name@,
                None => forall|s: RecordingStatus| status_name(s) != name@,
            },
    {
        if crate::text::str_eq(name, "idle") {
            Some(RecordingStatus::Idle)
        } else if crate::text::str_eq(name, "buffering") {
            Some(RecordingStatus::Buffering)
        } else if crate::text::str_eq(name, "recording") {
            Some(RecordingStatus::Recording)
        } else if crate::text::str_eq(name, "processing") {
            Some(RecordingStatus::Processing)
        } else if crate::text::str_eq(name, "error") {
            Some(RecordingStatus::Error)
        } else {
            proof {
                assert forall|s: RecordingStatus| status_name(s) != name@ by {
                    match s {
                        RecordingStatus::Idle => {},
                        RecordingStatus::Buffering => {},
                        RecordingStatus::Recording => {},
                        RecordingStatus::Processing => {},
                        RecordingStatus::Error => {},
                    }
                }
            }
            None
        }
    }
}

/// Recording configuration.
#[derive(Debug)]
pub struct RecordingConfig {
    pub fps: u32,
    /// Video bitrate (bit/s).
    pub bitrate: u32,
    pub resolution: (u32, u32),
    pub encoder: VideoEncoder,
    pub hw_accel: HwAccel,
    pub output_dir: String,
    pub buffer_duration_secs: u64,
    pub segment_duration_secs: u64,
    pub audio_config: Option<AudioConfig>,
    /// Title of the window to capture (a fallback when no handle is known).
    pub capture_target: Option<String>,
    /// Handle of the game window, for a precise region capture.
    pub capture_hwnd: Option<isize>,
    /// Monitor to capture (None: the primary one).
    pub monitor_index: Option<u32>,
}

impl RecordingConfig {
    /// The default configuration, capturing the given window handle when one is
    /// known and otherwise the window with the given title.
    pub fn for_window(capture_hwnd: Option<isize>, title: &str) -> (c: Self)
        ensures
            c.fps == DEFAULT_FPS,
            c.bitrate == DEFAULT_BITRATE,
            c.resolution == (DEFAULT_WIDTH, DEFAULT_HEIGHT),
            c.encoder == VideoEncoder::H264,
            c.hw_accel == HwAccel::Auto,
            c.output_dir@ == "./recordings"@,
            c.buffer_duration_secs == DEFAULT_BUFFER_SECS,
            c.segment_duration_secs == DEFAULT_SEGMENT_SECS,
            c.audio_config == Some(default_audio_config()),
            c.capture_hwnd == capture_hwnd,
            capture_hwnd is Some ==> c.capture_target is None,
            capture_hwnd is None ==> (c.capture_target matches Some(t) && t@ == title@),
            c.monitor_index is None,
    {
        let capture_target = if capture_hwnd.is_some() {
            None
        } else {
            Some(string_of(title))
        };
        RecordingConfig {
            fps: DEFAULT_FPS,
            bitrate: DEFAULT_BITRATE,
            resolution: (DEFAULT_WIDTH, DEFAULT_HEIGHT),
            encoder: VideoEncoder::H264,
            hw_accel: HwAccel::Auto,
            output_dir: string_of("./recordings"),
            buffer_duration_secs: DEFAULT_BUFFER_SECS,
            segment_duration_secs: DEFAULT_SEGMENT_SECS,
            audio_config: Some(AudioConfig::default()),
            capture_target,
            capture_hwnd,
            monitor_index: None,
        }
    }
}

impl Default for RecordingConfig {
    /// The default configuration when no game window is known: capture by title.
    fn default() -> (c: Self)
        ensures
            c.fps == DEFAULT_FPS,
            c.bitrate == DEFAULT_BITRATE,
            c.resolution == (DEFAULT_WIDTH, DEFAULT_HEIGHT),
            c.encoder == VideoEncoder::H264,
            c.hw_accel == HwAccel::Auto,
            c.output_dir@ == "./recordings"@,
            c.buffer_duration_secs == DEFAULT_BUFFER_SECS,
            c.segment_duration_secs == DEFAULT_SEGMENT_SECS,
            c.audio_config == Some(default_audio_config()),
            c.capture_hwnd is None,
            c.capture_target matches Some(t) && t@ == DEFAULT_CAPTURE_TITLE@,
            c.monitor_index is None,
    {
        RecordingConfig::for_window(None, DEFAULT_CAPTURE_TITLE)
    }
}

/// Video settings chosen by the user.
#[derive(Debug)]
pub struct VideoSettingsConfig {
    pub resolution: (u32, u32),
    pub fps: u32,
    /// Video bitrate (bit/s).
    pub bitrate: u32,
    pub use_h265: bool,
    /// "auto", "nvenc", "qsv", "amf" or "software".
    pub encoder_preference: String,
}

impl Default for VideoSettingsConfig {
    fn default() -> (c: Self)
        ensures
            c.resolution == (DEFAULT_WIDTH, DEFAULT_HEIGHT),
            c.fps == DEFAULT_FPS,
            c.bitrate == DEFAULT_BITRATE,
            !c.use_h265,
            c.encoder_preference@ == "auto"@,
    {
        VideoSettingsConfig {
            resolution: (DEFAULT_WIDTH, DEFAULT_HEIGHT),
            fps: DEFAULT_FPS,
            bitrate: DEFAULT_BITRATE,
            use_h265: false,
            encoder_preference: string_of("auto"),
        }
    }
}

/// The hardware acceleration that a preference names; anything unknown is `Auto`.
pub open spec fn hw_accel_of(preference: Seq<char>) -> HwAccel {
    if preference == "nvenc"@ {
        HwAccel::Nvenc
    } else if preference == "qsv"@ {
        HwAccel::Qsv
    } else if preference == "amf"@ {
        HwAccel::Amf
    } else if preference == "software"@ {
        HwAccel::Software
    } else {
        HwAccel::Auto
    }
}

/// Reads an encoder preference ("nvenc", "qsv", "amf", "software"; else auto).
pub fn hw_accel_from_preference(preference: &str) -> (h: HwAccel)
    ensures
        h == hw_accel_of(preference@),
{
    if str_eq(preference, "nvenc") {
        HwAccel::Nvenc
    } else if str_eq(preference, "qsv") {
        HwAccel::Qsv
    } else if str_eq(preference, "amf") {
        HwAccel::Amf
    } else if str_eq(preference, "software") {
        HwAccel::Software
    } else {
        HwAccel::Auto
    }
}

/// The recorder configuration for the user's settings: the video settings
/// (their defaults when none are given) over the default configuration.
pub fn recording_config_from_settings(
    output_dir: String,
    audio_config: Option<AudioConfig>,
    video_config: Option<VideoSettingsConfig>,
) -> (c: RecordingConfig)
    ensures
        match video_config {
            Some(v) => {
                &&& c.fps == v.fps
                &&& c.bitrate == v.bitrate
                &&& c.resolution == v.resolution
                &&& c.encoder == (if v.use_h265 { VideoEncoder::H265 } else { VideoEncoder::H264 })
                &&& c.hw_accel == hw_accel_of(v.encoder_preference@)
            },
            None => {
                &&& c.fps == DEFAULT_FPS
                &&& c.bitrate == DEFAULT_BITRATE
                &&& c.resolution == (DEFAULT_WIDTH, DEFAULT_HEIGHT)
                &&& c.encoder == VideoEncoder::H264
                &&& c.hw_accel == HwAccel::Auto
            },
        },
        c.output_dir == output_dir,
        c.audio_config == audio_config,
        c.buffer_duration_secs == DEFAULT_BUFFER_SECS,
        c.segment_duration_secs == DEFAULT_SEGMENT_SECS,
        c.capture_hwnd is None,
        c.capture_target matches Some(t) && t@ == DEFAULT_CAPTURE_TITLE@,
        c.monitor_index is None,
{
    let video = match video_config {
        Some(v) => v,
        None => VideoSettingsConfig::default(),
    };
    proof {
        assert(hw_accel_of("auto"@) == HwAccel::Auto) by {
            reveal_strlit("auto");
            reveal_strlit("nvenc");
            reveal_strlit("qsv");
            reveal_strlit("amf");
            reveal_strlit("software");
            assert("auto"@[0] != "nvenc"@[0]);
            assert("auto"@[0] != "qsv"@[0]);
            assert("auto"@[1] != "amf"@[1]);
            assert("auto"@.len() != "software"@.len());
        }
    }
    let encoder = if video.use_h265 {
        VideoEncoder::H265
    } else {
        VideoEncoder::H264
    };
    let hw_accel = hw_accel_from_preference(video.encoder_preference.as_str());
    let base = RecordingConfig::default();
    RecordingConfig {
        fps: video.fps,
        bitrate: video.bitrate,
        resolution: video.resolution,
        encoder,
        hw_accel,
        output_dir,
        audio_config,
        ..base
    }
}

/// What the status dashboard shows of the recorder.
#[derive(Debug)]
pub struct RecordingStatusInfo {
    /// The status's lower-case name.
    pub status: String,
    pub is_monitoring: bool,
    pub buffer_duration_secs: u32,
    /// How the screen is being captured, when the recorder reports it.
    pub capture_mode: Option<String>,
    /// Which capture backend is in use, when the recorder reports it.
    pub capture_backend: Option<String>,
    pub capture_warning: Option<String>,
}

/// The dashboard's view of the recorder: monitoring when the clip manager
/// watches events or a game is being recorded; the buffer length in seconds,
/// cut to 32 bits.
pub fn detailed_recording_status(
    status: RecordingStatus,
    clip_manager_monitoring: bool,
    has_current_game: bool,
    config: &RecordingConfig,
    capture_mode: Option<String>,
    capture_backend: Option<String>,
    capture_warning: Option<String>,
) -> (info: RecordingStatusInfo)
    ensures
        info.status@ == status_name(status),
        info.is_monitoring == (clip_manager_monitoring || has_current_game),
        info.buffer_duration_secs == config.buffer_duration_secs as u32,
        info.capture_mode == capture_mode,
        info.capture_backend == capture_backend,
        info.capture_warning == capture_warning,
{
    RecordingStatusInfo {
        status: string_of(status.as_str()),
        is_monitoring: clip_manager_monitoring || has_current_game,
        buffer_duration_secs: config.buffer_duration_secs as u32,
        capture_mode,
        capture_backend,
        capture_warning,
    }
}

} // verus!
