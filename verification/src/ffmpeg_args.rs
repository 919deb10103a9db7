//! The FFmpeg command lines of the segment recorder and of a clip export.
use vstd::prelude::*;

use crate::encoding::TargetPlatform;
use crate::segments::{secs_text, ClipWindow};
use crate::text::{append_str, contains_seq, decimal, push_decimal, starts_with_seq, string_of, str_contains, str_starts_with};

verus! {

/// Smallest window side an encoder accepts.
pub const MIN_ENCODABLE: u32 = 64;
/// Sample rate that a 44.1 kHz device is resampled to.
pub const RESAMPLED_RATE: u32 = 48_000;

pub type Args = Seq<Seq<char>>;

pub open spec fn args_view(v: Seq<String>) -> Args {
    v.map_values(|s: String| s@)
}

/// An integer as text, with a minus sign when negative.
pub open spec fn int_text(i: int) -> Seq<char> {
    if i < 0 {
        "-"@ + decimal((-i) as nat)
    } else {
        decimal(i as nat)
    }
}

/// Where the recorder captures from.
#[derive(Clone, Debug)]
pub enum CaptureSource {
    /// A screen region holding the game window: x, y, width, height.
    WindowRegion(i32, i32, u32, u32),
    /// The window with this title.
    WindowTitle(String),
    /// The desktop, or a region of it (a secondary monitor).
    Desktop(Option<(i32, i32, u32, u32)>),
    /// The macOS screen with its audio.
    AvFoundation,
    /// The X11 display at this size.
    X11(u32, u32),
}

/// Why capture cannot start.
#[derive(Clone, Copy, Debug, PartialEq, Eq, Structural)]
pub enum CaptureError {
    /// The game window is found but still too small to encode (it is loading).
    WindowTooSmall,
}

/// The capture region of the game window: its rectangle rounded down to even sides,
/// refused while either side is below `MIN_ENCODABLE` or when no rectangle is known.
pub open spec fn window_region_spec(rect: Option<(i32, i32, u32, u32)>) -> Result<(i32, i32, u32, u32), CaptureError> {
    match rect {
        Some((x, y, w, h)) => {
            let ew = (w - w % 2) as u32;
            let eh = (h - h % 2) as u32;
            if ew < MIN_ENCODABLE || eh < MIN_ENCODABLE {
                Err(CaptureError::WindowTooSmall)
            } else {
                Ok((x, y, ew, eh))
            }
        },
        None => Err(CaptureError::WindowTooSmall),
    }
}

/// The capture region of the game window.
pub fn window_capture_region(rect: Option<(i32, i32, u32, u32)>) -> (r: Result<(i32, i32, u32, u32), CaptureError>)
    ensures
        r == window_region_spec(rect),
{
    match rect {
        Some((x, y, w, h)) => {
            let (ew, eh) = crate::segments::even_dimensions(w, h);
            if ew < MIN_ENCODABLE || eh < MIN_ENCODABLE {
                Err(CaptureError::WindowTooSmall)
            } else {
                Ok((x, y, ew, eh))
            }
        },
        None => Err(CaptureError::WindowTooSmall),
    }
}

/// A configured window title is refused when it looks like a URL or a protocol input.
pub open spec fn unsafe_target(t: Seq<char>) -> bool {
    contains_seq(t, "://"@) || starts_with_seq(t, "pipe:"@) || starts_with_seq(t, "tcp:"@) || starts_with_seq(
        t,
        "http:"@,
    ) || starts_with_seq(t, "smb:"@)
}

/// The window title to capture: the configured one unless it is unsafe, else the
/// fallback title.
pub fn safe_capture_target(target: &str, fallback_title: &str) -> (r: String)
    ensures
        r@ == (if unsafe_target(target@) { fallback_title@ } else { target@ }),
{
    if str_contains(target, "://") || str_starts_with(target, "pipe:") || str_starts_with(target, "tcp:")
        || str_starts_with(target, "http:") || str_starts_with(target, "smb:") {
        string_of(fallback_title)
    } else {
        string_of(target)
    }
}

/// The region of a secondary monitor (index above 0), rounded down to even sides;
/// none for the primary monitor or an empty rectangle.
pub open spec fn monitor_region_spec(index: u32, rect: (i32, i32, u32, u32)) -> Option<(i32, i32, u32, u32)> {
    let ew = (rect.2 - rect.2 % 2) as u32;
    let eh = (rect.3 - rect.3 % 2) as u32;
    if index > 0 && ew > 0 && eh > 0 {
        Some((rect.0, rect.1, ew, eh))
    } else {
        None
    }
}

/// The capture region of a monitor.
pub fn monitor_region(index: u32, rect: (i32, i32, u32, u32)) -> (r: Option<(i32, i32, u32, u32)>)
    ensures
        r == monitor_region_spec(index, rect),
{
    let (ew, eh) = crate::segments::even_dimensions(rect.2, rect.3);
    if index > 0 && ew > 0 && eh > 0 {
        Some((rect.0, rect.1, ew, eh))
    } else {
        None
    }
}

/// `-preset` for an encoder.
pub open spec fn preset_for(encoder: Seq<char>) -> Seq<char> {
    if contains_seq(encoder, "nvenc"@) {
        "p4"@
    } else if contains_seq(encoder, "qsv"@) {
        "veryfast"@
    } else if contains_seq(encoder, "amf"@) {
        "speed"@
    } else {
        "veryfast"@
    }
}

/// Sample rate written into segments: a 44.1 kHz input is resampled to 48 kHz.
pub open spec fn output_rate(rate: u32) -> u32 {
    if rate == 44100 { RESAMPLED_RATE } else { rate }
}

/// The input part of the recording command.
pub open spec fn input_args(source: CaptureSource, fps: u32, dshow_device: Option<String>) -> Args {
    match source {
        CaptureSource::WindowRegion(x, y, w, h) => seq!["-f"@, "gdigrab"@, "-framerate"@, decimal(fps as nat),
            "-draw_mouse"@, "0"@, "-offset_x"@, int_text(x as int), "-offset_y"@, int_text(y as int), "-video_size"@,
            decimal(w as nat) + "x"@ + decimal(h as nat), "-i"@, "desktop"@] + dshow_args(dshow_device),
        CaptureSource::WindowTitle(t) => seq!["-f"@, "gdigrab"@, "-framerate"@, decimal(fps as nat), "-draw_mouse"@,
            "0"@, "-i"@, "title="@ + t@] + dshow_args(dshow_device),
        CaptureSource::Desktop(region) => seq!["-f"@, "gdigrab"@, "-framerate"@, decimal(fps as nat), "-draw_mouse"@,
            "0"@] + match region {
            Some((x, y, w, h)) => seq!["-offset_x"@, int_text(x as int), "-offset_y"@, int_text(y as int),
                "-video_size"@, decimal(w as nat) + "x"@ + decimal(h as nat)],
            None => Seq::empty(),
        } + seq!["-i"@, "desktop"@] + dshow_args(dshow_device),
        CaptureSource::AvFoundation => seq!["-f"@, "avfoundation"@, "-framerate"@, decimal(fps as nat), "-i"@, "1:0"@],
        CaptureSource::X11(w, h) => seq!["-f"@, "x11grab"@, "-framerate"@, decimal(fps as nat), "-video_size"@,
            decimal(w as nat) + "x"@ + decimal(h as nat), "-i"@, ":0.0"@],
    }
}

/// DirectShow audio input (the fallback when loopback capture is unavailable).
pub open spec fn dshow_args(device: Option<String>) -> Args {
    match device {
        Some(d) => seq!["-f"@, "dshow"@, "-i"@, "audio="@ + d@],
        None => Seq::empty(),
    }
}

/// Settings of the recording command besides its input.
pub struct RecordingArgsConfig {
    pub fps: u32,
    /// Video bitrate (bit/s).
    pub bitrate: u32,
    pub encoder_name: String,
    /// Audio encoded into the segments (DirectShow or avfoundation): (kbps, sample rate).
    pub segment_audio: Option<(u32, u32)>,
    pub segment_duration_secs: u64,
    pub buffer_duration_secs: u64,
    /// Output pattern of the segment files.
    pub segment_pattern: String,
}

/// The encoding and segmenting part of the recording command.
pub open spec fn output_args(c: RecordingArgsConfig) -> Args {
    let k = c.bitrate / 1000;
    seq!["-c:v"@, c.encoder_name@, "-b:v"@, decimal(k as nat) + "k"@, "-maxrate"@, decimal((k * 3 / 2) as nat)
        + "k"@, "-bufsize"@, decimal((k * 3) as nat) + "k"@, "-preset"@, preset_for(c.encoder_name@), "-g"@,
        decimal((c.fps * 2) as nat), "-keyint_min"@, decimal(c.fps as nat), "-sc_threshold"@, "0"@, "-pix_fmt"@,
        "yuv420p"@] + match c.segment_audio {
        Some((kbps, rate)) => seq!["-c:a"@, "aac"@, "-b:a"@, decimal(kbps as nat) + "k"@, "-ar"@, decimal(
            output_rate(rate) as nat,
        )],
        None => Seq::empty(),
    } + seq!["-f"@, "segment"@, "-segment_time"@, decimal(c.segment_duration_secs as nat), "-segment_wrap"@, int_text(
        ((c.buffer_duration_secs / c.segment_duration_secs) as i32) as int,
    ), "-segment_format"@, "mp4"@, "-reset_timestamps"@, "1"@, "-strftime"@, "0"@, c.segment_pattern@]
}

/// The whole recording command (after the program name).
pub open spec fn recording_args_spec(source: CaptureSource, dshow_device: Option<String>, c: RecordingArgsConfig) -> Args {
    seq!["-y"@, "-nostats"@, "-progress"@, "pipe:1"@] + input_args(source, c.fps, dshow_device) + output_args(c)
}

/// An argument list being built.
pub(crate) struct ArgList {
    pub(crate) v: Vec<String>,
}

impl ArgList {
    pub(crate) open spec fn view(&self) -> Args {
        args_view(self.v@)
    }

    pub(crate) fn new() -> (a: Self)
        ensures
            a.view() == Seq::<Seq<char>>::empty(),
    {
        let a = ArgList { v: Vec::new() };
        proof {
            assert(a.view() =~= Seq::<Seq<char>>::empty());
        }
        a
    }

    pub(crate) fn push(&mut self, s: String)
        ensures
            final(self).view() == old(self).view().push(s@),
    {
        self.v.push(s);
        proof {
            assert(self.view() =~= old(self).view().push(s@));
        }
    }

    pub(crate) fn lit(&mut self, s: &str)
        ensures
            final(self).view() == old(self).view().push(s@),
    {
        self.push(string_of(s));
    }

    pub(crate) fn num(&mut self, n: u64)
        ensures
            final(self).view() == old(self).view().push(decimal(n as nat)),
    {
        let mut s = String::new();
        push_decimal(&mut s, n);
        proof {
            assert(s@ =~= decimal(n as nat));
        }
        self.push(s);
    }

    fn signed(&mut self, i: i64)
        ensures
            final(self).view() == old(self).view().push(int_text(i as int)),
    {
        let mut s = String::new();
        if i < 0 {
            append_str(&mut s, "-");
            let m: u64 = if i == i64::MIN { 9_223_372_036_854_775_808u64 } else { (-i) as u64 };
            push_decimal(&mut s, m);
        } else {
            push_decimal(&mut s, i as u64);
        }
        proof {
            assert(s@ =~= int_text(i as int));
        }
        self.push(s);
    }

    /// `n` followed by a suffix.
    pub(crate) fn num_with(&mut self, n: u64, suffix: &str)
        ensures
            final(self).view() == old(self).view().push(decimal(n as nat) + suffix@),
    {
        let mut s = String::new();
        push_decimal(&mut s, n);
        append_str(&mut s, suffix);
        proof {
            assert(s@ =~= decimal(n as nat) + suffix@);
        }
        self.push(s);
    }

    pub(crate) fn size(&mut self, w: u32, h: u32)
        ensures
            final(self).view() == old(self).view().push(decimal(w as nat) + "x"@ + decimal(h as nat)),
    {
        let mut s = String::new();
        push_decimal(&mut s, w as u64);
        append_str(&mut s, "x");
        push_decimal(&mut s, h as u64);
        proof {
            assert(s@ =~= decimal(w as nat) + "x"@ + decimal(h as nat));
        }
        self.push(s);
    }

    /// A prefix followed by the text of a string.
    pub(crate) fn prefixed(&mut self, prefix: &str, t: &str)
        ensures
            final(self).view() == old(self).view().push(prefix@ + t@),
    {
        let mut s = string_of(prefix);
        append_str(&mut s, t);
        self.push(s);
    }

    fn secs(&mut self, ms: u64)
        ensures
            final(self).view() == old(self).view().push(secs_text(ms)),
    {
        let mut s = String::new();
        crate::segments::push_secs(&mut s, ms);
        proof {
            assert(s@ =~= secs_text(ms));
        }
        self.push(s);
    }

    fn add_dshow(&mut self, device: &Option<String>)
        ensures
            final(self).view() == old(self).view() + dshow_args(*device),
    {
        match device {
            Some(d) => {
                self.lit("-f");
                self.lit("dshow");
                self.lit("-i");
                self.prefixed("audio=", d.as_str());
            },
            None => {},
        }
        proof {
            assert(self.view() =~= old(self).view() + dshow_args(*device));
        }
    }

    fn add_gdigrab_head(&mut self, fps: u32)
        ensures
            final(self).view() == old(self).view() + seq!["-f"@, "gdigrab"@, "-framerate"@, decimal(fps as nat),
                "-draw_mouse"@, "0"@],
    {
        self.lit("-f");
        self.lit("gdigrab");
        self.lit("-framerate");
        self.num(fps as u64);
        self.lit("-draw_mouse");
        self.lit("0");
        proof {
            assert(self.view() =~= old(self).view() + seq!["-f"@, "gdigrab"@, "-framerate"@, decimal(fps as nat),
                "-draw_mouse"@, "0"@]);
        }
    }

    fn add_region(&mut self, x: i32, y: i32, w: u32, h: u32)
        ensures
            final(self).view() == old(self).view() + seq!["-offset_x"@, int_text(x as int), "-offset_y"@, int_text(
                y as int,
            ), "-video_size"@, decimal(w as nat) + "x"@ + decimal(h as nat)],
    {
        self.lit("-offset_x");
        self.signed(x as i64);
        self.lit("-offset_y");
        self.signed(y as i64);
        self.lit("-video_size");
        self.size(w, h);
        proof {
            assert(self.view() =~= old(self).view() + seq!["-offset_x"@, int_text(x as int), "-offset_y"@, int_text(
                y as int,
            ), "-video_size"@, decimal(w as nat) + "x"@ + decimal(h as nat)]);
        }
    }

    fn add_input(&mut self, source: &CaptureSource, fps: u32, dshow_device: &Option<String>)
        ensures
            final(self).view() == old(self).view() + input_args(*source, fps, *dshow_device),
    {
        match source {
            CaptureSource::WindowRegion(x, y, w, h) => {
                self.add_gdigrab_head(fps);
                self.add_region(*x, *y, *w, *h);
                self.lit("-i");
                self.lit("desktop");
                self.add_dshow(dshow_device);
            },
            CaptureSource::WindowTitle(t) => {
                self.add_gdigrab_head(fps);
                self.lit("-i");
                self.prefixed("title=", t.as_str());
                self.add_dshow(dshow_device);
            },
            CaptureSource::Desktop(region) => {
                self.add_gdigrab_head(fps);
                match region {
                    Some((x, y, w, h)) => self.add_region(*x, *y, *w, *h),
                    None => {},
                }
                self.lit("-i");
                self.lit("desktop");
                self.add_dshow(dshow_device);
            },
            CaptureSource::AvFoundation => {
                self.lit("-f");
                self.lit("avfoundation");
                self.lit("-framerate");
                self.num(fps as u64);
                self.lit("-i");
                self.lit("1:0");
            },
            CaptureSource::X11(w, h) => {
                self.lit("-f");
                self.lit("x11grab");
                self.lit("-framerate");
                self.num(fps as u64);
                self.lit("-video_size");
                self.size(*w, *h);
                self.lit("-i");
                self.lit(":0.0");
            },
        }
        proof {
            assert(self.view() =~= old(self).view() + input_args(*source, fps, *dshow_device));
        }
    }

    fn add_encoding(&mut self, c: &RecordingArgsConfig)
        requires
            c.fps <= u32::MAX / 2,
        ensures
            final(self).view() == old(self).view() + seq!["-c:v"@, c.encoder_name@, "-b:v"@, decimal(
                (c.bitrate / 1000) as nat,
            ) + "k"@, "-maxrate"@, decimal(((c.bitrate / 1000) * 3 / 2) as nat) + "k"@, "-bufsize"@, decimal(
                ((c.bitrate / 1000) * 3) as nat,
            ) + "k"@, "-preset"@, preset_for(c.encoder_name@), "-g"@, decimal((c.fps * 2) as nat), "-keyint_min"@,
                decimal(c.fps as nat), "-sc_threshold"@, "0"@, "-pix_fmt"@, "yuv420p"@],
    {
        let k = (c.bitrate / 1000) as u64;
        self.lit("-c:v");
        self.push(c.encoder_name.clone());
        self.lit("-b:v");
        self.num_with(k, "k");
        self.lit("-maxrate");
        self.num_with(k * 3 / 2, "k");
        self.lit("-bufsize");
        self.num_with(k * 3, "k");
        self.lit("-preset");
        let name = c.encoder_name.as_str();
        if str_contains(name, "nvenc") {
            self.lit("p4");
        } else if str_contains(name, "qsv") {
            self.lit("veryfast");
        } else if str_contains(name, "amf") {
            self.lit("speed");
        } else {
            self.lit("veryfast");
        }
        self.lit("-g");
        self.num((c.fps * 2) as u64);
        self.lit("-keyint_min");
        self.num(c.fps as u64);
        self.lit("-sc_threshold");
        self.lit("0");
        self.lit("-pix_fmt");
        self.lit("yuv420p");
        proof {
            assert(self.view() =~= old(self).view() + seq!["-c:v"@, c.encoder_name@, "-b:v"@, decimal(
                (c.bitrate / 1000) as nat,
            ) + "k"@, "-maxrate"@, decimal(((c.bitrate / 1000) * 3 / 2) as nat) + "k"@, "-bufsize"@, decimal(
                ((c.bitrate / 1000) * 3) as nat,
            ) + "k"@, "-preset"@, preset_for(c.encoder_name@), "-g"@, decimal((c.fps * 2) as nat), "-keyint_min"@,
                decimal(c.fps as nat), "-sc_threshold"@, "0"@, "-pix_fmt"@, "yuv420p"@]);
        }
    }

    fn add_segment_audio(&mut self, audio: Option<(u32, u32)>)
        ensures
            final(self).view() == old(self).view() + match audio {
                Some((kbps, rate)) => seq!["-c:a"@, "aac"@, "-b:a"@, decimal(kbps as nat) + "k"@, "-ar"@, decimal(
                    output_rate(rate) as nat,
                )],
                None => Seq::<Seq<char>>::empty(),
            },
    {
        match audio {
            Some((kbps, rate)) => {
                self.lit("-c:a");
                self.lit("aac");
                self.lit("-b:a");
                self.num_with(kbps as u64, "k");
                self.lit("-ar");
                let r = if rate == 44100 { RESAMPLED_RATE } else { rate };
                self.num(r as u64);
            },
            None => {},
        }
        proof {
            assert(self.view() =~= old(self).view() + match audio {
                Some((kbps, rate)) => seq!["-c:a"@, "aac"@, "-b:a"@, decimal(kbps as nat) + "k"@, "-ar"@, decimal(
                    output_rate(rate) as nat,
                )],
                None => Seq::<Seq<char>>::empty(),
            });
        }
    }

    fn add_segmenting(&mut self, c: &RecordingArgsConfig)
        requires
            c.segment_duration_secs > 0,
        ensures
            final(self).view() == old(self).view() + seq!["-f"@, "segment"@, "-segment_time"@, decimal(
                c.segment_duration_secs as nat,
            ), "-segment_wrap"@, int_text(((c.buffer_duration_secs / c.segment_duration_secs) as i32) as int),
                "-segment_format"@, "mp4"@, "-reset_timestamps"@, "1"@, "-strftime"@, "0"@, c.segment_pattern@],
    {
        let max_segments = (c.buffer_duration_secs / c.segment_duration_secs) as i32;
        self.lit("-f");
        self.lit("segment");
        self.lit("-segment_time");
        self.num(c.segment_duration_secs);
        self.lit("-segment_wrap");
        self.signed(max_segments as i64);
        self.lit("-segment_format");
        self.lit("mp4");
        self.lit("-reset_timestamps");
        self.lit("1");
        self.lit("-strftime");
        self.lit("0");
        self.push(c.segment_pattern.clone());
        proof {
            assert(self.view() =~= old(self).view() + seq!["-f"@, "segment"@, "-segment_time"@, decimal(
                c.segment_duration_secs as nat,
            ), "-segment_wrap"@, int_text(((c.buffer_duration_secs / c.segment_duration_secs) as i32) as int),
                "-segment_format"@, "mp4"@, "-reset_timestamps"@, "1"@, "-strftime"@, "0"@, c.segment_pattern@]);
        }
    }
}

/// The recording command's arguments: progress on stdout, the capture input, the
/// encoder with a capped bitrate, the segment audio if any, and a rolling set of
/// segments that covers the buffer.
pub fn recording_args(source: &CaptureSource, dshow_device: &Option<String>, config: &RecordingArgsConfig) -> (args: Vec<
    String,
>)
    requires
        config.fps <= u32::MAX / 2,
        config.segment_duration_secs > 0,
    ensures
        args_view(args@) == recording_args_spec(*source, *dshow_device, *config),
{
    let mut a = ArgList::new();
    a.lit("-y");
    a.lit("-nostats");
    a.lit("-progress");
    a.lit("pipe:1");
    a.add_input(source, config.fps, dshow_device);
    a.add_encoding(config);
    a.add_segment_audio(config.segment_audio);
    a.add_segmenting(config);
    proof {
        assert(a.view() =~= recording_args_spec(*source, *dshow_device, *config));
    }
    a.v
}

// ---------------------------------------------------------------------------
// Clip export
// ---------------------------------------------------------------------------

/// A volume in percent as FFmpeg reads it: the factor, without trailing zeros.
pub open spec fn volume_text(percent: u8) -> Seq<char> {
    let whole = (percent / 100) as nat;
    let frac = (percent % 100) as nat;
    if frac == 0 {
        decimal(whole)
    } else if frac % 10 == 0 {
        decimal(whole) + "."@ + seq![crate::text::digit_char(frac / 10)]
    } else {
        decimal(whole) + "."@ + seq![crate::text::digit_char(frac / 10), crate::text::digit_char(frac % 10)]
    }
}

/// A volume factor as FFmpeg reads it.
pub fn volume_string(percent: u8) -> (s: String)
    ensures
        s@ == volume_text(percent),
{
    let whole = (percent / 100) as u64;
    let frac = (percent % 100) as u64;
    let mut s = String::new();
    push_decimal(&mut s, whole);
    if frac != 0 {
        append_str(&mut s, ".");
        let mut t = String::new();
        push_decimal(&mut t, frac / 10);
        proof {
            assert(crate::text::decimal((frac / 10) as nat) == seq![crate::text::digit_char((frac / 10) as nat)]);
        }
        append_str(&mut s, t.as_str());
        if frac % 10 != 0 {
            let mut u = String::new();
            push_decimal(&mut u, frac % 10);
            proof {
                assert(crate::text::decimal((frac % 10) as nat) == seq![crate::text::digit_char((frac % 10) as nat)]);
            }
            append_str(&mut s, u.as_str());
        }
    }
    proof {
        reveal_strlit(".");
        assert(s@ =~= volume_text(percent));
    }
    s
}

/// Inputs of a clip export besides the window.
pub struct ExportInputs {
    pub concat_file: String,
    /// The system-audio recording, when one was made this session.
    pub system_wav: Option<String>,
    /// The microphone recording, when one was made this session.
    pub mic_wav: Option<String>,
    /// System audio is embedded in the segments (DirectShow fallback).
    pub system_audio_embedded: bool,
    pub audio_bitrate_kbps: u32,
    pub system_volume: u8,
    pub mic_volume: u8,
    pub output_path: String,
}

/// Audio bitrate of an export when no audio is configured (kbps).
pub const DEFAULT_EXPORT_AUDIO_KBPS: u32 = 192;

/// The inputs of a clip export: the audio bitrate and volumes come from the audio
/// configuration, and are 192 kbps, 100 % and 120 % without one.
pub fn export_inputs(
    concat_file: String,
    system_wav: Option<String>,
    mic_wav: Option<String>,
    system_audio_embedded: bool,
    audio: &Option<crate::audio::AudioConfig>,
    output_path: String,
) -> (e: ExportInputs)
    ensures
        e.concat_file == concat_file,
        e.system_wav == system_wav,
        e.mic_wav == mic_wav,
        e.system_audio_embedded == system_audio_embedded,
        e.output_path == output_path,
        match audio {
            Some(a) => e.audio_bitrate_kbps == a.bitrate && e.system_volume == a.system_audio_volume && e.mic_volume
                == a.microphone_volume,
            None => e.audio_bitrate_kbps == DEFAULT_EXPORT_AUDIO_KBPS && e.system_volume == 100 && e.mic_volume == 120,
        },
{
    let (audio_bitrate_kbps, system_volume, mic_volume) = match audio {
        Some(a) => (a.bitrate, a.system_audio_volume, a.microphone_volume),
        None => (DEFAULT_EXPORT_AUDIO_KBPS, 100u8, 120u8),
    };
    ExportInputs {
        concat_file,
        system_wav,
        mic_wav,
        system_audio_embedded,
        audio_bitrate_kbps,
        system_volume,
        mic_volume,
        output_path,
    }
}

/// The mix of system audio and microphone.
pub open spec fn amix_filter(first: Seq<char>, mic_index: nat, sys_vol: u8, mic_vol: u8) -> Seq<char> {
    first + ":a]volume="@ + volume_text(sys_vol) + "[a1];["@ + decimal(mic_index) + ":a]volume="@ + volume_text(
        mic_vol,
    ) + "[a2];[a1][a2]amix=inputs=2:duration=first[outa]"@
}

/// The audio encoding tail shared by every case with audio.
pub open spec fn aac_tail(kbps: u32) -> Args {
    seq!["-c:v"@, "copy"@, "-c:a"@, "aac"@, "-b:a"@, decimal(kbps as nat) + "k"@]
}

/// How the streams are mapped and encoded.
pub open spec fn mux_args(i: ExportInputs) -> Args {
    match (i.system_wav, i.mic_wav) {
        (Some(_), Some(_)) => seq!["-filter_complex"@, amix_filter("["@ + decimal(1), 2, i.system_volume, i.mic_volume),
            "-map"@, "0:v"@, "-map"@, "[outa]"@] + aac_tail(i.audio_bitrate_kbps),
        (Some(_), None) => seq!["-map"@, "0:v"@, "-map"@, "1:a"@] + aac_tail(i.audio_bitrate_kbps),
        (None, Some(_)) => seq!["-filter_complex"@, if i.system_audio_embedded {
            amix_filter("[0"@, 1, i.system_volume, i.mic_volume)
        } else {
            "[1:a]volume="@ + volume_text(i.mic_volume) + "[outa]"@
        }, "-map"@, "0:v"@, "-map"@, "[outa]"@] + aac_tail(i.audio_bitrate_kbps),
        (None, None) => seq!["-c"@, "copy"@],
    }
}

/// The clip export command (after the program name): each input seeked to the same
/// instant, the window's length, the audio mix, and a fast-start mp4.
pub open spec fn export_args_spec(w: ClipWindow, i: ExportInputs) -> Args {
    seq!["-y"@, "-ss"@, secs_text(w.video_ss), "-f"@, "concat"@, "-safe"@, "0"@, "-i"@, i.concat_file@] + match i.system_wav {
        Some(p) => seq!["-ss"@, secs_text(w.audio_ss), "-i"@, p@],
        None => Seq::empty(),
    } + match i.mic_wav {
        Some(p) => seq!["-ss"@, secs_text(w.mic_ss), "-i"@, p@],
        None => Seq::empty(),
    } + seq!["-t"@, secs_text(w.duration)] + mux_args(i) + seq!["-movflags"@, "+faststart"@, i.output_path@]
}

impl ArgList {
    fn add_aac_tail(&mut self, kbps: u32)
        ensures
            final(self).view() == old(self).view() + aac_tail(kbps),
    {
        self.lit("-c:v");
        self.lit("copy");
        self.lit("-c:a");
        self.lit("aac");
        self.lit("-b:a");
        self.num_with(kbps as u64, "k");
        proof {
            assert(self.view() =~= old(self).view() + aac_tail(kbps));
        }
    }

    fn add_mix(&mut self, first: &str, mic_index: u64, sys_vol: u8, mic_vol: u8)
        ensures
            final(self).view() == old(self).view().push(amix_filter(first@, mic_index as nat, sys_vol, mic_vol)),
    {
        let mut f = string_of(first);
        append_str(&mut f, ":a]volume=");
        let sv = volume_string(sys_vol);
        append_str(&mut f, sv.as_str());
        append_str(&mut f, "[a1];[");
        push_decimal(&mut f, mic_index);
        append_str(&mut f, ":a]volume=");
        let mv = volume_string(mic_vol);
        append_str(&mut f, mv.as_str());
        append_str(&mut f, "[a2];[a1][a2]amix=inputs=2:duration=first[outa]");
        proof {
            assert(f@ =~= amix_filter(first@, mic_index as nat, sys_vol, mic_vol));
        }
        self.push(f);
    }

    fn add_mux(&mut self, i: &ExportInputs)
        ensures
            final(self).view() == old(self).view() + mux_args(*i),
    {
        match (&i.system_wav, &i.mic_wav) {
            (Some(_), Some(_)) => {
                self.lit("-filter_complex");
                let mut first = string_of("[");
                push_decimal(&mut first, 1);
                self.add_mix(first.as_str(), 2, i.system_volume, i.mic_volume);
                self.lit("-map");
                self.lit("0:v");
                self.lit("-map");
                self.lit("[outa]");
                self.add_aac_tail(i.audio_bitrate_kbps);
            },
            (Some(_), None) => {
                self.lit("-map");
                self.lit("0:v");
                self.lit("-map");
                self.lit("1:a");
                self.add_aac_tail(i.audio_bitrate_kbps);
            },
            (None, Some(_)) => {
                self.lit("-filter_complex");
                if i.system_audio_embedded {
                    self.add_mix("[0", 1, i.system_volume, i.mic_volume);
                } else {
                    let mut f = string_of("[1:a]volume=");
                    let mv = volume_string(i.mic_volume);
                    append_str(&mut f, mv.as_str());
                    append_str(&mut f, "[outa]");
                    self.push(f);
                }
                self.lit("-map");
                self.lit("0:v");
                self.lit("-map");
                self.lit("[outa]");
                self.add_aac_tail(i.audio_bitrate_kbps);
            },
            (None, None) => {
                self.lit("-c");
                self.lit("copy");
            },
        }
        proof {
            assert(self.view() =~= old(self).view() + mux_args(*i));
        }
    }
}

/// The clip export command's arguments.
pub fn export_args(window: &ClipWindow, inputs: &ExportInputs) -> (args: Vec<String>)
    ensures
        args_view(args@) == export_args_spec(*window, *inputs),
{
    let mut a = ArgList::new();
    a.lit("-y");
    a.lit("-ss");
    a.secs(window.video_ss);
    a.lit("-f");
    a.lit("concat");
    a.lit("-safe");
    a.lit("0");
    a.lit("-i");
    a.push(inputs.concat_file.clone());
    let ghost v1 = a.view();
    match &inputs.system_wav {
        Some(p) => {
            a.lit("-ss");
            a.secs(window.audio_ss);
            a.lit("-i");
            a.push(p.clone());
        },
        None => {},
    }
    let ghost v2 = a.view();
    match &inputs.mic_wav {
        Some(p) => {
            a.lit("-ss");
            a.secs(window.mic_ss);
            a.lit("-i");
            a.push(p.clone());
        },
        None => {},
    }
    let ghost v3 = a.view();
    a.lit("-t");
    a.secs(window.duration);
    a.add_mux(inputs);
    a.lit("-movflags");
    a.lit("+faststart");
    a.push(inputs.output_path.clone());
    proof {
        assert(a.view() =~= export_args_spec(*window, *inputs));
    }
    a.v
}


/// Every recorded audio input of an export is the one mixed into the clip, named
/// by its place among the inputs: the concatenated video is input 0, the system
/// audio recording (when there is one) input 1, and the microphone recording the
/// next one. With both, the two are mixed at their volumes; with only the system
/// recording, its audio (input 1) is mapped; with only the microphone, it is mixed
/// with the audio embedded in the video when there is such audio, else taken alone;
/// with neither, everything is copied as it is.
pub proof fn every_recorded_audio_input_is_mapped(w: ClipWindow, i: ExportInputs)
    ensures
        ({
            let args = export_args_spec(w, i);
            let video = seq!["-y"@, "-ss"@, secs_text(w.video_ss), "-f"@, "concat"@, "-safe"@, "0"@, "-i"@, i.concat_file@];
            let aac = seq!["-c:v"@, "copy"@, "-c:a"@, "aac"@, "-b:a"@, decimal(i.audio_bitrate_kbps as nat) + "k"@];
            let end = seq!["-movflags"@, "+faststart"@, i.output_path@];
            let dur = seq!["-t"@, secs_text(w.duration)];
            &&& (i.system_wav is Some && i.mic_wav is None) ==> args == video + seq!["-ss"@, secs_text(
                w.audio_ss,
            ), "-i"@, i.system_wav->0@] + dur + seq!["-map"@, "0:v"@, "-map"@, "1:a"@] + aac + end
            &&& (i.system_wav is Some && i.mic_wav is Some) ==> args == video + seq![
                "-ss"@,
                secs_text(w.audio_ss),
                "-i"@,
                i.system_wav->0@,
                "-ss"@,
                secs_text(w.mic_ss),
                "-i"@,
                i.mic_wav->0@,
            ] + dur + seq!["-filter_complex"@, "[1:a]volume="@ + volume_text(i.system_volume)
                + "[a1];[2:a]volume="@ + volume_text(i.mic_volume)
                + "[a2];[a1][a2]amix=inputs=2:duration=first[outa]"@, "-map"@, "0:v"@, "-map"@, "[outa]"@] + aac
                + end
            &&& (i.system_wav is None && i.mic_wav is Some && !i.system_audio_embedded) ==> args == video
                + seq!["-ss"@, secs_text(w.mic_ss), "-i"@, i.mic_wav->0@] + dur + seq!["-filter_complex"@, "[1:a]volume="@
                + volume_text(i.mic_volume) + "[outa]"@, "-map"@, "0:v"@, "-map"@, "[outa]"@] + aac + end
            &&& (i.system_wav is None && i.mic_wav is Some && i.system_audio_embedded) ==> args == video
                + seq!["-ss"@, secs_text(w.mic_ss), "-i"@, i.mic_wav->0@] + dur + seq!["-filter_complex"@, "[0:a]volume="@
                + volume_text(i.system_volume) + "[a1];[1:a]volume="@ + volume_text(i.mic_volume)
                + "[a2];[a1][a2]amix=inputs=2:duration=first[outa]"@, "-map"@, "0:v"@, "-map"@, "[outa]"@] + aac
                + end
            &&& (i.system_wav is None && i.mic_wav is None) ==> args == video + dur + seq!["-c"@, "copy"@] + end
        }),
{
    reveal_strlit("[");
    reveal_strlit("[0");
    reveal_strlit("[1:a]volume=");
    reveal_strlit("[0:a]volume=");
    reveal_strlit(":a]volume=");
    reveal_strlit("[a1];[");
    reveal_strlit("[a1];[2:a]volume=");
    reveal_strlit("[a1];[1:a]volume=");
    assert(decimal(1) == seq!['1']);
    assert(decimal(2) == seq!['2']);
    let ss = volume_text(i.system_volume);
    let ms = volume_text(i.mic_volume);
    let tail = "[a2];[a1][a2]amix=inputs=2:duration=first[outa]"@;
    assert("["@ + decimal(1) + ":a]volume="@ =~= "[1:a]volume="@);
    assert("[a1];["@ + decimal(2) + ":a]volume="@ =~= "[a1];[2:a]volume="@);
    assert("[a1];["@ + decimal(1) + ":a]volume="@ =~= "[a1];[1:a]volume="@);
    assert("[0"@ + ":a]volume="@ =~= "[0:a]volume="@);
    assert(amix_filter("["@ + decimal(1), 2, i.system_volume, i.mic_volume) =~= "[1:a]volume="@ + ss
        + "[a1];[2:a]volume="@ + ms + tail);
    assert(amix_filter("[0"@, 1, i.system_volume, i.mic_volume) =~= "[0:a]volume="@ + ss + "[a1];[1:a]volume="@
        + ms + tail);
    let args = export_args_spec(w, i);
    let video = seq!["-y"@, "-ss"@, secs_text(w.video_ss), "-f"@, "concat"@, "-safe"@, "0"@, "-i"@, i.concat_file@];
    let aac = seq!["-c:v"@, "copy"@, "-c:a"@, "aac"@, "-b:a"@, decimal(i.audio_bitrate_kbps as nat) + "k"@];
    let end = seq!["-movflags"@, "+faststart"@, i.output_path@];
    let dur = seq!["-t"@, secs_text(w.duration)];
    match (i.system_wav, i.mic_wav) {
        (Some(sys), None) => {
            assert(args =~= video + seq!["-ss"@, secs_text(w.audio_ss), "-i"@, sys@] + dur + seq![
                "-map"@,
                "0:v"@,
                "-map"@,
                "1:a"@,
            ] + aac + end);
        },
        (Some(sys), Some(mic)) => {
            assert(args =~= video + seq![
                "-ss"@,
                secs_text(w.audio_ss),
                "-i"@,
                sys@,
                "-ss"@,
                secs_text(w.mic_ss),
                "-i"@,
                mic@,
            ] + dur + seq!["-filter_complex"@, "[1:a]volume="@ + ss + "[a1];[2:a]volume="@ + ms + tail, "-map"@,
                "0:v"@, "-map"@, "[outa]"@] + aac + end);
        },
        (None, Some(mic)) => {
            if i.system_audio_embedded {
                assert(args =~= video + seq!["-ss"@, secs_text(w.mic_ss), "-i"@, mic@] + dur + seq![
                    "-filter_complex"@,
                    "[0:a]volume="@ + ss + "[a1];[1:a]volume="@ + ms + tail,
                    "-map"@,
                    "0:v"@,
                    "-map"@,
                    "[outa]"@,
                ] + aac + end);
            } else {
                assert(args =~= video + seq!["-ss"@, secs_text(w.mic_ss), "-i"@, mic@] + dur + seq![
                    "-filter_complex"@,
                    "[1:a]volume="@ + ms + "[outa]"@,
                    "-map"@,
                    "0:v"@,
                    "-map"@,
                    "[outa]"@,
                ] + aac + end);
            }
        },
        (None, None) => {
            assert(args =~= video + dur + seq!["-c"@, "copy"@] + end);
        },
    }
}

} // verus!
