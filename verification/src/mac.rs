//! The macOS recorder: its configuration and state, and the choice and tuning of
//! a VideoToolbox (or software) encoder from FFmpeg's encoder list.
use vstd::prelude::*;

use crate::ffmpeg_args::{args_view, ArgList, Args};
use crate::text::{decimal, contains_seq, lowercase, str_contains, string_of, strings_of, strings_view, trimmed, words_of};

verus! {

/// Configuration of the macOS recorder.
#[derive(Debug)]
pub struct MacRecordingConfig {
    pub fps: u32,
    /// Video bitrate (bit/s).
    pub bitrate: u32,
    pub resolution: (u32, u32),
    pub display_id: u32,
    pub output_dir: String,
    pub audio_enabled: bool,
    pub use_hardware_encoding: bool,
}

impl Default for MacRecordingConfig {
    fn default() -> (c: Self)
        ensures
            c.fps == 60,
            c.bitrate == 15_000_000,
            c.resolution == (1920u32, 1080u32),
            c.display_id == 0,
            c.output_dir@ == "./recordings"@,
            !c.audio_enabled,
            c.use_hardware_encoding,
    {
        MacRecordingConfig {
            fps: 60,
            bitrate: 15_000_000,
            resolution: (1920, 1080),
            display_id: 0,
            output_dir: string_of("./recordings"),
            audio_enabled: false,
            use_hardware_encoding: true,
        }
    }
}

/// State of the macOS recorder.
#[derive(Clone, Copy, Debug, PartialEq, Eq, Structural)]
pub enum MacRecordingStatus {
    Idle,
    Preparing,
    Capturing,
    Encoding,
    Error,
}

impl Default for MacRecordingStatus {
    fn default() -> (s: Self)
        ensures
            s == MacRecordingStatus::Idle,
    {
        MacRecordingStatus::Idle
    }
}

/// Why the recorder refused a start or a stop.
#[derive(Clone, Copy, Debug, PartialEq, Eq, Structural)]
pub enum MacRecordingError {
    /// "Recording already in progress".
    AlreadyRecording,
    /// "No recording in progress".
    NotRecording,
}

/// A start is accepted only when idle; the recorder then prepares.
pub fn begin_start(status: MacRecordingStatus) -> (r: Result<MacRecordingStatus, MacRecordingError>)
    ensures
        status == MacRecordingStatus::Idle ==> r == Ok::<MacRecordingStatus, MacRecordingError>(MacRecordingStatus::Preparing),
        status != MacRecordingStatus::Idle ==> r == Err::<MacRecordingStatus, MacRecordingError>(MacRecordingError::AlreadyRecording),
{
    if status == MacRecordingStatus::Idle {
        Ok(MacRecordingStatus::Preparing)
    } else {
        Err(MacRecordingError::AlreadyRecording)
    }
}

/// A stop is accepted unless idle; the recorder then encodes.
pub fn begin_stop(status: MacRecordingStatus) -> (r: Result<MacRecordingStatus, MacRecordingError>)
    ensures
        status != MacRecordingStatus::Idle ==> r == Ok::<MacRecordingStatus, MacRecordingError>(MacRecordingStatus::Encoding),
        status == MacRecordingStatus::Idle ==> r == Err::<MacRecordingStatus, MacRecordingError>(MacRecordingError::NotRecording),
{
    if status != MacRecordingStatus::Idle {
        Ok(MacRecordingStatus::Encoding)
    } else {
        Err(MacRecordingError::NotRecording)
    }
}

/// An FFmpeg video encoder usable on macOS.
#[derive(Clone, Debug)]
pub struct MacFFmpegEncoder {
    pub name: String,
    pub encoder: String,
    pub pixel_format: String,
    pub preset: Option<String>,
    pub tune: Option<String>,
    pub profile: Option<String>,
    pub level: Option<String>,
    pub is_hardware: bool,
    pub supports_b_frames: bool,
}

/// Audio settings of a capture.
#[derive(Clone, Copy, Debug, PartialEq, Eq, Structural)]
pub struct AudioParameters {
    pub sample_rate: u32,
    pub channels: u32,
    /// Bitrate (bit/s).
    pub bitrate: u32,
    pub enabled: bool,
}

/// What an encoding is for.
#[derive(Clone, Copy, Debug, PartialEq, Eq, Structural)]
pub enum FFmpegUseCase {
    RealTimeRecording,
    HighQualityEncoding,
    LowLatencyStreaming,
}

/// An FFmpeg configuration for macOS capture.
#[derive(Clone, Debug)]
pub struct MacFFmpegConfig {
    pub input_format: String,
    pub video_encoder: MacFFmpegEncoder,
    pub audio_encoder: String,
    pub container_format: String,
    pub mov_flags: Vec<String>,
    pub additional_args: Vec<String>,
}

pub open spec fn opt_view(o: Option<String>) -> Option<Seq<char>> {
    match o {
        Some(s) => Some(s@),
        None => None,
    }
}

/// An encoder as plain values: (name, encoder, pixel format, preset, tune, profile,
/// level, hardware, B-frames).
pub open spec fn encoder_view(e: MacFFmpegEncoder) -> (
    Seq<char>,
    Seq<char>,
    Seq<char>,
    Option<Seq<char>>,
    Option<Seq<char>>,
    Option<Seq<char>>,
    Option<Seq<char>>,
    bool,
    bool,
) {
    (e.name@, e.encoder@, e.pixel_format@, opt_view(e.preset), opt_view(e.tune), opt_view(e.profile), opt_view(
        e.level,
    ), e.is_hardware, e.supports_b_frames)
}


/// The default encoder: VideoToolbox H.264.
pub open spec fn videotoolbox_h264() -> (
    Seq<char>,
    Seq<char>,
    Seq<char>,
    Option<Seq<char>>,
    Option<Seq<char>>,
    Option<Seq<char>>,
    Option<Seq<char>>,
    bool,
    bool,
) {
    ("VideoToolbox"@, "h264_videotoolbox"@, "nv12"@, Some("medium"@), None, Some("high"@), Some("4.0"@), true, true)
}

impl Default for MacFFmpegConfig {
    fn default() -> (c: Self)
        ensures
            c.input_format@ == "avfoundation"@,
            encoder_view(c.video_encoder) == videotoolbox_h264(),
            c.audio_encoder@ == "aac"@,
            c.container_format@ == "mp4"@,
            strings_view(c.mov_flags@) == seq!["+faststart"@, "use_metadata_tags"@],
            strings_view(c.additional_args@) == seq!["-threads"@, "0"@, "-async"@, "1"@],
    {
        let flags = strings_of(&["+faststart", "use_metadata_tags"]);
        let args = strings_of(&["-threads", "0", "-async", "1"]);
        proof {
            assert(strings_view(flags@) =~= seq!["+faststart"@, "use_metadata_tags"@]);
            assert(strings_view(args@) =~= seq!["-threads"@, "0"@, "-async"@, "1"@]);
        }
        MacFFmpegConfig {
            input_format: string_of("avfoundation"),
            video_encoder: MacFFmpegEncoder {
                name: string_of("VideoToolbox"),
                encoder: string_of("h264_videotoolbox"),
                pixel_format: string_of("nv12"),
                preset: Some(string_of("medium")),
                tune: None,
                profile: Some(string_of("high")),
                level: Some(string_of("4.0")),
                is_hardware: true,
                supports_b_frames: true,
            },
            audio_encoder: string_of("aac"),
            container_format: string_of("mp4"),
            mov_flags: flags,
            additional_args: args,
        }
    }
}

/// Whether an encoder line names a macOS encoder, from the encoder name and the
/// lower-cased description.
pub open spec fn macos_encoder_spec(name: Seq<char>, lowered_description: Seq<char>) -> bool {
    contains_seq(name, "videotoolbox"@) || contains_seq(name, "audiotoolbox"@) || contains_seq(
        lowered_description,
        "videotoolbox"@,
    ) || contains_seq(lowered_description, "apple"@)
}

/// Whether an encoder is a macOS one, given its lower-cased description.
pub fn macos_encoder_match(encoder_name: &str, lowered_description: &str) -> (r: bool)
    ensures
        r == macos_encoder_spec(encoder_name@, lowered_description@),
{
    str_contains(encoder_name, "videotoolbox") || str_contains(encoder_name, "audiotoolbox") || str_contains(
        lowered_description,
        "videotoolbox",
    ) || str_contains(lowered_description, "apple")
}

/// Whether an encoder is a macOS one (VideoToolbox, AudioToolbox or Apple).
pub fn is_macos_encoder(encoder_name: &str, description: &str) -> (r: bool)
    ensures
        r == macos_encoder_spec(encoder_name@, lowercase(description@)),
{
    let lowered = crate::text::to_lowercase(description);
    macos_encoder_match(encoder_name, lowered.as_str())
}

/// The encoder description of an FFmpeg encoder line.
pub open spec fn encoder_info_spec(name: Seq<char>, description: Seq<char>) -> (
    Seq<char>,
    Seq<char>,
    Seq<char>,
    Option<Seq<char>>,
    Option<Seq<char>>,
    Option<Seq<char>>,
    Option<Seq<char>>,
    bool,
    bool,
) {
    let is_h264 = contains_seq(name, "h264"@) || contains_seq(description, "H.264"@);
    let is_hardware = contains_seq(name, "videotoolbox"@);
    (
        description,
        name,
        if is_hardware { "nv12"@ } else { "yuv420p"@ },
        Some("medium"@),
        if is_h264 { Some("zerolatency"@) } else { None },
        Some(if is_h264 { "high"@ } else { "main"@ }),
        Some("4.0"@),
        is_hardware,
        !contains_seq(name, "baseline"@),
    )
}

/// The encoder described by an FFmpeg encoder line: VideoToolbox encoders take nv12
/// frames; H.264 gets the high profile and zero-latency tuning, others the main profile.
pub fn create_encoder_info(encoder_name: &str, description: &str) -> (e: MacFFmpegEncoder)
    ensures
        encoder_view(e) == encoder_info_spec(encoder_name@, description@),
{
    let is_h264 = str_contains(encoder_name, "h264") || str_contains(description, "H.264");
    let is_hardware = str_contains(encoder_name, "videotoolbox");
    MacFFmpegEncoder {
        name: string_of(description),
        encoder: string_of(encoder_name),
        pixel_format: if is_hardware { string_of("nv12") } else { string_of("yuv420p") },
        preset: Some(string_of("medium")),
        tune: if is_h264 { Some(string_of("zerolatency")) } else { None },
        profile: Some(if is_h264 { string_of("high") } else { string_of("main") }),
        level: Some(string_of("4.0")),
        is_hardware,
        supports_b_frames: !str_contains(encoder_name, "baseline"),
    }
}

/// Words joined with single spaces.
pub open spec fn joined_words(w: Seq<Seq<char>>) -> Seq<char>
    decreases w.len(),
{
    if w.len() == 0 {
        Seq::empty()
    } else if w.len() == 1 {
        w[0]
    } else {
        joined_words(w.drop_last()) + " "@ + w.last()
    }
}

/// An encoder line worth reading: not blank and not the `----` separator; its second
/// word is the encoder, the words from the third on its description.
pub open spec fn encoder_line(line: Seq<char>) -> bool {
    trimmed(line).len() > 0 && !crate::text::starts_with_seq(line, "----"@) && words_of(line).len() >= 3
}

/// The encoders that a listing of lines yields, before the software fallbacks.
pub open spec fn listed_encoders(lines: Seq<Seq<char>>) -> Seq<(Seq<char>, Seq<char>)>
    decreases lines.len(),
{
    if lines.len() == 0 {
        Seq::empty()
    } else {
        let pre = listed_encoders(lines.drop_last());
        let l = lines.last();
        if encoder_line(l) {
            let w = words_of(l);
            let name = w[1];
            let description = joined_words(w.skip(2));
            if macos_encoder_spec(name, lowercase(description)) {
                pre.push((name, description))
            } else {
                pre
            }
        } else {
            pre
        }
    }
}

/// The software encoders always offered after the listed ones.
pub open spec fn software_encoders() -> Seq<
    (Seq<char>, Seq<char>, Seq<char>, Option<Seq<char>>, Option<Seq<char>>, Option<Seq<char>>, Option<Seq<char>>, bool, bool),
> {
    seq![
        ("libx264"@, "libx264"@, "yuv420p"@, Some("medium"@), None, Some("high"@), Some("4.0"@), false, true),
        ("libx265"@, "libx265"@, "yuv420p"@, Some("medium"@), None, Some("main"@), Some("5.0"@), false, true),
    ]
}

fn join_words(w: &Vec<String>, from: usize) -> (s: String)
    requires
        from <= w@.len(),
    ensures
        s@ == joined_words(strings_view(w@).skip(from as int)),
{
    let mut s = String::new();
    let mut i: usize = from;
    proof {
        assert(strings_view(w@).skip(from as int).take(0) =~= Seq::<Seq<char>>::empty());
    }
    while i < w.len()
        invariant
            from <= i <= w@.len(),
            s@ == joined_words(strings_view(w@).skip(from as int).take(i - from)),
        decreases w@.len() - i,
    {
        let ghost ws = strings_view(w@).skip(from as int);
        proof {
            assert(ws.take(i - from + 1).drop_last() =~= ws.take(i - from));
            assert(ws.take(i - from + 1).last() == w@[i as int]@);
        }
        if i > from {
            crate::text::append_str(&mut s, " ");
        }
        crate::text::append_str(&mut s, w[i].as_str());
        proof {
            if i == from {
                assert(ws.take(1)[0] == w@[i as int]@);
                assert(s@ =~= joined_words(ws.take(1)));
            } else {
                assert(s@ =~= joined_words(ws.take(i - from + 1)));
            }
        }
        i = i + 1;
    }
    proof {
        assert(strings_view(w@).skip(from as int).take(w@.len() - from) =~= strings_view(w@).skip(from as int));
    }
    s
}

fn software_encoder(x265: bool) -> (e: MacFFmpegEncoder)
    ensures
        encoder_view(e) == software_encoders()[if x265 { 1int } else { 0int }],
{
    if x265 {
        MacFFmpegEncoder {
            name: string_of("libx265"),
            encoder: string_of("libx265"),
            pixel_format: string_of("yuv420p"),
            preset: Some(string_of("medium")),
            tune: None,
            profile: Some(string_of("main")),
            level: Some(string_of("5.0")),
            is_hardware: false,
            supports_b_frames: true,
        }
    } else {
        MacFFmpegEncoder {
            name: string_of("libx264"),
            encoder: string_of("libx264"),
            pixel_format: string_of("yuv420p"),
            preset: Some(string_of("medium")),
            tune: None,
            profile: Some(string_of("high")),
            level: Some(string_of("4.0")),
            is_hardware: false,
            supports_b_frames: true,
        }
    }
}

/// The macOS encoders of FFmpeg's `-encoders` listing, then the libx264 and libx265
/// software encoders.
pub fn parse_macos_encoders(output: &str) -> (r: Vec<MacFFmpegEncoder>)
    ensures
        r@.map_values(|e: MacFFmpegEncoder| encoder_view(e)) == listed_encoders(crate::text::lines_of(output@)).map_values(
            |p: (Seq<char>, Seq<char>)| encoder_info_spec(p.0, p.1),
        ) + software_encoders(),
{
    let ls = crate::text::lines(output);
    let ghost lv = crate::text::lines_of(output@);
    let mut encoders: Vec<MacFFmpegEncoder> = Vec::new();
    let mut i: usize = 0;
    while i < ls.len()
        invariant
            i <= ls@.len(),
            ls@.map_values(|l: String| l@) == lv,
            encoders@.map_values(|e: MacFFmpegEncoder| encoder_view(e)) == listed_encoders(lv.take(i as int)).map_values(
                |p: (Seq<char>, Seq<char>)| encoder_info_spec(p.0, p.1),
            ),
        decreases ls@.len() - i,
    {
        let line = ls[i].as_str();
        proof {
            assert(lv.take(i + 1).drop_last() =~= lv.take(i as int));
            assert(lv.take(i + 1).last() == line@);
        }
        let ghost before = encoders@;
        let t = crate::text::trim(line);
        if !t.as_str().is_empty() && !crate::text::str_starts_with(line, "----") {
            let parts = crate::text::split_whitespace(line);
            if parts.len() >= 3 {
                let name = parts[1].as_str();
                let description = join_words(&parts, 2);
                proof {
                    assert(strings_view(parts@)[1] == parts@[1]@);
                }
                if is_macos_encoder(name, description.as_str()) {
                    let e = create_encoder_info(name, description.as_str());
                    encoders.push(e);
                    proof {
                        assert(encoders@.map_values(|e: MacFFmpegEncoder| encoder_view(e)) =~= before.map_values(
                            |e: MacFFmpegEncoder| encoder_view(e),
                        ).push(encoder_view(e)));
                    }
                }
            }
        }
        i = i + 1;
    }
    proof {
        assert(lv.take(ls@.len() as int) =~= lv);
    }
    let ghost listed = encoders@;
    let a = software_encoder(false);
    encoders.push(a);
    let b = software_encoder(true);
    encoders.push(b);
    proof {
        assert(encoders@.map_values(|e: MacFFmpegEncoder| encoder_view(e)) =~= listed.map_values(
            |e: MacFFmpegEncoder| encoder_view(e),
        ) + software_encoders());
    }
    encoders
}

/// The index of the encoder to record with: the first hardware one, else the first.
pub fn select_encoder(encoders: &Vec<MacFFmpegEncoder>) -> (r: Option<usize>)
    ensures
        encoders@.len() == 0 <==> r is None,
        r matches Some(i) ==> (i < encoders@.len() && ((encoders@[i as int].is_hardware && forall|j: int|
            0 <= j < i ==> !#[trigger] encoders@[j].is_hardware) || (i == 0 && forall|j: int|
            0 <= j < encoders@.len() ==> !#[trigger] encoders@[j].is_hardware))),
{
    let mut i: usize = 0;
    while i < encoders.len()
        invariant
            i <= encoders@.len(),
            forall|j: int| 0 <= j < i ==> !#[trigger] encoders@[j].is_hardware,
        decreases encoders@.len() - i,
    {
        if encoders[i].is_hardware {
            return Some(i);
        }
        i = i + 1;
    }
    if encoders.len() > 0 {
        Some(0)
    } else {
        None
    }
}

/// The use case the recorder tunes its encoder for.
pub fn recording_use_case(use_hardware_encoding: bool) -> (u: FFmpegUseCase)
    ensures
        u == (if use_hardware_encoding { FFmpegUseCase::RealTimeRecording } else { FFmpegUseCase::HighQualityEncoding }),
{
    if use_hardware_encoding { FFmpegUseCase::RealTimeRecording } else { FFmpegUseCase::HighQualityEncoding }
}

fn copy_opt(o: &Option<String>) -> (r: Option<String>)
    ensures
        opt_view(r) == opt_view(*o),
{
    match o {
        Some(s) => Some(s.clone()),
        None => None,
    }
}

fn copy_encoder(e: &MacFFmpegEncoder) -> (r: MacFFmpegEncoder)
    ensures
        encoder_view(r) == encoder_view(*e),
{
    MacFFmpegEncoder {
        name: e.name.clone(),
        encoder: e.encoder.clone(),
        pixel_format: e.pixel_format.clone(),
        preset: copy_opt(&e.preset),
        tune: copy_opt(&e.tune),
        profile: copy_opt(&e.profile),
        level: copy_opt(&e.level),
        is_hardware: e.is_hardware,
        supports_b_frames: e.supports_b_frames,
    }
}

/// The preset a use case asks for.
pub open spec fn use_case_preset(u: FFmpegUseCase) -> Seq<char> {
    match u {
        FFmpegUseCase::RealTimeRecording => "veryfast"@,
        FFmpegUseCase::HighQualityEncoding => "slow"@,
        FFmpegUseCase::LowLatencyStreaming => "ultrafast"@,
    }
}

/// The tune after tuning for a use case.
pub open spec fn use_case_tune(e: MacFFmpegEncoder, u: FFmpegUseCase) -> Option<Seq<char>> {
    match u {
        FFmpegUseCase::RealTimeRecording => if e.is_hardware { Some("zerolatency"@) } else { opt_view(e.tune) },
        FFmpegUseCase::HighQualityEncoding => opt_view(e.tune),
        FFmpegUseCase::LowLatencyStreaming => Some("zerolatency"@),
    }
}

/// The arguments a use case adds after the defaults.
pub open spec fn use_case_args(u: FFmpegUseCase) -> Seq<Seq<char>> {
    match u {
        FFmpegUseCase::RealTimeRecording => seq!["-async"@, "1"@],
        FFmpegUseCase::HighQualityEncoding => seq!["-crf"@, "18"@],
        FFmpegUseCase::LowLatencyStreaming => seq!["-x264opts"@, "no-scenecut"@, "-tune"@, "zerolatency"@],
    }
}

/// The default configuration with the given encoder, tuned for a use case: its preset,
/// zero-latency tuning for real-time hardware and low-latency streaming, and the extra
/// arguments of the use case.
pub fn optimize_ffmpeg_params(encoder: &MacFFmpegEncoder, use_case: FFmpegUseCase) -> (c: MacFFmpegConfig)
    ensures
        c.input_format@ == "avfoundation"@,
        c.audio_encoder@ == "aac"@,
        c.container_format@ == "mp4"@,
        strings_view(c.mov_flags@) == seq!["+faststart"@, "use_metadata_tags"@],
        strings_view(c.additional_args@) == seq!["-threads"@, "0"@, "-async"@, "1"@] + use_case_args(use_case),
        ({
            let v = encoder_view(c.video_encoder);
            let o = encoder_view(*encoder);
            &&& v.0 == o.0 && v.1 == o.1 && v.2 == o.2 && v.5 == o.5 && v.6 == o.6 && v.7 == o.7 && v.8 == o.8
            &&& v.3 == Some(use_case_preset(use_case))
            &&& v.4 == use_case_tune(*encoder, use_case)
        }),
{
    let mut config = MacFFmpegConfig::default();
    config.video_encoder = copy_encoder(encoder);
    let ghost before = config.additional_args@;
    match use_case {
        FFmpegUseCase::RealTimeRecording => {
            config.video_encoder.preset = Some(string_of("veryfast"));
            if encoder.is_hardware {
                config.video_encoder.tune = Some(string_of("zerolatency"));
            }
            config.additional_args.push(string_of("-async"));
            config.additional_args.push(string_of("1"));
        },
        FFmpegUseCase::HighQualityEncoding => {
            config.video_encoder.preset = Some(string_of("slow"));
            config.additional_args.push(string_of("-crf"));
            config.additional_args.push(string_of("18"));
        },
        FFmpegUseCase::LowLatencyStreaming => {
            config.video_encoder.preset = Some(string_of("ultrafast"));
            config.video_encoder.tune = Some(string_of("zerolatency"));
            config.additional_args.push(string_of("-x264opts"));
            config.additional_args.push(string_of("no-scenecut"));
            config.additional_args.push(string_of("-tune"));
            config.additional_args.push(string_of("zerolatency"));
        },
    }
    proof {
        assert(strings_view(config.additional_args@) =~= strings_view(before) + use_case_args(use_case));
    }
    config
}

/// The integer video settings of a macOS capture.
#[derive(Clone, Copy, Debug, PartialEq, Eq, Structural)]
pub struct MacVideoArgs {
    pub width: u32,
    pub height: u32,
    /// Video bitrate (bit/s).
    pub bitrate: u32,
    pub gop_size: u32,
    pub max_b_frames: u32,
}

/// `flag` before each value.
pub open spec fn paired(flag: Seq<char>, xs: Seq<Seq<char>>) -> Args
    decreases xs.len(),
{
    if xs.len() == 0 {
        Seq::empty()
    } else {
        paired(flag, xs.drop_last()) + seq![flag, xs.last()]
    }
}

/// `flag` and the value, when there is one.
pub open spec fn opt_flag(flag: Seq<char>, v: Option<String>) -> Args {
    match v {
        Some(x) => seq![flag, x@],
        None => Seq::empty(),
    }
}

/// Input format, frame rate, size and pixel format.
pub open spec fn mac_head(c: MacFFmpegConfig, v: MacVideoArgs, fps_text: Seq<char>) -> Args {
    seq!["-y"@, "-f"@, c.input_format@, "-framerate"@, fps_text, "-video_size"@, decimal(v.width as nat) + "x"@
        + decimal(v.height as nat), "-pixel_format"@, c.video_encoder.pixel_format@]
}

/// The stream map: the video, and the audio when there is an audio input.
pub open spec fn mac_map(inputs: Seq<String>, a: AudioParameters) -> Args {
    if inputs.len() > 1 && a.enabled {
        seq!["-map"@, "0:v:0"@, "-map"@, "1:a?"@]
    } else {
        seq!["-map"@, "0:v:0"@]
    }
}

/// The encoder and its options.
pub open spec fn mac_encoder(e: MacFFmpegEncoder) -> Args {
    seq!["-c:v"@, e.encoder@] + opt_flag("-preset"@, e.preset) + opt_flag("-tune"@, e.tune) + opt_flag(
        "-profile:v"@,
        e.profile,
    ) + opt_flag("-level:v"@, e.level)
}

/// The rates and the GOP, then B-frames when the encoder has them.
pub open spec fn mac_rates(e: MacFFmpegEncoder, v: MacVideoArgs, maxrate_text: Seq<char>, bufsize_text: Seq<char>) -> Args {
    seq!["-b:v"@, decimal((v.bitrate / 1_000_000) as nat) + "M"@, "-maxrate"@, maxrate_text + "M"@, "-bufsize"@,
        bufsize_text + "M"@, "-g"@, decimal(v.gop_size as nat)] + (if e.supports_b_frames {
        seq!["-bf"@, decimal(v.max_b_frames as nat)]
    } else {
        Seq::empty()
    })
}

/// The audio encoding, when audio is on.
pub open spec fn mac_audio(c: MacFFmpegConfig, a: AudioParameters) -> Args {
    if a.enabled {
        seq!["-c:a"@, c.audio_encoder@, "-b:a"@, decimal((a.bitrate / 1_000) as nat) + "k"@, "-ar"@, decimal(
            a.sample_rate as nat,
        ), "-ac"@, decimal(a.channels as nat)]
    } else {
        Seq::empty()
    }
}

/// The container, its flags, the extra arguments and the output.
pub open spec fn mac_tail(c: MacFFmpegConfig, output_path: Seq<char>) -> Args {
    seq!["-f"@, c.container_format@] + paired("-movflags"@, strings_view(c.mov_flags@)) + strings_view(
        c.additional_args@,
    ) + seq![output_path]
}

/// The FFmpeg arguments of a macOS capture. The frame rate and the peak and buffer
/// rates (in Mbit/s) come as text.
pub open spec fn mac_args_spec(
    c: MacFFmpegConfig,
    inputs: Seq<String>,
    v: MacVideoArgs,
    fps_text: Seq<char>,
    maxrate_text: Seq<char>,
    bufsize_text: Seq<char>,
    a: AudioParameters,
    output_path: Seq<char>,
) -> Args {
    mac_head(c, v, fps_text) + paired("-i"@, strings_view(inputs)) + mac_map(inputs, a) + mac_encoder(c.video_encoder)
        + mac_rates(c.video_encoder, v, maxrate_text, bufsize_text) + mac_audio(c, a) + mac_tail(c, output_path)
}

fn add_paired(a: &mut ArgList, flag: &str, xs: &Vec<String>)
    ensures
        final(a).view() == old(a).view() + paired(flag@, strings_view(xs@)),
{
    let mut i: usize = 0;
    while i < xs.len()
        invariant
            i <= xs@.len(),
            a.view() == old(a).view() + paired(flag@, strings_view(xs@.take(i as int))),
        decreases xs@.len() - i,
    {
        proof {
            assert(strings_view(xs@.take(i + 1)).drop_last() =~= strings_view(xs@.take(i as int)));
            assert(strings_view(xs@.take(i + 1)).last() == xs@[i as int]@);
        }
        a.lit(flag);
        a.push(xs[i].clone());
        proof {
            assert(a.view() =~= old(a).view() + paired(flag@, strings_view(xs@.take(i + 1))));
        }
        i = i + 1;
    }
    proof {
        assert(xs@.take(xs@.len() as int) =~= xs@);
    }
}

fn add_opt(a: &mut ArgList, flag: &str, v: &Option<String>)
    ensures
        final(a).view() == old(a).view() + opt_flag(flag@, *v),
{
    match v {
        Some(x) => {
            a.lit(flag);
            a.push(x.clone());
            proof {
                assert(a.view() =~= old(a).view() + opt_flag(flag@, *v));
            }
        },
        None => {
            proof {
                assert(a.view() =~= old(a).view() + opt_flag(flag@, *v));
            }
        },
    }
}

fn add_all(a: &mut ArgList, xs: &Vec<String>)
    ensures
        final(a).view() == old(a).view() + strings_view(xs@),
{
    let mut i: usize = 0;
    while i < xs.len()
        invariant
            i <= xs@.len(),
            a.view() == old(a).view() + strings_view(xs@.take(i as int)),
        decreases xs@.len() - i,
    {
        a.push(xs[i].clone());
        proof {
            assert(strings_view(xs@.take(i + 1)) =~= strings_view(xs@.take(i as int)).push(xs@[i as int]@));
            assert(a.view() =~= old(a).view() + strings_view(xs@.take(i + 1)));
        }
        i = i + 1;
    }
    proof {
        assert(xs@.take(xs@.len() as int) =~= xs@);
    }
}

fn add_mac_head(a: &mut ArgList, config: &MacFFmpegConfig, video: &MacVideoArgs, fps_text: &str)
    ensures
        final(a).view() == old(a).view() + mac_head(*config, *video, fps_text@),
{
    a.lit("-y");
    a.lit("-f");
    a.push(config.input_format.clone());
    a.lit("-framerate");
    a.lit(fps_text);
    a.lit("-video_size");
    a.size(video.width, video.height);
    a.lit("-pixel_format");
    a.push(config.video_encoder.pixel_format.clone());
    proof {
        assert(a.view() =~= old(a).view() + mac_head(*config, *video, fps_text@));
    }
}

fn add_mac_map(a: &mut ArgList, inputs: &Vec<String>, audio: &AudioParameters)
    ensures
        final(a).view() == old(a).view() + mac_map(inputs@, *audio),
{
    if inputs.len() > 1 && audio.enabled {
        a.lit("-map");
        a.lit("0:v:0");
        a.lit("-map");
        a.lit("1:a?");
    } else {
        a.lit("-map");
        a.lit("0:v:0");
    }
    proof {
        assert(a.view() =~= old(a).view() + mac_map(inputs@, *audio));
    }
}

fn add_mac_encoder(a: &mut ArgList, e: &MacFFmpegEncoder)
    ensures
        final(a).view() == old(a).view() + mac_encoder(*e),
{
    a.lit("-c:v");
    a.push(e.encoder.clone());
    let ghost p0 = a.view();
    add_opt(a, "-preset", &e.preset);
    add_opt(a, "-tune", &e.tune);
    add_opt(a, "-profile:v", &e.profile);
    add_opt(a, "-level:v", &e.level);
    proof {
        assert(p0 =~= old(a).view() + seq!["-c:v"@, e.encoder@]);
        assert(a.view() =~= old(a).view() + mac_encoder(*e));
    }
}

fn add_mac_rates(a: &mut ArgList, e: &MacFFmpegEncoder, video: &MacVideoArgs, maxrate_text: &str, bufsize_text: &str)
    ensures
        final(a).view() == old(a).view() + mac_rates(*e, *video, maxrate_text@, bufsize_text@),
{
    a.lit("-b:v");
    a.num_with((video.bitrate / 1_000_000) as u64, "M");
    a.lit("-maxrate");
    a.prefixed(maxrate_text, "M");
    a.lit("-bufsize");
    a.prefixed(bufsize_text, "M");
    a.lit("-g");
    a.num(video.gop_size as u64);
    if e.supports_b_frames {
        a.lit("-bf");
        a.num(video.max_b_frames as u64);
    }
    proof {
        assert(a.view() =~= old(a).view() + mac_rates(*e, *video, maxrate_text@, bufsize_text@));
    }
}

fn add_mac_audio(a: &mut ArgList, config: &MacFFmpegConfig, audio: &AudioParameters)
    ensures
        final(a).view() == old(a).view() + mac_audio(*config, *audio),
{
    if audio.enabled {
        a.lit("-c:a");
        a.push(config.audio_encoder.clone());
        a.lit("-b:a");
        a.num_with((audio.bitrate / 1_000) as u64, "k");
        a.lit("-ar");
        a.num(audio.sample_rate as u64);
        a.lit("-ac");
        a.num(audio.channels as u64);
    }
    proof {
        assert(a.view() =~= old(a).view() + mac_audio(*config, *audio));
    }
}

fn add_mac_tail(a: &mut ArgList, config: &MacFFmpegConfig, output_path: &str)
    ensures
        final(a).view() == old(a).view() + mac_tail(*config, output_path@),
{
    a.lit("-f");
    a.push(config.container_format.clone());
    let ghost p0 = a.view();
    add_paired(a, "-movflags", &config.mov_flags);
    add_all(a, &config.additional_args);
    a.lit(output_path);
    proof {
        assert(p0 =~= old(a).view() + seq!["-f"@, config.container_format@]);
        assert(a.view() =~= old(a).view() + mac_tail(*config, output_path@));
    }
}

/// The FFmpeg arguments of a macOS capture: input format, frame rate and size,
/// the inputs, the stream map, the encoder and its options, the rates, the GOP,
/// B-frames when the encoder has them, the audio encoding when audio is on, the
/// container and its flags, the extra arguments, and the output.
pub fn mac_command_args(
    config: &MacFFmpegConfig,
    inputs: &Vec<String>,
    video: &MacVideoArgs,
    fps_text: &str,
    maxrate_text: &str,
    bufsize_text: &str,
    audio: &AudioParameters,
    output_path: &str,
) -> (args: Vec<String>)
    ensures
        args_view(args@) == mac_args_spec(
            *config,
            inputs@,
            *video,
            fps_text@,
            maxrate_text@,
            bufsize_text@,
            *audio,
            output_path@,
        ),
{
    let mut a = ArgList::new();
    add_mac_head(&mut a, config, video, fps_text);
    add_paired(&mut a, "-i", inputs);
    add_mac_map(&mut a, inputs, audio);
    add_mac_encoder(&mut a, &config.video_encoder);
    add_mac_rates(&mut a, &config.video_encoder, video, maxrate_text, bufsize_text);
    add_mac_audio(&mut a, config, audio);
    add_mac_tail(&mut a, config, output_path);
    proof {
        assert(a.view() =~= mac_args_spec(
            *config,
            inputs@,
            *video,
            fps_text@,
            maxrate_text@,
            bufsize_text@,
            *audio,
            output_path@,
        ));
    }
    a.v
}

} // verus!
