//! What the recorder's commands decide: when a start, a stop or a replay save
//! may go ahead, the status shown to the user, the target a replay follows, the
//! encoders offered, the disk usage summary and the files a cleanup removes.
use vstd::prelude::*;

use crate::encoding::RecordingStatus;
use crate::game_monitor::{GameMode, UnifiedGameStatus};
use crate::lifecycle::{date_stamp_format, format_utc, utc_formatted, CaptureStopOutcome, GameMetadata, LiveClientBasicInfo};
use crate::readiness::{
    issue_view, joined_blockers, readiness_blocker_message, validate_replay_target_selection, RecordingReadiness,
    RecordingReadinessIssue, ReplayTargetCandidateStatus, ReplayTargetCandidates, ReplayTargetError,
};
use crate::text::{
    append_str, ascii_lower_seq, strings_of, byte_len, contains_seq, lowercase, str_contains, str_eq, string_of, to_ascii_lowercase,
    trim, trimmed, utf8_len,
};

verus! {

/// The recorder is capturing (recording, or filling its replay buffer).
pub open spec fn is_running(s: RecordingStatus) -> bool {
    s == RecordingStatus::Recording || s == RecordingStatus::Buffering
}

/// Whether the recorder is capturing.
pub fn recorder_is_running(status: RecordingStatus) -> (r: bool)
    ensures
        r == is_running(status),
{
    matches!(status, RecordingStatus::Recording) || matches!(status, RecordingStatus::Buffering)
}

/// The error that refuses a start while something blocks recording:
/// "Recording readiness blockers: " and every blocker; `None` when nothing blocks.
pub fn start_refusal(readiness: &RecordingReadiness) -> (r: Option<String>)
    ensures
        readiness.blockers@.len() == 0 <==> r is None,
        r matches Some(s) ==> s@ == "Recording readiness blockers: "@ + joined_blockers(
            readiness.blockers@.map_values(|i: RecordingReadinessIssue| issue_view(i)),
        ),
{
    match readiness_blocker_message(readiness) {
        None => None,
        Some(m) => {
            let mut s = string_of("Recording readiness blockers: ");
            append_str(&mut s, m.as_str());
            Some(s)
        },
    }
}

/// Whether the recorder is still capturing after a stop: only when the stop
/// failed and the recorder then reports that it captures.
pub fn still_recording_after_stop(stop_succeeded: bool, status_after: RecordingStatus) -> (r: bool)
    ensures
        r == (!stop_succeeded && is_running(status_after)),
{
    !stop_succeeded && recorder_is_running(status_after)
}

/// The first failure of a capture stop, taken in the order the steps ran: event
/// monitoring, then the recorder, then the game's metadata.
pub fn stop_outcome_result(outcome: CaptureStopOutcome) -> (r: Result<(), String>)
    ensures
        match outcome.event_monitoring {
            Err(e) => r == Err::<(), String>(e),
            Ok(_) => match outcome.recording_stopped {
                Err(e) => r == Err::<(), String>(e),
                Ok(_) => match outcome.finalized {
                    Err(e) => r == Err::<(), String>(e),
                    Ok(_) => r is Ok,
                },
            },
        },
{
    match outcome.event_monitoring {
        Err(e) => return Err(e),
        Ok(_) => {},
    }
    match outcome.recording_stopped {
        Err(e) => return Err(e),
        Ok(_) => {},
    }
    match outcome.finalized {
        Err(e) => Err(e),
        Ok(_) => Ok(()),
    }
}

/// Shortest replay that can be saved (s).
pub const MIN_REPLAY_SECS: u32 = 1;
/// Longest replay that can be saved (s).
pub const MAX_REPLAY_SECS: u32 = 300;

/// Why a replay cannot be saved.
#[derive(Clone, Copy, Debug, PartialEq, Eq, Structural)]
pub enum SaveReplayRefusal {
    /// The requested length is outside 1 to 300 seconds.
    DurationOutOfRange,
    /// The recorder is not capturing; holds its status.
    NotCapturing(RecordingStatus),
}

/// The name of a status as `{:?}` writes it.
pub open spec fn status_debug_name(s: RecordingStatus) -> Seq<char> {
    match s {
        RecordingStatus::Idle => "Idle"@,
        RecordingStatus::Buffering => "Buffering"@,
        RecordingStatus::Recording => "Recording"@,
        RecordingStatus::Processing => "Processing"@,
        RecordingStatus::Error => "Error"@,
    }
}

fn debug_name(s: RecordingStatus) -> (r: &'static str)
    ensures
        r@ == status_debug_name(s),
{
    match s {
        RecordingStatus::Idle => "Idle",
        RecordingStatus::Buffering => "Buffering",
        RecordingStatus::Recording => "Recording",
        RecordingStatus::Processing => "Processing",
        RecordingStatus::Error => "Error",
    }
}

impl SaveReplayRefusal {
    /// The message shown to the user.
    pub fn message(&self) -> (s: String)
        ensures
            s@ == match *self {
                SaveReplayRefusal::DurationOutOfRange => "duration_secs must be between 1 and 300"@,
                SaveReplayRefusal::NotCapturing(st) => "Cannot save replay while recorder is "@ + status_debug_name(st)
                    + "; start recording and wait for buffering first"@,
            },
    {
        match *self {
            SaveReplayRefusal::DurationOutOfRange => string_of("duration_secs must be between 1 and 300"),
            SaveReplayRefusal::NotCapturing(st) => {
                let mut s = string_of("Cannot save replay while recorder is ");
                append_str(&mut s, debug_name(st));
                append_str(&mut s, "; start recording and wait for buffering first");
                s
            },
        }
    }
}

/// A replay of `duration_secs` may be saved when the length is within 1 to 300
/// seconds and the recorder is capturing; the length is checked first.
pub fn check_save_replay(duration_secs: u32, status: RecordingStatus) -> (r: Result<(), SaveReplayRefusal>)
    ensures
        !(MIN_REPLAY_SECS <= duration_secs <= MAX_REPLAY_SECS) ==> r == Err::<(), SaveReplayRefusal>(
            SaveReplayRefusal::DurationOutOfRange,
        ),
        MIN_REPLAY_SECS <= duration_secs <= MAX_REPLAY_SECS && !is_running(status) ==> r == Err::<
            (),
            SaveReplayRefusal,
        >(SaveReplayRefusal::NotCapturing(status)),
        MIN_REPLAY_SECS <= duration_secs <= MAX_REPLAY_SECS && is_running(status) ==> r is Ok,
{
    if duration_secs < MIN_REPLAY_SECS || duration_secs > MAX_REPLAY_SECS {
        Err(SaveReplayRefusal::DurationOutOfRange)
    } else if !recorder_is_running(status) {
        Err(SaveReplayRefusal::NotCapturing(status))
    } else {
        Ok(())
    }
}

/// Where a manual clip's highlight is taken to be: three seconds before its end,
/// or its start for a shorter clip (ms).
pub fn manual_clip_offset_ms(measured_duration_ms: u64) -> (r: u64)
    ensures
        r == if measured_duration_ms >= 3000 { measured_duration_ms - 3000 } else { 0 },
{
    measured_duration_ms.saturating_sub(3000)
}

/// The game that a manual clip saved `now_secs` after the UNIX epoch is filed
/// under when no game is being recorded: `manual_` and the UTC date; `None` for a
/// time chrono cannot represent.
pub fn manual_bucket_id(now_secs: i64) -> (id: Option<String>)
    ensures
        match utc_formatted(now_secs as int, date_stamp_format()) {
            Some(date) => id matches Some(s) && s@ == "manual_"@ + date,
            None => id is None,
        },
{
    let format = "%Y%m%d";
    proof {
        reveal_strlit("%Y%m%d");
    }
    match format_utc(now_secs, format) {
        Some(date) => {
            let mut s = string_of("manual_");
            append_str(&mut s, date.as_str());
            Some(s)
        },
        None => None,
    }
}

/// Where a manual clip is filed: the game being recorded, else the day's manual
/// bucket; `None` when neither is known.
pub fn manual_clip_game_id(current_game_id: Option<String>, now_secs: i64) -> (id: Option<String>)
    ensures
        current_game_id is Some ==> id == current_game_id,
        current_game_id is None ==> match utc_formatted(now_secs as int, date_stamp_format()) {
            Some(date) => id matches Some(s) && s@ == "manual_"@ + date,
            None => id is None,
        },
{
    match current_game_id {
        Some(id) => Some(id),
        None => manual_bucket_id(now_secs),
    }
}

/// The metadata of a day's manual bucket, created the first time a clip goes in.
pub fn manual_game_metadata(game_id: String, now_secs: i64) -> (m: GameMetadata)
    ensures
        m.game_id == game_id,
        m.champion@ == "Manual"@,
        m.game_mode@ == "MANUAL"@,
        m.start_time_secs == now_secs,
        m.end_time_secs is None,
        m.result is None,
        m.kda is None,
{
    GameMetadata {
        game_id,
        champion: string_of("Manual"),
        game_mode: string_of("MANUAL"),
        start_time_secs: now_secs,
        end_time_secs: None,
        result: None,
        kda: None,
    }
}

/// The id of a manual clip saved at `now_ms` (ms since the UNIX epoch).
pub fn manual_clip_id(now_ms: i64) -> (id: String)
    ensures
        id@ == "manual_"@ + crate::ffmpeg_args::int_text(now_ms as int),
{
    let mut s = string_of("manual_");
    if now_ms < 0 {
        append_str(&mut s, "-");
        let m: u64 = if now_ms == i64::MIN { 9_223_372_036_854_775_808u64 } else { (-now_ms) as u64 };
        crate::text::push_decimal(&mut s, m);
    } else {
        crate::text::push_decimal(&mut s, now_ms as u64);
    }
    proof {
        reveal_strlit("-");
        assert(s@ =~= "manual_"@ + crate::ffmpeg_args::int_text(now_ms as int));
    }
    s
}

/// The replay target to follow for a summoner name typed by the user: refused
/// when blank or longer than 32 bytes, or when the candidates on offer refuse it;
/// otherwise the trimmed name.
pub fn choose_recording_target(name: &str, readiness: &ReplayTargetCandidates) -> (r: Result<String, ReplayTargetError>)
    ensures
        ({
            let t = trimmed(name@);
            if t.len() == 0 || utf8_len(name@) > 32 {
                r matches Err(ReplayTargetError::BadLength)
            } else {
                match readiness.status {
                    ReplayTargetCandidateStatus::Ready => if exists|i: int|
                        0 <= i < readiness.candidates@.len() && lowercase(
                            #[trigger] readiness.candidates@[i].summoner_name@,
                        ) == lowercase(t) {
                        r matches Ok(s) && s@ == t
                    } else {
                        r matches Err(ReplayTargetError::Stale(s)) && s@ == t
                    },
                    ReplayTargetCandidateStatus::Empty => r matches Err(ReplayTargetError::NoCandidates),
                    _ => r matches Ok(s) && s@ == t,
                }
            }
        }),
{
    let t = trim(name);
    if t.as_str().is_empty() || byte_len(name) > 32 {
        return Err(ReplayTargetError::BadLength);
    }
    match validate_replay_target_selection(name, readiness) {
        Ok(()) => Ok(t),
        Err(e) => Err(e),
    }
}

/// The game status shown to the user, brought up to date with what the Live
/// Client reports (nothing while no game runs) and with the recorder's status.
/// A TFT game has no single champion.
pub fn live_game_status(
    status: UnifiedGameStatus,
    live: Option<LiveClientBasicInfo>,
    recorder: RecordingStatus,
    session_clip_count: usize,
) -> (s: UnifiedGameStatus)
    ensures
        match live {
            Some(info) => {
                &&& s.in_game
                &&& s.summoner_name == Some(info.summoner_name)
                &&& s.game_time_ms == Some(info.game_time_ms)
                &&& if contains_seq(info.game_mode@, "TFT"@) {
                    s.game_mode == GameMode::TFT && s.champion_name is None
                } else {
                    s.game_mode == status.game_mode && s.champion_name == Some(info.champion_name)
                }
            },
            None => {
                &&& !s.in_game
                &&& s.summoner_name is None
                &&& s.champion_name is None
                &&& s.game_time_ms is None
                &&& s.game_mode == GameMode::Live
            },
        },
        s.is_recording == is_running(recorder),
        s.session_clip_count == session_clip_count,
        s.lcu_connected == status.lcu_connected,
        s.is_monitoring == status.is_monitoring,
{
    let mut s = status;
    match live {
        Some(info) => {
            s.in_game = true;
            s.summoner_name = Some(info.summoner_name);
            s.game_time_ms = Some(info.game_time_ms);
            if str_contains(info.game_mode.as_str(), "TFT") {
                s.game_mode = GameMode::TFT;
                s.champion_name = None;
            } else {
                s.champion_name = Some(info.champion_name);
            }
        },
        None => {
            s.in_game = false;
            s.summoner_name = None;
            s.champion_name = None;
            s.game_time_ms = None;
            s.game_mode = GameMode::Live;
        },
    }
    s.is_recording = recorder_is_running(recorder);
    s.session_clip_count = session_clip_count;
    s
}

/// An encoder family offered to the user.
#[derive(Debug)]
pub struct EncoderOption {
    pub id: String,
    pub name: String,
    /// "hardware" or "software".
    pub kind: String,
    pub vendor: String,
    pub codecs: Vec<String>,
    pub h264_encoder: String,
    pub h265_encoder: String,
    pub av1_encoder: Option<String>,
    pub performance: String,
    pub quality: String,
}

/// The encoder families that work here, and the one chosen automatically.
#[derive(Debug)]
pub struct AvailableEncoders {
    pub available: Vec<EncoderOption>,
    /// The first hardware family that works, else "software".
    pub auto_detected: String,
    pub total_count: usize,
}

/// What is offered of an encoder family, but for its codecs:
/// (id, name, kind, vendor, H.264 encoder, H.265 encoder, AV1 encoder, performance, quality).
pub type EncoderFacts = (
    Seq<char>,
    Seq<char>,
    Seq<char>,
    Seq<char>,
    Seq<char>,
    Seq<char>,
    Option<Seq<char>>,
    Seq<char>,
    Seq<char>,
);

pub open spec fn nvenc_facts() -> EncoderFacts {
    ("nvenc"@, "NVIDIA NVENC"@, "hardware"@, "NVIDIA"@, "h264_nvenc"@, "hevc_nvenc"@, None, "excellent"@, "high"@)
}

pub open spec fn qsv_facts() -> EncoderFacts {
    ("qsv"@, "Intel Quick Sync"@, "hardware"@, "Intel"@, "h264_qsv"@, "hevc_qsv"@, None, "excellent"@, "high"@)
}

pub open spec fn amf_facts() -> EncoderFacts {
    ("amf"@, "AMD AMF"@, "hardware"@, "AMD"@, "h264_amf"@, "hevc_amf"@, None, "excellent"@, "high"@)
}

pub open spec fn software_facts() -> EncoderFacts {
    (
        "software"@,
        "Software (CPU)"@,
        "software"@,
        "FFmpeg"@,
        "libx264"@,
        "libx265"@,
        Some("libsvtav1"@),
        "slow"@,
        "excellent"@,
    )
}

pub open spec fn option_facts(o: EncoderOption) -> EncoderFacts {
    (
        o.id@,
        o.name@,
        o.kind@,
        o.vendor@,
        o.h264_encoder@,
        o.h265_encoder@,
        match o.av1_encoder {
            Some(a) => Some(a@),
            None => None,
        },
        o.performance@,
        o.quality@,
    )
}

pub open spec fn option_codecs(o: EncoderOption) -> Seq<Seq<char>> {
    o.codecs@.map_values(|c: String| c@)
}

/// The codecs a family encodes: H.264 and H.265, and AV1 in software.
pub open spec fn codecs_of(f: EncoderFacts) -> Seq<Seq<char>> {
    if f.6 is Some {
        seq!["h264"@, "h265"@, "av1"@]
    } else {
        seq!["h264"@, "h265"@]
    }
}

/// The families offered: each hardware family whose smoke test passed, in the
/// order NVENC, Quick Sync, AMF, then software, which always works.
pub open spec fn offered_families(nvenc: bool, qsv: bool, amf: bool) -> Seq<EncoderFacts> {
    (if nvenc { seq![nvenc_facts()] } else { Seq::empty() }) + (if qsv { seq![qsv_facts()] } else { Seq::empty() }) + (
    if amf { seq![amf_facts()] } else { Seq::empty() }) + seq![software_facts()]
}

fn hardware_option(id: &str, name: &str, vendor: &str, h264: &str, h265: &str) -> (o: EncoderOption)
    ensures
        option_facts(o) == (id@, name@, "hardware"@, vendor@, h264@, h265@, None::<Seq<char>>, "excellent"@, "high"@),
        option_codecs(o) == seq!["h264"@, "h265"@],
{
    let codecs = strings_of(&["h264", "h265"]);
    let o = EncoderOption {
        id: string_of(id),
        name: string_of(name),
        kind: string_of("hardware"),
        vendor: string_of(vendor),
        codecs,
        h264_encoder: string_of(h264),
        h265_encoder: string_of(h265),
        av1_encoder: None,
        performance: string_of("excellent"),
        quality: string_of("high"),
    };
    proof {
        assert(option_codecs(o) =~= seq!["h264"@, "h265"@]);
    }
    o
}

/// The encoder families offered, given which hardware smoke tests passed.
pub fn available_encoders(nvenc_works: bool, qsv_works: bool, amf_works: bool) -> (r: AvailableEncoders)
    ensures
        r.available@.map_values(|o: EncoderOption| option_facts(o)) == offered_families(nvenc_works, qsv_works, amf_works),
        forall|k: int| 0 <= k < r.available@.len() ==> option_codecs(#[trigger] r.available@[k]) == codecs_of(
            option_facts(r.available@[k]),
        ),
        r.auto_detected@ == offered_families(nvenc_works, qsv_works, amf_works)[0].0,
        r.total_count == r.available@.len(),
{
    let mut available: Vec<EncoderOption> = Vec::new();
    let ghost mut facts: Seq<EncoderFacts> = Seq::empty();
    if nvenc_works {
        available.push(hardware_option("nvenc", "NVIDIA NVENC", "NVIDIA", "h264_nvenc", "hevc_nvenc"));
        proof {
            facts = facts.push(nvenc_facts());
        }
    }
    if qsv_works {
        available.push(hardware_option("qsv", "Intel Quick Sync", "Intel", "h264_qsv", "hevc_qsv"));
        proof {
            facts = facts.push(qsv_facts());
        }
    }
    if amf_works {
        available.push(hardware_option("amf", "AMD AMF", "AMD", "h264_amf", "hevc_amf"));
        proof {
            facts = facts.push(amf_facts());
        }
    }
    let codecs = strings_of(&["h264", "h265", "av1"]);
    let software = EncoderOption {
        id: string_of("software"),
        name: string_of("Software (CPU)"),
        kind: string_of("software"),
        vendor: string_of("FFmpeg"),
        codecs,
        h264_encoder: string_of("libx264"),
        h265_encoder: string_of("libx265"),
        av1_encoder: Some(string_of("libsvtav1")),
        performance: string_of("slow"),
        quality: string_of("excellent"),
    };
    proof {
        assert(option_codecs(software) =~= seq!["h264"@, "h265"@, "av1"@]);
    }
    available.push(software);
    proof {
        facts = facts.push(software_facts());
        assert(facts =~= offered_families(nvenc_works, qsv_works, amf_works));
        assert(available@.map_values(|o: EncoderOption| option_facts(o)) =~= facts);
    }
    let auto_detected = if available.len() > 1 {
        string_of(available[0].id.as_str())
    } else {
        string_of("software")
    };
    let total_count = available.len();
    AvailableEncoders { available, auto_detected, total_count }
}

/// The FFmpeg arguments of an encoder's smoke test: a tenth of a second of a
/// 256x256 null source encoded with it and thrown away.
pub fn encoder_smoke_test_args(encoder: &str) -> (v: Vec<String>)
    ensures
        v@.map_values(|s: String| s@) == seq![
            "-f"@,
            "lavfi"@,
            "-i"@,
            "nullsrc=s=256x256:d=0.1"@,
            "-c:v"@,
            encoder@,
            "-f"@,
            "null"@,
            "-"@,
        ],
{
    let v = strings_of(&["-f", "lavfi", "-i", "nullsrc=s=256x256:d=0.1", "-c:v", encoder, "-f", "null", "-"]);
    proof {
        assert(v@.map_values(|s: String| s@) =~= seq![
            "-f"@,
            "lavfi"@,
            "-i"@,
            "nullsrc=s=256x256:d=0.1"@,
            "-c:v"@,
            encoder@,
            "-f"@,
            "null"@,
            "-"@,
        ]);
    }
    v
}

/// One GiB.
pub const GIB: u64 = 1024 * 1024 * 1024;

/// The disk usage summary (all sizes in bytes).
#[derive(Clone, Copy, Debug, PartialEq, Eq, Structural)]
pub struct DiskUsage {
    pub disk_space_known: bool,
    pub total_bytes: u64,
    pub free_bytes: u64,
    pub used_bytes: u64,
    pub recordings_bytes: u64,
    /// The rolling buffer's segments.
    pub temp_bytes: u64,
    pub logs_bytes: u64,
    /// The segments take more than 2 GiB.
    pub cleanup_needed: bool,
    /// Some segments are left.
    pub cleanup_temp: bool,
    /// The recordings take more than 20 GiB.
    pub archive_old_recordings: bool,
    /// Less than 10 GiB is free on a disk whose space is known.
    pub low_disk_space: bool,
}

/// The disk usage summary from the sizes of the recordings, segments and logs
/// and, when it could be read, the disk's (total, free) space.
pub fn disk_usage(recordings_bytes: u64, temp_bytes: u64, logs_bytes: u64, disk: Option<(u64, u64)>) -> (u: DiskUsage)
    ensures
        u.disk_space_known == disk is Some,
        u.total_bytes == (match disk { Some(d) => d.0, None => 0 }),
        u.free_bytes == (match disk { Some(d) => d.1, None => 0 }),
        u.used_bytes == (if u.total_bytes >= u.free_bytes { u.total_bytes - u.free_bytes } else { 0 }),
        u.recordings_bytes == recordings_bytes,
        u.temp_bytes == temp_bytes,
        u.logs_bytes == logs_bytes,
        u.cleanup_needed == (temp_bytes > 2 * GIB),
        u.cleanup_temp == (temp_bytes > 0),
        u.archive_old_recordings == (recordings_bytes > 20 * GIB),
        u.low_disk_space == (disk is Some && u.free_bytes < 10 * GIB),
{
    let known = disk.is_some();
    let (total, free) = match disk {
        Some(d) => d,
        None => (0, 0),
    };
    DiskUsage {
        disk_space_known: known,
        total_bytes: total,
        free_bytes: free,
        used_bytes: total.saturating_sub(free),
        recordings_bytes,
        temp_bytes,
        logs_bytes,
        cleanup_needed: temp_bytes > 2 * GIB,
        cleanup_temp: temp_bytes > 0,
        archive_old_recordings: recordings_bytes > 20 * GIB,
        low_disk_space: known && free < 10 * GIB,
    }
}

/// A file of the rolling buffer: its extension, in any case, is mp4, ts, wav or txt.
pub open spec fn segment_artifact(extension: Option<Seq<char>>) -> bool {
    match extension {
        Some(e) => {
            let l = ascii_lower_seq(e);
            l == "mp4"@ || l == "ts"@ || l == "wav"@ || l == "txt"@
        },
        None => false,
    }
}

/// Whether a file with the given extension belongs to the rolling buffer.
pub fn is_segment_artifact(extension: Option<&str>) -> (r: bool)
    ensures
        r == segment_artifact(
            match extension {
                Some(e) => Some(e@),
                None => None,
            },
        ),
{
    match extension {
        Some(e) => {
            let l = to_ascii_lowercase(e);
            let s = l.as_str();
            str_eq(s, "mp4") || str_eq(s, "ts") || str_eq(s, "wav") || str_eq(s, "txt")
        },
        None => false,
    }
}

/// The rolling buffer may be cleared only while the recorder is not capturing:
/// its segments are the live replay window.
pub fn segments_may_be_cleared(status: RecordingStatus) -> (r: bool)
    ensures
        r == !is_running(status),
{
    !recorder_is_running(status)
}

} // verus!
