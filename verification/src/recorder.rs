//! The recorder's state transitions: when a capture may start or stop, what
//! status follows each outcome, when the crash watchdog checks FFmpeg, and the
//! names and waiting time of saved clips.
use vstd::prelude::*;

use crate::control::{is_running, recorder_is_running};
use crate::audio::{AudioConfig, AudioDevice, AudioDeviceType};
use crate::encoding::RecordingStatus;
use crate::ffmpeg_args::int_text;
use crate::lifecycle::{clip_stamp_format, format_utc, utc_formatted};
use crate::readiness::{format_gib, gib_text};
use crate::text::{
    append_str, ascii_lower_seq, byte_len, contains_seq, decimal, str_contains, to_ascii_lowercase, lowercase, push_decimal, starts_with_seq, str_starts_with, string_of, to_lowercase,
    utf8_len,
};

verus! {

/// Free space needed on the recording drive to start (2 GiB).
pub const MIN_FREE_BYTES: u64 = 2 * 1024 * 1024 * 1024;

/// Why a capture cannot start.
#[derive(Clone, Copy, Debug, PartialEq, Eq, Structural)]
pub enum RecorderStartError {
    /// A capture is already running or stopping.
    AlreadyActive,
    /// The free space of the recording drive could not be read.
    DiskSpaceUnknown,
    /// Less than 2 GiB is free; holds the free bytes.
    LowDiskSpace(u64),
}

impl RecorderStartError {
    /// The message shown to the user.
    pub fn message(&self) -> (s: String)
        ensures
            s@ == match *self {
                RecorderStartError::AlreadyActive => "이미 녹화가 진행 중입니다"@,
                RecorderStartError::DiskSpaceUnknown =>
                    "녹화 드라이브의 여유 공간을 확인할 수 없습니다. 저장 위치와 드라이브 연결 상태를 확인한 뒤 다시 시도하세요."@,
                RecorderStartError::LowDiskSpace(free) =>
                    "디스크 공간이 부족합니다. 최소 2GB 이상의 여유 공간이 필요합니다. (현재: "@ + gib_text(free) + "GB)"@,
            },
    {
        match *self {
            RecorderStartError::AlreadyActive => string_of("이미 녹화가 진행 중입니다"),
            RecorderStartError::DiskSpaceUnknown => string_of(
                "녹화 드라이브의 여유 공간을 확인할 수 없습니다. 저장 위치와 드라이브 연결 상태를 확인한 뒤 다시 시도하세요.",
            ),
            RecorderStartError::LowDiskSpace(free) => {
                let mut s = string_of("디스크 공간이 부족합니다. 최소 2GB 이상의 여유 공간이 필요합니다. (현재: ");
                let g = format_gib(free);
                append_str(&mut s, g.as_str());
                append_str(&mut s, "GB)");
                s
            },
        }
    }
}

/// A capture starts only from `Idle` and with at least 2 GiB known to be free;
/// the recorder is then `Buffering` until FFmpeg runs.
pub open spec fn start_check(status: RecordingStatus, free_bytes: Option<u64>) -> Result<
    RecordingStatus,
    RecorderStartError,
> {
    if status != RecordingStatus::Idle {
        Err(RecorderStartError::AlreadyActive)
    } else {
        match free_bytes {
            None => Err(RecorderStartError::DiskSpaceUnknown),
            Some(f) => if f < MIN_FREE_BYTES {
                Err(RecorderStartError::LowDiskSpace(f))
            } else {
                Ok(RecordingStatus::Buffering)
            },
        }
    }
}

/// Whether a capture may start, and the status it starts in.
pub fn check_recording_start(status: RecordingStatus, free_bytes: Option<u64>) -> (r: Result<
    RecordingStatus,
    RecorderStartError,
>)
    ensures
        r == start_check(status, free_bytes),
{
    if status != RecordingStatus::Idle {
        return Err(RecorderStartError::AlreadyActive);
    }
    match free_bytes {
        None => Err(RecorderStartError::DiskSpaceUnknown),
        Some(f) => if f < MIN_FREE_BYTES {
            Err(RecorderStartError::LowDiskSpace(f))
        } else {
            Ok(RecordingStatus::Buffering)
        },
    }
}

/// After FFmpeg was started: `Recording` when it runs, back to `Idle` when it
/// failed, so that a retry is accepted.
pub open spec fn after_start(started: bool) -> RecordingStatus {
    if started {
        RecordingStatus::Recording
    } else {
        RecordingStatus::Idle
    }
}

/// The status once FFmpeg was started, or failed to.
pub fn status_after_capture_start(started: bool) -> (s: RecordingStatus)
    ensures
        s == after_start(started),
{
    if started {
        RecordingStatus::Recording
    } else {
        RecordingStatus::Idle
    }
}

/// Why a capture cannot stop.
#[derive(Clone, Copy, Debug, PartialEq, Eq, Structural)]
pub enum RecorderStopError {
    /// Nothing is being recorded.
    NotRecording,
    /// A stop is already under way.
    AlreadyStopping,
}

impl RecorderStopError {
    /// The message shown to the user.
    pub fn message(&self) -> (s: &'static str)
        ensures
            s@ == match *self {
                RecorderStopError::NotRecording => "진행 중인 녹화가 없습니다"@,
                RecorderStopError::AlreadyStopping => "이미 녹화 중지가 진행 중입니다"@,
            },
    {
        match *self {
            RecorderStopError::NotRecording => "진행 중인 녹화가 없습니다",
            RecorderStopError::AlreadyStopping => "이미 녹화 중지가 진행 중입니다",
        }
    }
}

/// A stop is refused when idle or already stopping; from a capture or an error
/// the recorder goes to `Processing`.
pub open spec fn stop_check(status: RecordingStatus) -> Result<RecordingStatus, RecorderStopError> {
    match status {
        RecordingStatus::Idle => Err(RecorderStopError::NotRecording),
        RecordingStatus::Processing => Err(RecorderStopError::AlreadyStopping),
        _ => Ok(RecordingStatus::Processing),
    }
}

/// Whether a stop may begin, and the status it runs in.
pub fn begin_recording_stop(status: RecordingStatus) -> (r: Result<RecordingStatus, RecorderStopError>)
    ensures
        r == stop_check(status),
{
    match status {
        RecordingStatus::Idle => Err(RecorderStopError::NotRecording),
        RecordingStatus::Processing => Err(RecorderStopError::AlreadyStopping),
        _ => Ok(RecordingStatus::Processing),
    }
}

/// After the segment recorder stopped: `Idle`, or `Error` when stopping failed.
pub open spec fn after_stop(stopped: bool) -> RecordingStatus {
    if stopped {
        RecordingStatus::Idle
    } else {
        RecordingStatus::Error
    }
}

/// The status once the segment recorder stopped, or failed to.
pub fn status_after_capture_stop(stopped: bool) -> (s: RecordingStatus)
    ensures
        s == after_stop(stopped),
{
    if stopped {
        RecordingStatus::Idle
    } else {
        RecordingStatus::Error
    }
}

/// A start whose FFmpeg failed leaves the recorder ready for a retry, and a
/// successful one leaves it capturing, so that it refuses a second start.
pub proof fn a_failed_start_can_be_retried(free_bytes: u64)
    requires
        free_bytes >= MIN_FREE_BYTES,
    ensures
        start_check(after_start(false), Some(free_bytes)) == Ok::<RecordingStatus, RecorderStartError>(
            RecordingStatus::Buffering,
        ),
        start_check(after_start(true), Some(free_bytes)) == Err::<RecordingStatus, RecorderStartError>(
            RecorderStartError::AlreadyActive,
        ),
{
}

/// Every capturing status can be stopped, and so can a recorder whose stop
/// failed; a stop that succeeded makes it startable again.
pub proof fn a_capture_can_always_be_stopped(status: RecordingStatus, free_bytes: u64)
    requires
        free_bytes >= MIN_FREE_BYTES,
    ensures
        is_running(status) ==> stop_check(status) == Ok::<RecordingStatus, RecorderStopError>(
            RecordingStatus::Processing,
        ),
        stop_check(after_stop(false)) == Ok::<RecordingStatus, RecorderStopError>(RecordingStatus::Processing),
        start_check(after_stop(true), Some(free_bytes)) is Ok,
        stop_check(RecordingStatus::Processing) is Err,
{
}

/// The folder, under the output directory, that holds the rolling buffer.
pub const SEGMENTS_DIR_NAME: &'static str = "segments";

/// The recorder's own state: its status, when the current capture started (ms on
/// a monotonic clock) and the frames counted since.
#[derive(Clone, Copy, Debug, PartialEq, Eq, Structural)]
pub struct CaptureState {
    pub status: RecordingStatus,
    pub start_time_ms: Option<u64>,
    pub total_frames: u64,
}

impl CaptureState {
    /// An idle recorder.
    pub fn new() -> (c: Self)
        ensures
            c.status == RecordingStatus::Idle,
            c.start_time_ms is None,
            c.total_frames == 0,
    {
        CaptureState { status: RecordingStatus::Idle, start_time_ms: None, total_frames: 0 }
    }

    /// Begins a start: refused as `check_recording_start` says, leaving the state
    /// as it was; otherwise the recorder is `Buffering`.
    pub fn begin_start(&mut self, free_bytes: Option<u64>) -> (r: Result<(), RecorderStartError>)
        ensures
            match start_check(old(self).status, free_bytes) {
                Ok(s) => r is Ok && *final(self) == (CaptureState { status: s, ..*old(self) }),
                Err(e) => r == Err::<(), RecorderStartError>(e) && *final(self) == *old(self),
            },
    {
        match check_recording_start(self.status, free_bytes) {
            Ok(s) => {
                self.status = s;
                Ok(())
            },
            Err(e) => Err(e),
        }
    }

    /// Ends a start once FFmpeg was launched: a running capture is `Recording`,
    /// started at `now_ms` with no frame counted yet; a failed one is `Idle` again.
    pub fn finish_start(&mut self, started: bool, now_ms: u64)
        ensures
            final(self).status == after_start(started),
            started ==> final(self).start_time_ms == Some(now_ms) && final(self).total_frames == 0,
            !started ==> final(self).start_time_ms == old(self).start_time_ms && final(self).total_frames
                == old(self).total_frames,
    {
        self.status = status_after_capture_start(started);
        if started {
            self.start_time_ms = Some(now_ms);
            self.total_frames = 0;
        }
    }

    /// Begins a stop: refused when idle or already stopping, leaving the state as it
    /// was; otherwise the recorder is `Processing`.
    pub fn begin_stop(&mut self) -> (r: Result<(), RecorderStopError>)
        ensures
            match stop_check(old(self).status) {
                Ok(s) => r is Ok && *final(self) == (CaptureState { status: s, ..*old(self) }),
                Err(e) => r == Err::<(), RecorderStopError>(e) && *final(self) == *old(self),
            },
    {
        match begin_recording_stop(self.status) {
            Ok(s) => {
                self.status = s;
                Ok(())
            },
            Err(e) => Err(e),
        }
    }

    /// Ends a stop with the segment recorder's outcome. When it stopped, the
    /// recorder is `Idle`, the start time is cleared, and the result names the
    /// buffer's folder: the output directory and `segments` under it. When it
    /// failed, the recorder is `Error` and the failure is handed back.
    pub fn finish_stop(&mut self, stop_result: Result<(), String>, output_dir: &String) -> (r: Result<
        (String, &'static str),
        String,
    >)
        ensures
            match stop_result {
                Ok(_) => {
                    &&& final(self).status == RecordingStatus::Idle
                    &&& final(self).start_time_ms is None
                    &&& r matches Ok((dir, child)) && dir@ == output_dir@ && child@ == SEGMENTS_DIR_NAME@
                },
                Err(e) => {
                    &&& final(self).status == RecordingStatus::Error
                    &&& final(self).start_time_ms == old(self).start_time_ms
                    &&& r == Err::<(String, &'static str), String>(e)
                },
            },
            final(self).total_frames == old(self).total_frames,
    {
        match stop_result {
            Ok(()) => {
                self.status = status_after_capture_stop(true);
                self.start_time_ms = None;
                Ok((output_dir.clone(), SEGMENTS_DIR_NAME))
            },
            Err(e) => {
                self.status = status_after_capture_stop(false);
                Err(e)
            },
        }
    }
}

/// What the segment recorder keeps about its session: whether FFmpeg runs,
/// whether a crash restart was tried, when the system-audio and microphone
/// recordings started (ms since the UNIX epoch), whether each is captured, and
/// the frames FFmpeg reported.
#[derive(Clone, Copy, Debug, PartialEq, Eq, Structural)]
pub struct SegmentSession {
    pub ffmpeg_running: bool,
    pub restart_attempted: bool,
    pub audio_start_wall_ms: Option<i64>,
    pub system_audio_active: bool,
    pub mic_start_wall_ms: Option<i64>,
    pub mic_active: bool,
    pub frame_count: u64,
}

/// The session with its audio state forgotten (no recording started, none active).
pub open spec fn audio_cleared(s: SegmentSession) -> SegmentSession {
    SegmentSession {
        audio_start_wall_ms: None,
        system_audio_active: false,
        mic_start_wall_ms: None,
        mic_active: false,
        ..s
    }
}

impl SegmentSession {
    /// A recorder that never ran.
    pub fn new() -> (s: Self)
        ensures
            !s.ffmpeg_running && !s.restart_attempted && s.audio_start_wall_ms is None && !s.system_audio_active
                && s.mic_start_wall_ms is None && !s.mic_active && s.frame_count == 0,
    {
        SegmentSession {
            ffmpeg_running: false,
            restart_attempted: false,
            audio_start_wall_ms: None,
            system_audio_active: false,
            mic_start_wall_ms: None,
            mic_active: false,
            frame_count: 0,
        }
    }

    /// Before FFmpeg is launched: refused while it runs, leaving the session as it
    /// was. A fresh start (`cleanup`) forgets the last session's audio and frame
    /// count; a crash restart keeps them, since the audio recordings go on.
    pub fn begin_launch(&mut self, cleanup: bool) -> (r: Result<(), RecorderStartError>)
        ensures
            old(self).ffmpeg_running ==> r == Err::<(), RecorderStartError>(RecorderStartError::AlreadyActive)
                && *final(self) == *old(self),
            !old(self).ffmpeg_running && cleanup ==> r is Ok && *final(self) == (SegmentSession {
                frame_count: 0,
                ..audio_cleared(*old(self))
            }),
            !old(self).ffmpeg_running && !cleanup ==> r is Ok && *final(self) == *old(self),
    {
        if self.ffmpeg_running {
            return Err(RecorderStartError::AlreadyActive);
        }
        if cleanup {
            self.audio_start_wall_ms = None;
            self.system_audio_active = false;
            self.mic_start_wall_ms = None;
            self.mic_active = false;
            self.frame_count = 0;
        }
        Ok(())
    }

    /// A fresh start: a crash restart may be tried again in this session.
    pub fn begin_fresh_start(&mut self) -> (r: Result<(), RecorderStartError>)
        ensures
            old(self).ffmpeg_running ==> r == Err::<(), RecorderStartError>(RecorderStartError::AlreadyActive)
                && *final(self) == (SegmentSession { restart_attempted: false, ..*old(self) }),
            !old(self).ffmpeg_running ==> r is Ok && *final(self) == (SegmentSession {
                restart_attempted: false,
                frame_count: 0,
                ..audio_cleared(*old(self))
            }),
    {
        self.restart_attempted = false;
        self.begin_launch(true)
    }

    /// After the launch: FFmpeg runs, or, when it exited at once, it does not, and a
    /// fresh start also drops the audio captures it had begun (a crash restart keeps
    /// them: they hold the session's continuous recordings).
    pub fn finish_launch(&mut self, running: bool, cleanup: bool)
        ensures
            running ==> *final(self) == (SegmentSession { ffmpeg_running: true, ..*old(self) }),
            !running && cleanup ==> *final(self) == (SegmentSession {
                ffmpeg_running: false,
                ..audio_cleared(*old(self))
            }),
            !running && !cleanup ==> *final(self) == (SegmentSession { ffmpeg_running: false, ..*old(self) }),
    {
        self.ffmpeg_running = running;
        if !running && cleanup {
            self.audio_start_wall_ms = None;
            self.system_audio_active = false;
            self.mic_start_wall_ms = None;
            self.mic_active = false;
        }
    }

    /// FFmpeg was stopped.
    pub fn stopped(&mut self)
        ensures
            *final(self) == (SegmentSession { ffmpeg_running: false, ..*old(self) }),
    {
        self.ffmpeg_running = false;
    }

    /// The watchdog's decision applied: an exited FFmpeg is forgotten and the
    /// restart attempt is remembered; returns whether to launch it again.
    pub fn apply_health(&mut self, poll: ProcessPoll) -> (restart: bool)
        ensures
            restart == (poll == ProcessPoll::Exited && !old(self).restart_attempted),
            final(self).ffmpeg_running == (old(self).ffmpeg_running && poll != ProcessPoll::Exited),
            final(self).restart_attempted == (old(self).restart_attempted || poll == ProcessPoll::Exited),
            final(self).audio_start_wall_ms == old(self).audio_start_wall_ms,
            final(self).mic_start_wall_ms == old(self).mic_start_wall_ms,
            final(self).frame_count == old(self).frame_count,
    {
        let d = ffmpeg_health_decision(poll, self.restart_attempted);
        if d.forget_process {
            self.ffmpeg_running = false;
        }
        self.restart_attempted = d.restart_attempted;
        d.restart
    }
}

/// What the crash watchdog does on one tick.
#[derive(Clone, Copy, Debug, PartialEq, Eq, Structural)]
pub enum WatchdogStep {
    /// Check FFmpeg (and restart it once if it died).
    Check,
    /// Wait for the next tick: a stop is under way.
    Skip,
    /// Stop watching: the capture ended.
    Exit,
}

/// The watchdog checks FFmpeg while a capture runs, waits while it stops, and
/// ends once the recorder is idle or failed.
pub fn watchdog_step(status: RecordingStatus) -> (w: WatchdogStep)
    ensures
        w == match status {
            RecordingStatus::Recording | RecordingStatus::Buffering => WatchdogStep::Check,
            RecordingStatus::Processing => WatchdogStep::Skip,
            RecordingStatus::Idle | RecordingStatus::Error => WatchdogStep::Exit,
        },
{
    match status {
        RecordingStatus::Recording | RecordingStatus::Buffering => WatchdogStep::Check,
        RecordingStatus::Processing => WatchdogStep::Skip,
        RecordingStatus::Idle | RecordingStatus::Error => WatchdogStep::Exit,
    }
}

/// After a check: a recorder that is not alive (even after one restart) is
/// marked `Error` and the watchdog ends; otherwise nothing changes.
pub fn status_after_health_check(still_alive: bool) -> (s: Option<RecordingStatus>)
    ensures
        s == (if still_alive { None } else { Some(RecordingStatus::Error) }),
{
    if still_alive {
        None
    } else {
        Some(RecordingStatus::Error)
    }
}

/// Why a clip cannot be saved now.
#[derive(Clone, Copy, Debug, PartialEq, Eq, Structural)]
pub enum ClipSaveRefusal {
    /// The recorder is not capturing.
    NotRecording,
}

impl ClipSaveRefusal {
    /// The message shown to the user.
    pub fn message(&self) -> (s: &'static str)
        ensures
            s@ == "녹화가 진행 중이 아닙니다"@,
    {
        "녹화가 진행 중이 아닙니다"
    }
}

/// A clip can be cut from the buffer only while the recorder captures.
pub fn check_clip_save(status: RecordingStatus) -> (r: Result<(), ClipSaveRefusal>)
    ensures
        r is Ok <==> is_running(status),
{
    if recorder_is_running(status) {
        Ok(())
    } else {
        Err(ClipSaveRefusal::NotRecording)
    }
}

/// The file name of a clip of the last `secs` seconds saved at `timestamp`.
pub fn last_seconds_file_name(timestamp: &str, secs: u64) -> (s: String)
    ensures
        s@ == "clip_"@ + timestamp@ + "_"@ + decimal(secs as nat) + ".mp4"@,
{
    let mut s = string_of("clip_");
    append_str(&mut s, timestamp);
    append_str(&mut s, "_");
    push_decimal(&mut s, secs);
    append_str(&mut s, ".mp4");
    s
}

/// The file name of a clip of the last `secs` seconds saved `now_secs` after the
/// UNIX epoch; `None` for a time chrono cannot represent.
pub fn last_seconds_clip_name(now_secs: i64, secs: u64) -> (s: Option<String>)
    ensures
        match utc_formatted(now_secs as int, clip_stamp_format()) {
            Some(stamp) => s matches Some(n) && n@ == "clip_"@ + stamp + "_"@ + decimal(secs as nat) + ".mp4"@,
            None => s is None,
        },
{
    let format = "%Y%m%d_%H%M%S";
    proof {
        reveal_strlit("%Y%m%d_%H%M%S");
    }
    match format_utc(now_secs, format) {
        Some(stamp) => Some(last_seconds_file_name(stamp.as_str(), secs)),
        None => None,
    }
}

/// The file name of an event clip.
pub fn event_clip_file_name(clip_id: &str) -> (s: String)
    ensures
        s@ == clip_id@ + ".mp4"@,
{
    let mut s = string_of(clip_id);
    append_str(&mut s, ".mp4");
    s
}

/// Slack added to the wait for the buffer to cover a clip (ms).
pub const COVERAGE_WAIT_SLACK_MS: u64 = 2_000;
/// Longest wait for the buffer to cover a clip (ms).
pub const MAX_COVERAGE_WAIT_MS: u64 = 120_000;

/// How long to wait for the buffer to reach a clip's end: what is still in the
/// future of the clip, one segment and some slack, at most two minutes (ms).
pub open spec fn coverage_wait(end_anchor_ms: i64, now_ms: i64, segment_secs: u64) -> int {
    let remaining: int = if end_anchor_ms > now_ms { end_anchor_ms - now_ms } else { 0 };
    let total = remaining + segment_secs * 1000 + COVERAGE_WAIT_SLACK_MS;
    if total < MAX_COVERAGE_WAIT_MS { total } else { MAX_COVERAGE_WAIT_MS as int }
}

/// The wait for the buffer to cover a clip ending at `end_anchor_ms` (ms).
pub fn coverage_timeout_ms(end_anchor_ms: i64, now_ms: i64, segment_secs: u64) -> (t: u64)
    ensures
        t == coverage_wait(end_anchor_ms, now_ms, segment_secs),
{
    let remaining: i128 = if end_anchor_ms > now_ms {
        end_anchor_ms as i128 - now_ms as i128
    } else {
        0
    };
    let total: i128 = remaining + (segment_secs as i128) * 1000 + COVERAGE_WAIT_SLACK_MS as i128;
    if total < MAX_COVERAGE_WAIT_MS as i128 {
        total as u64
    } else {
        MAX_COVERAGE_WAIT_MS
    }
}

/// Why the configuration cannot change now.
#[derive(Clone, Copy, Debug, PartialEq, Eq, Structural)]
pub enum ConfigLocked {
    /// A capture is running or stopping.
    Busy,
}

impl ConfigLocked {
    /// The message shown to the user.
    pub fn message(&self) -> (s: &'static str)
        ensures
            s@ == "녹화 중에는 설정을 변경할 수 없습니다"@,
    {
        "녹화 중에는 설정을 변경할 수 없습니다"
    }
}

/// The configuration may change only while the recorder is idle.
pub fn check_config_update(status: RecordingStatus) -> (r: Result<(), ConfigLocked>)
    ensures
        r is Ok <==> status == RecordingStatus::Idle,
{
    if status == RecordingStatus::Idle {
        Ok(())
    } else {
        Err(ConfigLocked::Busy)
    }
}

/// What polling the FFmpeg process showed.
#[derive(Clone, Copy, Debug, PartialEq, Eq, Structural)]
pub enum ProcessPoll {
    /// No process was started.
    NoProcess,
    /// It still runs.
    Running,
    /// It has exited.
    Exited,
    /// The poll itself failed.
    PollFailed,
}

/// What the watchdog does about FFmpeg.
#[derive(Clone, Copy, Debug, PartialEq, Eq, Structural)]
pub struct HealthDecision {
    /// Start FFmpeg again, keeping the segments.
    pub restart: bool,
    /// Forget the exited process.
    pub forget_process: bool,
    /// Whether a restart has now been tried.
    pub restart_attempted: bool,
}

/// An exited FFmpeg is forgotten and restarted once per session; a second exit
/// is left alone. Nothing is done while it runs or when it cannot be polled.
pub fn ffmpeg_health_decision(poll: ProcessPoll, restart_attempted: bool) -> (d: HealthDecision)
    ensures
        d.forget_process == (poll == ProcessPoll::Exited),
        d.restart == (poll == ProcessPoll::Exited && !restart_attempted),
        d.restart_attempted == (restart_attempted || poll == ProcessPoll::Exited),
{
    match poll {
        ProcessPoll::Exited => HealthDecision { restart: !restart_attempted, forget_process: true, restart_attempted: true },
        _ => HealthDecision { restart: false, forget_process: false, restart_attempted },
    }
}

/// Free space below which the user is warned during a recording (MiB).
pub const DISK_WARN_MB: u64 = 1024;
/// Free space below which the recording volume is critically full (MiB).
pub const DISK_CRITICAL_MB: u64 = 500;

/// How full the recording volume is.
#[derive(Clone, Copy, Debug, PartialEq, Eq, Structural)]
pub enum DiskAlert {
    Critical,
    Warning,
    Fine,
}

/// The alert for the free space of the recording volume (MiB).
pub fn disk_alert(available_mb: u64) -> (a: DiskAlert)
    ensures
        a == (if available_mb < DISK_CRITICAL_MB {
            DiskAlert::Critical
        } else if available_mb < DISK_WARN_MB {
            DiskAlert::Warning
        } else {
            DiskAlert::Fine
        }),
{
    if available_mb < DISK_CRITICAL_MB {
        DiskAlert::Critical
    } else if available_mb < DISK_WARN_MB {
        DiskAlert::Warning
    } else {
        DiskAlert::Fine
    }
}

/// A mounted disk.
#[derive(Debug)]
pub struct DiskInfo {
    pub mount_point: String,
    pub available_bytes: u64,
}

/// One MiB.
pub const MIB: u64 = 1024 * 1024;

/// The disk's mount point is, ignoring case, a prefix of the lower-cased path.
pub open spec fn mounted_under(path_lower: Seq<char>, d: DiskInfo) -> bool {
    starts_with_seq(path_lower, lowercase(d.mount_point@))
}

/// `i` is the disk that holds the path: among the disks mounted at a prefix of
/// it, one with the longest mount point, the last of those.
pub open spec fn best_disk(path_lower: Seq<char>, disks: Seq<DiskInfo>, i: int) -> bool {
    &&& 0 <= i < disks.len()
    &&& mounted_under(path_lower, disks[i])
    &&& forall|j: int|
        0 <= j < disks.len() && mounted_under(path_lower, #[trigger] disks[j]) ==> utf8_len(disks[j].mount_point@)
            <= utf8_len(disks[i].mount_point@)
    &&& forall|j: int|
        i < j < disks.len() && mounted_under(path_lower, #[trigger] disks[j]) ==> utf8_len(disks[j].mount_point@)
            < utf8_len(disks[i].mount_point@)
}

/// The free space (MiB) of the disk that holds `path`: the disk with the longest
/// mount point that prefixes the path, ignoring case; the first disk when none
/// does; `u64::MAX` when no disk is known.
pub fn available_mb_for(path: &str, disks: &Vec<DiskInfo>) -> (mb: u64)
    ensures
        ({
            let pl = lowercase(path@);
            if exists|i: int| 0 <= i < disks@.len() && mounted_under(pl, #[trigger] disks@[i]) {
                exists|i: int| best_disk(pl, disks@, i) && mb == disks@[i].available_bytes / MIB
            } else if disks@.len() > 0 {
                mb == disks@[0].available_bytes / MIB
            } else {
                mb == u64::MAX
            }
        }),
{
    let path_lower = to_lowercase(path);
    let ghost pl = lowercase(path@);
    let mut best: Option<usize> = None;
    let mut best_len: u128 = 0;
    let mut i: usize = 0;
    while i < disks.len()
        invariant
            i <= disks@.len(),
            path_lower@ == pl,
            pl == lowercase(path@),
            match best {
                None => forall|j: int| 0 <= j < i ==> !mounted_under(pl, #[trigger] disks@[j]),
                Some(b) => {
                    &&& b < i
                    &&& mounted_under(pl, disks@[b as int])
                    &&& best_len == utf8_len(disks@[b as int].mount_point@)
                    &&& forall|j: int|
                        0 <= j < i && mounted_under(pl, #[trigger] disks@[j]) ==> utf8_len(disks@[j].mount_point@)
                            <= best_len
                    &&& forall|j: int|
                        b < j < i && mounted_under(pl, #[trigger] disks@[j]) ==> utf8_len(disks@[j].mount_point@)
                            < best_len
                },
            },
        decreases disks@.len() - i,
    {
        let mount = to_lowercase(disks[i].mount_point.as_str());
        if str_starts_with(path_lower.as_str(), mount.as_str()) {
            let len = byte_len(disks[i].mount_point.as_str());
            match best {
                None => {
                    best = Some(i);
                    best_len = len;
                },
                Some(_) => {
                    if len >= best_len {
                        best = Some(i);
                        best_len = len;
                    }
                },
            }
        }
        i = i + 1;
    }
    match best {
        Some(b) => {
            proof {
                assert(best_disk(pl, disks@, b as int));
            }
            disks[b].available_bytes / MIB
        },
        None => if disks.len() > 0 {
            disks[0].available_bytes / MIB
        } else {
            u64::MAX
        },
    }
}

/// The loopback device asked for: the explicit device id, else the configured
/// system audio device.
pub fn loopback_device_hint(audio: &AudioConfig) -> (r: Option<String>)
    ensures
        r == (if audio.audio_device_id is Some { audio.audio_device_id } else { audio.system_audio_device }),
{
    match &audio.audio_device_id {
        Some(id) => Some(id.clone()),
        None => audio.system_audio_device.clone(),
    }
}

/// The first system-audio device of a list, by name.
pub open spec fn first_system_audio(devices: Seq<AudioDevice>) -> Option<Seq<char>>
    decreases devices.len(),
{
    if devices.len() == 0 {
        None
    } else if devices[0].device_type == AudioDeviceType::SystemAudio {
        Some(devices[0].name@)
    } else {
        first_system_audio(devices.drop_first())
    }
}

/// The DirectShow device recorded when loopback capture is unavailable: the
/// configured system audio device, else the first system-audio device listed
/// (when the listing succeeded).
pub fn dshow_fallback_device(configured: Option<String>, listed: Option<Vec<AudioDevice>>) -> (r: Option<String>)
    ensures
        configured is Some ==> r == configured,
        configured is None ==> match r {
            Some(n) => listed matches Some(l) && first_system_audio(l@) == Some(n@),
            None => listed is None || first_system_audio(listed->0@) is None,
        },
{
    if configured.is_some() {
        return configured;
    }
    match listed {
        None => None,
        Some(devices) => {
            let mut i: usize = 0;
            proof {
                assert(devices@.skip(0) =~= devices@);
            }
            while i < devices.len()
                invariant
                    i <= devices@.len(),
                    configured is None,
                    listed == Some(devices),
                    first_system_audio(devices@) == first_system_audio(devices@.skip(i as int)),
                decreases devices@.len() - i,
            {
                proof {
                    assert(devices@.skip(i as int)[0] == devices@[i as int]);
                    assert(devices@.skip(i as int).drop_first() =~= devices@.skip(i + 1));
                }
                if devices[i].device_type == AudioDeviceType::SystemAudio {
                    return Some(devices[i].name.clone());
                }
                i = i + 1;
            }
            proof {
                assert(devices@.skip(i as int).len() == 0);
            }
            None
        },
    }
}

/// Number of FFmpeg error-output lines kept to explain a failed start.
pub const STDERR_TAIL_LINES: usize = 20;

/// The last lines FFmpeg wrote to its error output.
pub struct StderrTail {
    lines: Vec<String>,
}

/// `lines` with `line` added, the oldest dropped once the tail is full.
pub open spec fn tail_after(lines: Seq<Seq<char>>, line: Seq<char>) -> Seq<Seq<char>> {
    if lines.len() >= STDERR_TAIL_LINES {
        lines.drop_first().push(line)
    } else {
        lines.push(line)
    }
}

/// Lines joined with line feeds.
pub open spec fn joined_lines(lines: Seq<Seq<char>>) -> Seq<char>
    decreases lines.len(),
{
    if lines.len() == 0 {
        Seq::empty()
    } else if lines.len() == 1 {
        lines[0]
    } else {
        joined_lines(lines.drop_last()) + "\n"@ + lines.last()
    }
}

impl StderrTail {
    pub closed spec fn view(&self) -> Seq<Seq<char>> {
        self.lines@.map_values(|l: String| l@)
    }

    pub closed spec fn wf(&self) -> bool {
        self.lines@.len() <= STDERR_TAIL_LINES
    }

    /// An empty tail.
    pub fn new() -> (t: Self)
        ensures
            t.wf(),
            t.view() == Seq::<Seq<char>>::empty(),
    {
        let t = StderrTail { lines: Vec::new() };
        proof {
            assert(t.view() =~= Seq::<Seq<char>>::empty());
        }
        t
    }

    /// Keeps a new line, dropping the oldest when 20 are kept already.
    pub fn push_line(&mut self, line: String)
        requires
            old(self).wf(),
        ensures
            final(self).wf(),
            final(self).view() == tail_after(old(self).view(), line@),
            final(self).view().len() <= STDERR_TAIL_LINES,
    {
        let ghost before = self.lines@;
        let ghost lv = line@;
        if self.lines.len() >= STDERR_TAIL_LINES {
            self.lines.remove(0);
            proof {
                assert(self.lines@ =~= before.drop_first());
                assert(before.drop_first().map_values(|l: String| l@) =~= before.map_values(|l: String| l@).drop_first());
            }
        }
        let ghost mid = self.lines@;
        self.lines.push(line);
        proof {
            assert(self.lines@ == mid.push(self.lines@.last()));
            assert(self.lines@.map_values(|l: String| l@) =~= mid.map_values(|l: String| l@).push(lv));
        }
    }

    /// The kept lines joined with line feeds.
    pub fn joined(&self) -> (s: String)
        ensures
            s@ == joined_lines(self.view()),
    {
        let ghost v = self.view();
        let mut s = String::new();
        let mut i: usize = 0;
        while i < self.lines.len()
            invariant
                i <= self.lines@.len(),
                v == self.lines@.map_values(|l: String| l@),
                s@ == joined_lines(v.take(i as int)),
            decreases self.lines@.len() - i,
        {
            proof {
                assert(v.take(i + 1).drop_last() =~= v.take(i as int));
                assert(v.take(i + 1).last() == self.lines@[i as int]@);
            }
            if i > 0 {
                append_str(&mut s, "\n");
            } else {
                proof {
                    assert(s@ =~= Seq::<char>::empty());
                }
            }
            append_str(&mut s, self.lines[i].as_str());
            proof {
                if i == 0 {
                    assert(v.take(1).len() == 1);
                    assert(s@ =~= v.take(1)[0]);
                }
            }
            i = i + 1;
        }
        proof {
            assert(v.take(self.lines@.len() as int) =~= v);
        }
        s
    }
}

/// The tail after each of `lines` was added in turn.
pub open spec fn tail_after_all(start: Seq<Seq<char>>, lines: Seq<Seq<char>>) -> Seq<Seq<char>>
    decreases lines.len(),
{
    if lines.len() == 0 {
        start
    } else {
        tail_after(tail_after_all(start, lines.drop_last()), lines.last())
    }
}

/// Whatever was written, the tail holds exactly the last twenty lines (all of them
/// when fewer were written), oldest first.
pub proof fn the_tail_holds_the_last_lines(lines: Seq<Seq<char>>)
    ensures
        tail_after_all(Seq::empty(), lines) == lines.subrange(
            if lines.len() > STDERR_TAIL_LINES { lines.len() - STDERR_TAIL_LINES } else { 0 },
            lines.len() as int,
        ),
    decreases lines.len(),
{
    if lines.len() > 0 {
        let prev = lines.drop_last();
        the_tail_holds_the_last_lines(prev);
        let n = lines.len() as int;
        let t = tail_after_all(Seq::empty(), prev);
        let from_prev: int = if prev.len() > STDERR_TAIL_LINES { prev.len() - STDERR_TAIL_LINES } else { 0 };
        let from: int = if n > STDERR_TAIL_LINES { n - STDERR_TAIL_LINES } else { 0 };
        assert(t == prev.subrange(from_prev, n - 1));
        if t.len() >= STDERR_TAIL_LINES {
            assert(t.drop_first().push(lines.last()) =~= lines.subrange(from, n));
        } else {
            assert(t.push(lines.last()) =~= lines.subrange(from, n));
        }
    } else {
        assert(lines.subrange(0, 0) =~= Seq::<Seq<char>>::empty());
    }
}

/// `{:?}` of an optional exit code.
pub open spec fn exit_code_text(code: Option<i32>) -> Seq<char> {
    match code {
        Some(c) => "Some("@ + int_text(c as int) + ")"@,
        None => "None"@,
    }
}

/// The error of a start whose FFmpeg exited at once: its exit code and what it
/// wrote last ("(출력 없음)" when it wrote nothing).
pub fn start_failure_message(code: Option<i32>, tail: &str) -> (s: String)
    ensures
        s@ == "FFmpeg가 시작 직후 종료되었습니다 (종료 코드: "@ + exit_code_text(code) + "). FFmpeg 출력: "@ + (if tail@.len()
            == 0 {
            "(출력 없음)"@
        } else {
            tail@
        }),
{
    let mut s = string_of("FFmpeg가 시작 직후 종료되었습니다 (종료 코드: ");
    match code {
        Some(c) => {
            append_str(&mut s, "Some(");
            if c < 0 {
                append_str(&mut s, "-");
                let m: u64 = if c == i32::MIN { 2147483648u64 } else { (-c) as u64 };
                push_decimal(&mut s, m);
            } else {
                push_decimal(&mut s, c as u64);
            }
            append_str(&mut s, ")");
        },
        None => append_str(&mut s, "None"),
    }
    append_str(&mut s, "). FFmpeg 출력: ");
    if tail.is_empty() {
        append_str(&mut s, "(출력 없음)");
    } else {
        append_str(&mut s, tail);
    }
    proof {
        reveal_strlit("");
        reveal_strlit("-");
        assert(s@ =~= "FFmpeg가 시작 직후 종료되었습니다 (종료 코드: "@ + exit_code_text(code) + "). FFmpeg 출력: "@ + (
        if tail@.len() == 0 {
            "(출력 없음)"@
        } else {
            tail@
        }));
    }
    s
}

/// How a line of FFmpeg's error output is treated.
#[derive(Clone, Copy, Debug, PartialEq, Eq, Structural)]
pub struct StderrLineKind {
    /// It mentions an error or a warning and is logged.
    pub notable: bool,
    /// It is notable and mentions an error in any case.
    pub is_error: bool,
}

/// A line is notable when it holds "error", "Error", "warning" or "Warning"; a
/// notable line that holds "error" in any case counts as an error.
pub fn classify_stderr_line(line: &str) -> (k: StderrLineKind)
    ensures
        k.notable == (contains_seq(line@, "error"@) || contains_seq(line@, "Error"@) || contains_seq(line@, "warning"@)
            || contains_seq(line@, "Warning"@)),
        k.is_error == (k.notable && contains_seq(ascii_lower_seq(line@), "error"@)),
{
    let notable = str_contains(line, "error") || str_contains(line, "Error") || str_contains(line, "warning")
        || str_contains(line, "Warning");
    let is_error = if notable {
        let lower = to_ascii_lowercase(line);
        str_contains(lower.as_str(), "error")
    } else {
        false
    };
    StderrLineKind { notable, is_error }
}

} // verus!
