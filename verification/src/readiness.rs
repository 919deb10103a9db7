//! Whether recording can start: blockers, warnings and per-component status
//! computed from a probe of the environment.
use vstd::prelude::*;

use crate::encoding::{hw_encoder_name, software_encoder_name, RecordingConfig, RecordingStatus, TargetPlatform};
use crate::text::{append_str, ascii_lower_seq, contains_seq, decimal, digit_char, push_char, push_decimal, string_of};

verus! {

/// Free space below which recording is blocked (2 GiB).
pub const MIN_RECORDING_FREE_BYTES: u64 = 2_147_483_648;
/// Bytes in one GiB.
pub const BYTES_PER_GIB: u64 = 1_073_741_824;
/// How long a probe of the environment stays valid (ms).
pub const READINESS_CACHE_TTL_MS: u64 = 30_000;

/// How serious an issue is.
#[derive(Clone, Copy, Debug, PartialEq, Eq, Structural)]
pub enum RecordingReadinessSeverity {
    Blocker,
    Warning,
}

/// One blocker or warning.
#[derive(Clone, Debug)]
pub struct RecordingReadinessIssue {
    pub code: String,
    pub component: String,
    pub message: String,
    pub action: String,
}

/// Status of one component.
#[derive(Clone, Debug)]
pub struct RecordingReadinessComponent {
    pub component: String,
    pub status: String,
    pub message: String,
}

/// The readiness report.
#[derive(Clone, Debug)]
pub struct RecordingReadiness {
    pub ready: bool,
    pub blockers: Vec<RecordingReadinessIssue>,
    pub warnings: Vec<RecordingReadinessIssue>,
    pub components: Vec<RecordingReadinessComponent>,
}

/// What was found out about the environment.
#[derive(Clone, Debug)]
pub struct RecordingReadinessProbe {
    pub recording_status: RecordingStatus,
    pub output_dir: String,
    pub output_dir_error: Option<String>,
    pub free_space_bytes: Option<u64>,
    pub ffmpeg_path: Option<String>,
    pub ffmpeg_error: Option<String>,
    pub ffprobe_available: bool,
    pub encoder_name: String,
    pub encoder_available: Option<bool>,
    pub software_fallback_available: Option<bool>,
    pub audio_configured: bool,
    pub system_audio_device_available: bool,
    pub lcu_connected: bool,
    pub live_client_available: bool,
}

pub type IssueView = (Seq<char>, Seq<char>, Seq<char>, Seq<char>);

pub type ComponentView = (Seq<char>, Seq<char>, Seq<char>);

pub open spec fn issue_view(i: RecordingReadinessIssue) -> IssueView {
    (i.code@, i.component@, i.message@, i.action@)
}

pub open spec fn component_view(c: RecordingReadinessComponent) -> ComponentView {
    (c.component@, c.status@, c.message@)
}

/// The three lists of a report as plain values.
pub struct ReadinessSections {
    pub blockers: Seq<IssueView>,
    pub warnings: Seq<IssueView>,
    pub components: Seq<ComponentView>,
}

pub open spec fn join(a: ReadinessSections, b: ReadinessSections) -> ReadinessSections {
    ReadinessSections {
        blockers: a.blockers + b.blockers,
        warnings: a.warnings + b.warnings,
        components: a.components + b.components,
    }
}

pub open spec fn no_sections() -> ReadinessSections {
    ReadinessSections { blockers: Seq::empty(), warnings: Seq::empty(), components: Seq::empty() }
}

pub open spec fn blocked(i: IssueView, c: ComponentView) -> ReadinessSections {
    ReadinessSections { blockers: seq![i], warnings: Seq::empty(), components: seq![c] }
}

pub open spec fn warned(i: IssueView, c: ComponentView) -> ReadinessSections {
    ReadinessSections { blockers: Seq::empty(), warnings: seq![i], components: seq![c] }
}

pub open spec fn fine(c: ComponentView) -> ReadinessSections {
    ReadinessSections { blockers: Seq::empty(), warnings: Seq::empty(), components: seq![c] }
}

/// The recorder's own state.
pub open spec fn status_section(s: RecordingStatus) -> ReadinessSections {
    match s {
        RecordingStatus::Error => blocked(
            ("recording_status_error"@, "recording_manager"@, "Recording manager is in an error state"@,
            "Stop recording if needed, restart LoLShorts, then retry"@),
            ("recording_manager"@, "blocker"@, "Recording manager error"@),
        ),
        RecordingStatus::Processing => blocked(
            ("recording_status_processing"@, "recording_manager"@,
            "Recording manager is processing a previous stop/save operation"@,
            "Wait for processing to finish before starting another recording"@),
            ("recording_manager"@, "blocker"@, "Recording manager is busy processing"@),
        ),
        RecordingStatus::Recording | RecordingStatus::Buffering => warned(
            ("recording_already_active"@, "recording_manager"@, "Recording is already active"@,
            "No action required unless you intended to restart recording"@),
            ("recording_manager"@, "ok"@, "Recording is already active"@),
        ),
        RecordingStatus::Idle => fine(("recording_manager"@, "ok"@, "Recording manager is idle"@)),
    }
}

/// FFmpeg.
pub open spec fn ffmpeg_section(p: RecordingReadinessProbe) -> ReadinessSections {
    match p.ffmpeg_error {
        Some(e) => blocked(
            ("ffmpeg_missing"@, "ffmpeg"@, "FFmpeg is not available: "@ + e@,
            "Install or bundle FFmpeg, then restart LoLShorts"@),
            ("ffmpeg"@, "blocker"@, "FFmpeg binary not found"@),
        ),
        None => match p.ffmpeg_path {
            Some(path) => fine(("ffmpeg"@, "ok"@, "FFmpeg found at "@ + path@)),
            None => no_sections(),
        },
    }
}

/// ffprobe.
pub open spec fn ffprobe_section(available: bool) -> ReadinessSections {
    if available {
        fine(("ffprobe"@, "ok"@, "ffprobe is available"@))
    } else {
        warned(
            ("ffprobe_unknown"@, "ffprobe"@, "ffprobe is not available or could not be located"@,
            "Video probing features may be limited; bundle ffprobe beside FFmpeg if needed"@),
            ("ffprobe"@, "warning"@, "ffprobe availability unknown"@),
        )
    }
}

/// Tenths of a GiB in `bytes`, rounded to nearest with ties to even.
pub open spec fn gib_tenths(bytes: u64) -> nat {
    let scaled = bytes as nat * 10;
    let q = scaled / (BYTES_PER_GIB as nat);
    let r = scaled % (BYTES_PER_GIB as nat);
    if 2 * r > BYTES_PER_GIB {
        q + 1
    } else if 2 * r == BYTES_PER_GIB {
        q + q % 2
    } else {
        q
    }
}

/// `bytes` in GiB with one decimal.
pub open spec fn gib_text(bytes: u64) -> Seq<char> {
    decimal(gib_tenths(bytes) / 10) + "."@ + seq![digit_char(gib_tenths(bytes) % 10)]
}

/// The recording directory and its free space.
pub open spec fn storage_section(p: RecordingReadinessProbe) -> ReadinessSections {
    match p.output_dir_error {
        Some(e) => blocked(
            ("recording_directory_unavailable"@, "storage"@, "Recording directory is not writable: "@ + e@,
            "Choose a writable recording directory or fix folder permissions"@),
            ("storage"@, "blocker"@, "Recording directory is not writable"@),
        ),
        None => match p.free_space_bytes {
            Some(free) => if free < MIN_RECORDING_FREE_BYTES {
                blocked(
                    ("disk_space_low"@, "storage"@, "Only "@ + gib_text(free) + "GB free; recording requires at least 2GB"@,
                    "Free disk space or change the recording directory"@),
                    ("storage"@, "blocker"@, "Insufficient free disk space"@),
                )
            } else {
                fine(("storage"@, "ok"@, "Recording directory ready: "@ + p.output_dir@))
            },
            None => warned(
                ("disk_space_unknown"@, "storage"@, "Could not determine free disk space"@,
                "Verify that the recording drive has at least 2GB free"@),
                ("storage"@, "unknown"@, "Free disk space could not be measured"@),
            ),
        },
    }
}

/// The configured encoder.
pub open spec fn encoder_section(p: RecordingReadinessProbe) -> ReadinessSections {
    match p.encoder_available {
        Some(true) => fine(("encoder"@, "ok"@, "Configured encoder '"@ + p.encoder_name@ + "' is advertised by FFmpeg"@)),
        Some(false) => warned(
            ("encoder_not_advertised"@, "encoder"@, "Configured encoder '"@ + p.encoder_name@
                + "' was not found in FFmpeg's encoder list. "@ + (if p.software_fallback_available == Some(true) {
                "Software fallback encoder is available"@
            } else {
                "Software fallback encoder availability is unknown"@
            }) + "."@, "Use software encoding or install the matching GPU driver/encoder support"@),
            ("encoder"@, "warning"@, "Configured encoder not advertised"@),
        ),
        None => warned(
            ("encoder_unknown"@, "encoder"@, "Encoder availability could not be probed safely"@,
            "Run encoder detection from settings or verify FFmpeg encoder support"@),
            ("encoder"@, "unknown"@, "Encoder availability unknown"@),
        ),
    }
}

/// Whether the encoder is the officially supported NVENC path.
pub open spec fn on_support_target(p: RecordingReadinessProbe) -> bool {
    contains_seq(ascii_lower_seq(p.encoder_name@), "_nvenc"@) && p.encoder_available == Some(true)
}

/// The support matrix.
pub open spec fn support_section(p: RecordingReadinessProbe) -> ReadinessSections {
    if on_support_target(p) {
        fine(("support_matrix"@, "ok"@, "NVIDIA NVENC matches the official Windows 11 support target"@))
    } else {
        warned(
            ("experimental_encoder_support"@, "support_matrix"@,
            "The configured encoder is outside the official Windows 11 + NVIDIA NVENC support target"@,
            "Use NVIDIA NVENC for the supported release path, or explicitly continue with the experimental fallback"@),
            ("support_matrix"@, "warning"@, "AMD, Intel, and CPU encoders are experimental fallbacks"@),
        )
    }
}

/// Audio capture.
pub open spec fn audio_section(p: RecordingReadinessProbe) -> ReadinessSections {
    if p.audio_configured && p.system_audio_device_available {
        fine(("audio"@, "ok"@, "A Windows system-audio output device is available"@))
    } else if p.audio_configured {
        warned(
            ("audio_device_missing"@, "audio"@, "Audio capture is configured, but no Windows output device was detected"@,
            "Connect or enable an output device, then retry the readiness check"@),
            ("audio"@, "warning"@, "No output audio device detected"@),
        )
    } else {
        warned(
            ("audio_disabled"@, "audio"@, "Audio capture is disabled in the recording configuration"@,
            "Enable audio in settings if clips should include sound"@),
            ("audio"@, "warning"@, "Audio capture disabled"@),
        )
    }
}

/// Capture itself, which cannot be verified ahead of a game.
pub open spec fn capture_section() -> ReadinessSections {
    warned(
        ("capture_hardware_unverified"@, "capture"@,
        "Hardware/window capture cannot be fully verified until a game window is present"@,
        "Start or focus League of Legends if recordings are blank"@),
        ("capture"@, "unknown"@, "Capture is runtime/hardware dependent"@),
    )
}

/// The League client.
pub open spec fn lcu_section(connected: bool) -> ReadinessSections {
    if connected {
        fine(("lcu"@, "ok"@, "LCU connection is available"@))
    } else {
        warned(
            ("lcu_not_connected"@, "lcu"@, "League Client (LCU) is not connected"@,
            "Start the League client for automatic replay/live-game context"@),
            ("lcu"@, "warning"@, "LCU is not connected"@),
        )
    }
}

/// The Live Client API.
pub open spec fn live_client_section(available: bool) -> ReadinessSections {
    if available {
        fine(("live_client"@, "ok"@, "Live Client API is reachable"@))
    } else {
        fine(("live_client"@, "unknown"@, "Live Client API is unavailable until an active game/replay is loaded"@))
    }
}

/// The whole report, section by section.
pub open spec fn readiness_sections(p: RecordingReadinessProbe) -> ReadinessSections {
    join(
        join(
            join(
                join(
                    join(
                        join(
                            join(
                                join(join(status_section(p.recording_status), ffmpeg_section(p)), ffprobe_section(p.ffprobe_available)),
                                storage_section(p),
                            ),
                            encoder_section(p),
                        ),
                        support_section(p),
                    ),
                    audio_section(p),
                ),
                capture_section(),
            ),
            lcu_section(p.lcu_connected),
        ),
        live_client_section(p.live_client_available),
    )
}

pub open spec fn readiness_view(r: RecordingReadiness) -> ReadinessSections {
    ReadinessSections {
        blockers: r.blockers@.map_values(|i: RecordingReadinessIssue| issue_view(i)),
        warnings: r.warnings@.map_values(|i: RecordingReadinessIssue| issue_view(i)),
        components: r.components@.map_values(|c: RecordingReadinessComponent| component_view(c)),
    }
}

/// A readiness issue.
pub fn issue(code: &str, part: &str, message: &str, action: &str) -> (i: RecordingReadinessIssue)
    ensures
        issue_view(i) == (code@, part@, message@, action@),
{
    RecordingReadinessIssue {
        code: string_of(code),
        component: string_of(part),
        message: string_of(message),
        action: string_of(action),
    }
}

/// A component status.
pub fn component(name: &str, status: &str, message: &str) -> (c: RecordingReadinessComponent)
    ensures
        component_view(c) == (name@, status@, message@),
{
    RecordingReadinessComponent {
        component: string_of(name),
        status: string_of(status),
        message: string_of(message),
    }
}

/// `a` followed by `b`.
fn concat2(a: &str, b: &str) -> (r: String)
    ensures
        r@ == a@ + b@,
{
    let mut s = string_of(a);
    append_str(&mut s, b);
    s
}

/// `a`, `b`, then `c`.
fn concat3(a: &str, b: &str, c: &str) -> (r: String)
    ensures
        r@ == a@ + b@ + c@,
{
    let mut s = string_of(a);
    append_str(&mut s, b);
    append_str(&mut s, c);
    s
}

/// Lists being filled, section after section.
struct ReadinessBuilder {
    blockers: Vec<RecordingReadinessIssue>,
    warnings: Vec<RecordingReadinessIssue>,
    components: Vec<RecordingReadinessComponent>,
}

impl ReadinessBuilder {
    spec fn view(&self) -> ReadinessSections {
        ReadinessSections {
            blockers: self.blockers@.map_values(|i: RecordingReadinessIssue| issue_view(i)),
            warnings: self.warnings@.map_values(|i: RecordingReadinessIssue| issue_view(i)),
            components: self.components@.map_values(|c: RecordingReadinessComponent| component_view(c)),
        }
    }

    fn block(&mut self, i: RecordingReadinessIssue, c: RecordingReadinessComponent)
        ensures
            final(self).view() == join(old(self).view(), blocked(issue_view(i), component_view(c))),
    {
        self.blockers.push(i);
        self.components.push(c);
        proof {
            assert(self.view().blockers =~= old(self).view().blockers + seq![issue_view(i)]);
            assert(self.view().warnings =~= old(self).view().warnings + Seq::<IssueView>::empty());
            assert(self.view().components =~= old(self).view().components + seq![component_view(c)]);
        }
    }

    fn warn(&mut self, i: RecordingReadinessIssue, c: RecordingReadinessComponent)
        ensures
            final(self).view() == join(old(self).view(), warned(issue_view(i), component_view(c))),
    {
        self.warnings.push(i);
        self.components.push(c);
        proof {
            assert(self.view().blockers =~= old(self).view().blockers + Seq::<IssueView>::empty());
            assert(self.view().warnings =~= old(self).view().warnings + seq![issue_view(i)]);
            assert(self.view().components =~= old(self).view().components + seq![component_view(c)]);
        }
    }

    fn ok(&mut self, c: RecordingReadinessComponent)
        ensures
            final(self).view() == join(old(self).view(), fine(component_view(c))),
    {
        self.components.push(c);
        proof {
            assert(self.view().blockers =~= old(self).view().blockers + Seq::<IssueView>::empty());
            assert(self.view().warnings =~= old(self).view().warnings + Seq::<IssueView>::empty());
            assert(self.view().components =~= old(self).view().components + seq![component_view(c)]);
        }
    }

    fn add_status(&mut self, s: RecordingStatus)
        ensures
            final(self).view() == join(old(self).view(), status_section(s)),
    {
        match s {
            RecordingStatus::Error => self.block(
                issue(
                    "recording_status_error",
                    "recording_manager",
                    "Recording manager is in an error state",
                    "Stop recording if needed, restart LoLShorts, then retry",
                ),
                component("recording_manager", "blocker", "Recording manager error"),
            ),
            RecordingStatus::Processing => self.block(
                issue(
                    "recording_status_processing",
                    "recording_manager",
                    "Recording manager is processing a previous stop/save operation",
                    "Wait for processing to finish before starting another recording",
                ),
                component("recording_manager", "blocker", "Recording manager is busy processing"),
            ),
            RecordingStatus::Recording | RecordingStatus::Buffering => self.warn(
                issue(
                    "recording_already_active",
                    "recording_manager",
                    "Recording is already active",
                    "No action required unless you intended to restart recording",
                ),
                component("recording_manager", "ok", "Recording is already active"),
            ),
            RecordingStatus::Idle => self.ok(component("recording_manager", "ok", "Recording manager is idle")),
        }
    }

    fn add_ffmpeg(&mut self, p: &RecordingReadinessProbe)
        ensures
            final(self).view() == join(old(self).view(), ffmpeg_section(*p)),
    {
        match &p.ffmpeg_error {
            Some(e) => {
                let msg = concat2("FFmpeg is not available: ", e.as_str());
                self.block(
                    issue("ffmpeg_missing", "ffmpeg", msg.as_str(), "Install or bundle FFmpeg, then restart LoLShorts"),
                    component("ffmpeg", "blocker", "FFmpeg binary not found"),
                );
            },
            None => match &p.ffmpeg_path {
                Some(path) => {
                    let msg = concat2("FFmpeg found at ", path.as_str());
                    self.ok(component("ffmpeg", "ok", msg.as_str()));
                },
                None => {
                    proof {
                        assert(join(old(self).view(), no_sections()) =~= old(self).view());
                    }
                },
            },
        }
    }

    fn add_ffprobe(&mut self, available: bool)
        ensures
            final(self).view() == join(old(self).view(), ffprobe_section(available)),
    {
        if available {
            self.ok(component("ffprobe", "ok", "ffprobe is available"));
        } else {
            self.warn(
                issue(
                    "ffprobe_unknown",
                    "ffprobe",
                    "ffprobe is not available or could not be located",
                    "Video probing features may be limited; bundle ffprobe beside FFmpeg if needed",
                ),
                component("ffprobe", "warning", "ffprobe availability unknown"),
            );
        }
    }

    fn add_storage(&mut self, p: &RecordingReadinessProbe)
        ensures
            final(self).view() == join(old(self).view(), storage_section(*p)),
    {
        match &p.output_dir_error {
            Some(e) => {
                let msg = concat2("Recording directory is not writable: ", e.as_str());
                self.block(
                    issue(
                        "recording_directory_unavailable",
                        "storage",
                        msg.as_str(),
                        "Choose a writable recording directory or fix folder permissions",
                    ),
                    component("storage", "blocker", "Recording directory is not writable"),
                );
            },
            None => match p.free_space_bytes {
                Some(free) => {
                    if free < MIN_RECORDING_FREE_BYTES {
                        let mut msg = string_of("Only ");
                        let gib = format_gib(free);
                        append_str(&mut msg, gib.as_str());
                        append_str(&mut msg, "GB free; recording requires at least 2GB");
                        self.block(
                            issue("disk_space_low", "storage", msg.as_str(), "Free disk space or change the recording directory"),
                            component("storage", "blocker", "Insufficient free disk space"),
                        );
                    } else {
                        let msg = concat2("Recording directory ready: ", p.output_dir.as_str());
                        self.ok(component("storage", "ok", msg.as_str()));
                    }
                },
                None => self.warn(
                    issue(
                        "disk_space_unknown",
                        "storage",
                        "Could not determine free disk space",
                        "Verify that the recording drive has at least 2GB free",
                    ),
                    component("storage", "unknown", "Free disk space could not be measured"),
                ),
            },
        }
    }

    fn add_encoder(&mut self, p: &RecordingReadinessProbe)
        ensures
            final(self).view() == join(old(self).view(), encoder_section(*p)),
    {
        match p.encoder_available {
            Some(true) => {
                let msg = concat3("Configured encoder '", p.encoder_name.as_str(), "' is advertised by FFmpeg");
                self.ok(component("encoder", "ok", msg.as_str()));
            },
            Some(false) => {
                let fallback = if p.software_fallback_available == Some(true) {
                    "Software fallback encoder is available"
                } else {
                    "Software fallback encoder availability is unknown"
                };
                let mut msg = concat3(
                    "Configured encoder '",
                    p.encoder_name.as_str(),
                    "' was not found in FFmpeg's encoder list. ",
                );
                append_str(&mut msg, fallback);
                append_str(&mut msg, ".");
                self.warn(
                    issue(
                        "encoder_not_advertised",
                        "encoder",
                        msg.as_str(),
                        "Use software encoding or install the matching GPU driver/encoder support",
                    ),
                    component("encoder", "warning", "Configured encoder not advertised"),
                );
            },
            None => self.warn(
                issue(
                    "encoder_unknown",
                    "encoder",
                    "Encoder availability could not be probed safely",
                    "Run encoder detection from settings or verify FFmpeg encoder support",
                ),
                component("encoder", "unknown", "Encoder availability unknown"),
            ),
        }
    }

    fn add_support(&mut self, p: &RecordingReadinessProbe)
        ensures
            final(self).view() == join(old(self).view(), support_section(*p)),
    {
        let lower = crate::text::to_ascii_lowercase(p.encoder_name.as_str());
        if crate::text::str_contains(lower.as_str(), "_nvenc") && p.encoder_available == Some(true) {
            self.ok(component("support_matrix", "ok", "NVIDIA NVENC matches the official Windows 11 support target"));
        } else {
            self.warn(
                issue(
                    "experimental_encoder_support",
                    "support_matrix",
                    "The configured encoder is outside the official Windows 11 + NVIDIA NVENC support target",
                    "Use NVIDIA NVENC for the supported release path, or explicitly continue with the experimental fallback",
                ),
                component("support_matrix", "warning", "AMD, Intel, and CPU encoders are experimental fallbacks"),
            );
        }
    }

    fn add_audio(&mut self, p: &RecordingReadinessProbe)
        ensures
            final(self).view() == join(old(self).view(), audio_section(*p)),
    {
        if p.audio_configured && p.system_audio_device_available {
            self.ok(component("audio", "ok", "A Windows system-audio output device is available"));
        } else if p.audio_configured {
            self.warn(
                issue(
                    "audio_device_missing",
                    "audio",
                    "Audio capture is configured, but no Windows output device was detected",
                    "Connect or enable an output device, then retry the readiness check",
                ),
                component("audio", "warning", "No output audio device detected"),
            );
        } else {
            self.warn(
                issue(
                    "audio_disabled",
                    "audio",
                    "Audio capture is disabled in the recording configuration",
                    "Enable audio in settings if clips should include sound",
                ),
                component("audio", "warning", "Audio capture disabled"),
            );
        }
    }

    fn add_capture(&mut self)
        ensures
            final(self).view() == join(old(self).view(), capture_section()),
    {
        self.warn(
            issue(
                "capture_hardware_unverified",
                "capture",
                "Hardware/window capture cannot be fully verified until a game window is present",
                "Start or focus League of Legends if recordings are blank",
            ),
            component("capture", "unknown", "Capture is runtime/hardware dependent"),
        );
    }

    fn add_lcu(&mut self, connected: bool)
        ensures
            final(self).view() == join(old(self).view(), lcu_section(connected)),
    {
        if connected {
            self.ok(component("lcu", "ok", "LCU connection is available"));
        } else {
            self.warn(
                issue(
                    "lcu_not_connected",
                    "lcu",
                    "League Client (LCU) is not connected",
                    "Start the League client for automatic replay/live-game context",
                ),
                component("lcu", "warning", "LCU is not connected"),
            );
        }
    }

    fn add_live_client(&mut self, available: bool)
        ensures
            final(self).view() == join(old(self).view(), live_client_section(available)),
    {
        if available {
            self.ok(component("live_client", "ok", "Live Client API is reachable"));
        } else {
            self.ok(
                component("live_client", "unknown", "Live Client API is unavailable until an active game/replay is loaded"),
            );
        }
    }
}

/// `bytes` in GiB with one decimal, rounded to nearest (ties to even).
pub fn format_gib(bytes: u64) -> (s: String)
    ensures
        s@ == gib_text(bytes),
{
    let scaled: u128 = (bytes as u128) * 10;
    let q: u128 = scaled / (BYTES_PER_GIB as u128);
    let r: u128 = scaled % (BYTES_PER_GIB as u128);
    let t: u128 = if 2 * r > BYTES_PER_GIB as u128 {
        q + 1
    } else if 2 * r == BYTES_PER_GIB as u128 {
        q + q % 2
    } else {
        q
    };
    assert(t == gib_tenths(bytes));
    assert(t <= u64::MAX) by (nonlinear_arith)
        requires
            t <= q + 1,
            q == scaled / (BYTES_PER_GIB as u128),
            scaled == bytes * 10,
            bytes <= u64::MAX,
    ;
    let t64: u64 = t as u64;
    let mut s = String::new();
    push_decimal(&mut s, t64 / 10);
    push_char(&mut s, '.');
    let d = t64 % 10;
    let mut digits = String::new();
    push_decimal(&mut digits, d);
    proof {
        assert(decimal(d as nat) == seq![digit_char(d as nat)]);
    }
    append_str(&mut s, digits.as_str());
    proof {
        reveal_strlit(".");
        assert(s@ =~= gib_text(bytes));
    }
    s
}

/// Builds the readiness report from a probe of the environment.
pub fn build_recording_readiness(probe: RecordingReadinessProbe) -> (r: RecordingReadiness)
    ensures
        readiness_view(r) == readiness_sections(probe),
        r.ready == (readiness_sections(probe).blockers.len() == 0),
{
    let mut b = ReadinessBuilder { blockers: Vec::new(), warnings: Vec::new(), components: Vec::new() };
    b.add_status(probe.recording_status);
    proof {
        let st = status_section(probe.recording_status);
        assert(b.view().blockers =~= st.blockers);
        assert(b.view().warnings =~= st.warnings);
        assert(b.view().components =~= st.components);
        assert(b.view() == st);
    }
    b.add_ffmpeg(&probe);
    b.add_ffprobe(probe.ffprobe_available);
    b.add_storage(&probe);
    b.add_encoder(&probe);
    b.add_support(&probe);
    b.add_audio(&probe);
    b.add_capture();
    b.add_lcu(probe.lcu_connected);
    b.add_live_client(probe.live_client_available);
    let ready = b.blockers.len() == 0;
    RecordingReadiness { ready, blockers: b.blockers, warnings: b.warnings, components: b.components }
}

/// Adds the overlay's capture-exclusion status to a report.
pub fn add_overlay_status(r: &mut RecordingReadiness, overlay_enabled: bool, exclusion_applied: bool)
    ensures
        final(r).ready == old(r).ready,
        final(r).blockers@ == old(r).blockers@,
        !overlay_enabled ==> final(r).warnings@ == old(r).warnings@ && final(r).components@.map_values(
            |c: RecordingReadinessComponent| component_view(c),
        ) == old(r).components@.map_values(|c: RecordingReadinessComponent| component_view(c)).push(
            ("overlay_exclusion"@, "ok"@, "Overlay is disabled, so it cannot enter recording frames"@),
        ),
        overlay_enabled && exclusion_applied ==> final(r).warnings@ == old(r).warnings@
            && final(r).components@.map_values(|c: RecordingReadinessComponent| component_view(c)) == old(
            r,
        ).components@.map_values(|c: RecordingReadinessComponent| component_view(c)).push(
            ("overlay_exclusion"@, "ok"@, "Windows capture exclusion is applied to the overlay"@),
        ),
        overlay_enabled && !exclusion_applied ==> final(r).warnings@.map_values(
            |i: RecordingReadinessIssue| issue_view(i),
        ) == old(r).warnings@.map_values(|i: RecordingReadinessIssue| issue_view(i)).push(
            ("overlay_exclusion_unavailable"@, "overlay_exclusion"@,
            "Overlay capture exclusion is unavailable; the overlay will remain hidden"@,
            "Restart LoLShorts and review diagnostics before enabling the overlay"@),
        ) && final(r).components@.map_values(|c: RecordingReadinessComponent| component_view(c)) == old(
            r,
        ).components@.map_values(|c: RecordingReadinessComponent| component_view(c)).push(
            ("overlay_exclusion"@, "warning"@, "Capture exclusion unavailable; fail-closed hiding is active"@),
        ),
{
    if !overlay_enabled {
        let c = component("overlay_exclusion", "ok", "Overlay is disabled, so it cannot enter recording frames");
        r.components.push(c);
        proof {
            assert(r.components@.map_values(|c: RecordingReadinessComponent| component_view(c)) =~= old(
                r,
            ).components@.map_values(|c: RecordingReadinessComponent| component_view(c)).push(component_view(c)));
        }
    } else if exclusion_applied {
        let c = component("overlay_exclusion", "ok", "Windows capture exclusion is applied to the overlay");
        r.components.push(c);
        proof {
            assert(r.components@.map_values(|c: RecordingReadinessComponent| component_view(c)) =~= old(
                r,
            ).components@.map_values(|c: RecordingReadinessComponent| component_view(c)).push(component_view(c)));
        }
    } else {
        let i = issue(
            "overlay_exclusion_unavailable",
            "overlay_exclusion",
            "Overlay capture exclusion is unavailable; the overlay will remain hidden",
            "Restart LoLShorts and review diagnostics before enabling the overlay",
        );
        let c = component("overlay_exclusion", "warning", "Capture exclusion unavailable; fail-closed hiding is active");
        r.warnings.push(i);
        r.components.push(c);
        proof {
            assert(r.warnings@.map_values(|i: RecordingReadinessIssue| issue_view(i)) =~= old(
                r,
            ).warnings@.map_values(|i: RecordingReadinessIssue| issue_view(i)).push(issue_view(i)));
            assert(r.components@.map_values(|c: RecordingReadinessComponent| component_view(c)) =~= old(
                r,
            ).components@.map_values(|c: RecordingReadinessComponent| component_view(c)).push(component_view(c)));
        }
    }
}

/// "component: message (action)" for one blocker.
pub open spec fn blocker_line(i: IssueView) -> Seq<char> {
    i.1 + ": "@ + i.2 + " ("@ + i.3 + ")"@
}

/// The blocker lines joined with "; ".
pub open spec fn joined_blockers(b: Seq<IssueView>) -> Seq<char>
    decreases b.len(),
{
    if b.len() == 0 {
        Seq::empty()
    } else if b.len() == 1 {
        blocker_line(b[0])
    } else {
        joined_blockers(b.drop_last()) + "; "@ + blocker_line(b.last())
    }
}

/// One message listing every blocker, or `None` when nothing blocks recording.
pub fn readiness_blocker_message(readiness: &RecordingReadiness) -> (m: Option<String>)
    ensures
        readiness.blockers@.len() == 0 <==> m is None,
        m matches Some(s) ==> s@ == joined_blockers(
            readiness.blockers@.map_values(|i: RecordingReadinessIssue| issue_view(i)),
        ),
{
    if readiness.blockers.len() == 0 {
        return None;
    }
    let ghost b = readiness.blockers@.map_values(|i: RecordingReadinessIssue| issue_view(i));
    let mut out = String::new();
    let mut k: usize = 0;
    while k < readiness.blockers.len()
        invariant
            k <= readiness.blockers@.len(),
            b == readiness.blockers@.map_values(|i: RecordingReadinessIssue| issue_view(i)),
            out@ == joined_blockers(b.take(k as int)),
        decreases readiness.blockers@.len() - k,
    {
        let item = &readiness.blockers[k];
        proof {
            assert(b.take(k + 1).drop_last() =~= b.take(k as int));
            assert(b.take(k + 1).last() == issue_view(*item));
            if k == 0 {
                assert(b.take(1)[0] == issue_view(*item));
            }
        }
        if k > 0 {
            append_str(&mut out, "; ");
        }
        append_str(&mut out, item.component.as_str());
        append_str(&mut out, ": ");
        append_str(&mut out, item.message.as_str());
        append_str(&mut out, " (");
        append_str(&mut out, item.action.as_str());
        append_str(&mut out, ")");
        proof {
            if k == 0 {
                assert(out@ =~= joined_blockers(b.take(1)));
            } else {
                assert(out@ =~= joined_blockers(b.take(k + 1)));
            }
        }
        k = k + 1;
    }
    proof {
        assert(b.take(readiness.blockers@.len() as int) =~= b);
    }
    Some(out)
}

/// Why a plain stop is refused.
#[derive(Clone, Copy, Debug, PartialEq, Eq, Structural)]
pub enum StopRefusal {
    /// An automatic capture session owns the recorder; it must be stopped as a whole.
    AutoCaptureActive,
}

impl StopRefusal {
    /// The message shown to the user.
    pub fn message(&self) -> (s: &'static str)
        ensures
            s@ == "stop_recording cannot stop an automatic capture session; use stop_auto_capture"@,
    {
        "stop_recording cannot stop an automatic capture session; use stop_auto_capture"
    }
}

/// A plain stop is refused while an automatic capture session is active.
pub fn reject_raw_stop_during_auto_capture(auto_capture_active: bool) -> (r: Result<(), StopRefusal>)
    ensures
        auto_capture_active <==> r is Err,
{
    if auto_capture_active {
        Err(StopRefusal::AutoCaptureActive)
    } else {
        Ok(())
    }
}

/// The capture resolution shown to the user: on Windows the game window is captured
/// at its native size; elsewhere the configured size applies.
pub open spec fn resolution_label(resolution: (u32, u32), platform: crate::encoding::TargetPlatform) -> Seq<char> {
    match platform {
        crate::encoding::TargetPlatform::Windows => "native (game window)"@,
        _ => decimal(resolution.0 as nat) + "x"@ + decimal(resolution.1 as nat),
    }
}

/// The capture resolution shown to the user.
pub fn recording_quality_resolution_label(resolution: (u32, u32), platform: crate::encoding::TargetPlatform) -> (s:
    String)
    ensures
        s@ == resolution_label(resolution, platform),
{
    match platform {
        crate::encoding::TargetPlatform::Windows => string_of("native (game window)"),
        _ => {
            let mut s = String::new();
            push_decimal(&mut s, resolution.0 as u64);
            append_str(&mut s, "x");
            push_decimal(&mut s, resolution.1 as u64);
            proof {
                assert(s@ =~= decimal(resolution.0 as nat) + "x"@ + decimal(resolution.1 as nat));
            }
            s
        },
    }
}

/// Whether a probe taken at `checked_at_ms` is still fresh at `now_ms` (a clock that
/// went backwards makes it stale).
pub open spec fn cache_fresh(checked_at_ms: u64, now_ms: u64) -> bool {
    checked_at_ms <= now_ms && now_ms - checked_at_ms < READINESS_CACHE_TTL_MS
}

/// Whether a cached environment probe may be reused.
pub fn readiness_cache_is_fresh(checked_at_ms: u64, now_ms: u64) -> (r: bool)
    ensures
        r == cache_fresh(checked_at_ms, now_ms),
{
    now_ms >= checked_at_ms && now_ms - checked_at_ms < READINESS_CACHE_TTL_MS
}

/// A participant of the current game or replay, as the League client reports it.
#[derive(Clone, Debug)]
pub struct PlayerInfo {
    pub summoner_name: String,
    pub champion_id: u32,
    pub team_id: u32,
}

/// State of the list of replay targets.
#[derive(Clone, Copy, Debug, PartialEq, Eq, Structural)]
pub enum ReplayTargetCandidateStatus {
    Unavailable,
    Loading,
    Empty,
    Ready,
    Failed,
}

/// A player who can be followed in a replay.
#[derive(Clone, Debug)]
pub struct ReplayTargetCandidate {
    pub summoner_name: String,
    pub champion_id: u32,
    pub team_id: u32,
}

/// The participants with a name that is not blank, as candidates.
fn named_candidates(players: Vec<PlayerInfo>) -> (candidates: Vec<ReplayTargetCandidate>)
    ensures
        candidates@.map_values(|c: ReplayTargetCandidate| candidate_view(c)) == named_players(players@),
{
    let ghost all = players@;
    let n = players.len();
    let mut rest = players;
    let mut candidates: Vec<ReplayTargetCandidate> = Vec::new();
    let mut k: usize = 0;
    proof {
        assert(all.skip(0) =~= all);
        assert(all.take(0) =~= Seq::<PlayerInfo>::empty());
    }
    while rest.len() > 0
        invariant
            rest@ == all.skip(k as int),
            k <= n,
            n == all.len(),
            candidates@.map_values(|c: ReplayTargetCandidate| candidate_view(c)) == named_players(all.take(k as int)),
        decreases rest@.len(),
    {
        let p = rest.remove(0);
        proof {
            assert(all.take(k + 1).drop_last() =~= all.take(k as int));
            assert(all.take(k + 1).last() == p);
            assert(all.skip(k + 1) =~= all.skip(k as int).remove(0));
        }
        let name = crate::text::trim(p.summoner_name.as_str());
        if !name.as_str().is_empty() {
            let c = candidate_from_player(p);
            let ghost before = candidates@;
            candidates.push(c);
            proof {
                assert(candidates@.map_values(|c: ReplayTargetCandidate| candidate_view(c)) =~= before.map_values(
                    |c: ReplayTargetCandidate| candidate_view(c),
                ).push(candidate_view(c)));
            }
        }
        k = k + 1;
    }
    proof {
        assert(all.take(k as int) =~= all);
    }
    candidates
}

/// The replay targets on offer.
#[derive(Clone, Debug)]
pub struct ReplayTargetCandidates {
    pub status: ReplayTargetCandidateStatus,
    pub candidates: Vec<ReplayTargetCandidate>,
    pub selected_target: Option<String>,
    pub retryable: bool,
    pub error: Option<String>,
}

pub open spec fn candidate_view(c: ReplayTargetCandidate) -> (Seq<char>, u32, u32) {
    (c.summoner_name@, c.champion_id, c.team_id)
}

pub open spec fn player_view(p: PlayerInfo) -> (Seq<char>, u32, u32) {
    (p.summoner_name@, p.champion_id, p.team_id)
}

/// The players with a name that is not blank, in order.
pub open spec fn named_players(ps: Seq<PlayerInfo>) -> Seq<(Seq<char>, u32, u32)>
    decreases ps.len(),
{
    if ps.len() == 0 {
        Seq::empty()
    } else if crate::text::trimmed(ps.last().summoner_name@).len() == 0 {
        named_players(ps.drop_last())
    } else {
        named_players(ps.drop_last()).push(player_view(ps.last()))
    }
}

/// Whether a lower-cased client error means the game is still loading.
pub open spec fn loading_error(lower: Seq<char>) -> bool {
    contains_seq(lower, "loading"@) || contains_seq(lower, "invalid team data"@) || contains_seq(lower, "game session"@)
}

/// Whether a lower-cased client error means the game is still loading (so a retry
/// will help).
pub fn error_means_loading(lower: &str) -> (r: bool)
    ensures
        r == loading_error(lower@),
{
    crate::text::str_contains(lower, "loading") || crate::text::str_contains(lower, "invalid team data")
        || crate::text::str_contains(lower, "game session")
}

/// A candidate from a participant.
pub fn candidate_from_player(player: PlayerInfo) -> (c: ReplayTargetCandidate)
    ensures
        candidate_view(c) == player_view(player),
{
    ReplayTargetCandidate { summoner_name: player.summoner_name, champion_id: player.champion_id, team_id: player.team_id }
}

/// The replay targets on offer, from the client's connection state and participant list.
pub fn build_replay_target_candidates(
    lcu_connected: bool,
    participants: Result<Vec<PlayerInfo>, String>,
    selected_target: Option<String>,
) -> (r: ReplayTargetCandidates)
    ensures
        r.selected_target == selected_target,
        !lcu_connected ==> r.status == ReplayTargetCandidateStatus::Unavailable && r.candidates@.len() == 0
            && r.retryable && (r.error matches Some(e) && e@ == "LCU is not connected; start or reconnect the League client"@),
        lcu_connected ==> match participants {
            Ok(ps) => {
                &&& r.candidates@.map_values(|c: ReplayTargetCandidate| candidate_view(c)) == named_players(ps@)
                &&& r.status == (if named_players(ps@).len() == 0 {
                    ReplayTargetCandidateStatus::Empty
                } else {
                    ReplayTargetCandidateStatus::Ready
                })
                &&& !r.retryable
                &&& r.error is None
            },
            Err(e) => {
                &&& r.candidates@.len() == 0
                &&& r.status == (if loading_error(crate::text::lowercase(e@)) {
                    ReplayTargetCandidateStatus::Loading
                } else {
                    ReplayTargetCandidateStatus::Failed
                })
                &&& r.retryable
                &&& r.error == Some(e)
            },
        },
{
    if !lcu_connected {
        return ReplayTargetCandidates {
            status: ReplayTargetCandidateStatus::Unavailable,
            candidates: Vec::new(),
            selected_target,
            retryable: true,
            error: Some(string_of("LCU is not connected; start or reconnect the League client")),
        };
    }
    match participants {
        Ok(players) => {
            let candidates = named_candidates(players);
            let status = if candidates.len() == 0 {
                ReplayTargetCandidateStatus::Empty
            } else {
                ReplayTargetCandidateStatus::Ready
            };
            ReplayTargetCandidates { status, candidates, selected_target, retryable: false, error: None }
        },
        Err(error) => {
            let lower = crate::text::to_lowercase(error.as_str());
            let loading = error_means_loading(lower.as_str());
            ReplayTargetCandidates {
                status: if loading {
                    ReplayTargetCandidateStatus::Loading
                } else {
                    ReplayTargetCandidateStatus::Failed
                },
                candidates: Vec::new(),
                selected_target,
                retryable: true,
                error: Some(error),
            }
        },
    }
}

/// Why a replay target was refused.
#[derive(Clone, Debug)]
pub enum ReplayTargetError {
    /// The name is blank or longer than 32 bytes.
    BadLength,
    /// The name is not among the current candidates; holds the trimmed name.
    Stale(String),
    /// No candidates are known yet.
    NoCandidates,
}

impl ReplayTargetError {
    /// The message shown to the user.
    pub fn message(&self) -> (s: String)
        ensures
            s@ == match self {
                ReplayTargetError::BadLength => "Summoner name must be 1-32 characters"@,
                ReplayTargetError::Stale(t) => "Selected replay target '"@ + t@
                    + "' is stale or not in the current replay candidates"@,
                ReplayTargetError::NoCandidates => "No replay target candidates are available yet; wait for replay participants to load"@,
            },
    {
        match self {
            ReplayTargetError::BadLength => string_of("Summoner name must be 1-32 characters"),
            ReplayTargetError::Stale(t) => concat3(
                "Selected replay target '",
                t.as_str(),
                "' is stale or not in the current replay candidates",
            ),
            ReplayTargetError::NoCandidates => string_of(
                "No replay target candidates are available yet; wait for replay participants to load",
            ),
        }
    }
}

/// Whether a lower-cased target is among the lower-cased candidate names.
pub fn target_in_lowered(target_lower: &str, lowered_names: &Vec<String>) -> (r: bool)
    ensures
        r == exists|i: int| 0 <= i < lowered_names@.len() && #[trigger] lowered_names@[i]@ == target_lower@,
{
    crate::text::strings_contain(lowered_names, target_lower)
}

/// Checks a chosen replay target against the candidates on offer.
pub fn validate_replay_target_selection(target: &str, readiness: &ReplayTargetCandidates) -> (r: Result<
    (),
    ReplayTargetError,
>)
    ensures
        ({
            let t = crate::text::trimmed(target@);
            if t.len() == 0 || crate::text::utf8_len(t) > 32 {
                r matches Err(ReplayTargetError::BadLength)
            } else {
                match readiness.status {
                    ReplayTargetCandidateStatus::Ready => if exists|i: int|
                        0 <= i < readiness.candidates@.len() && crate::text::lowercase(
                            #[trigger] readiness.candidates@[i].summoner_name@,
                        ) == crate::text::lowercase(t) {
                        r is Ok
                    } else {
                        r matches Err(ReplayTargetError::Stale(s)) && s@ == t
                    },
                    ReplayTargetCandidateStatus::Empty => r matches Err(ReplayTargetError::NoCandidates),
                    _ => r is Ok,
                }
            }
        }),
{
    let t = crate::text::trim(target);
    let len = crate::text::byte_len(t.as_str());
    if t.as_str().is_empty() || len > 32 {
        return Err(ReplayTargetError::BadLength);
    }
    proof {
        assert(t@.len() != 0);
    }
    match readiness.status {
        ReplayTargetCandidateStatus::Ready => {
            let target_lower = crate::text::to_lowercase(t.as_str());
            let mut lowered: Vec<String> = Vec::new();
            let mut i: usize = 0;
            while i < readiness.candidates.len()
                invariant
                    i <= readiness.candidates@.len(),
                    lowered@.len() == i,
                    forall|j: int| 0 <= j < i ==> #[trigger] lowered@[j]@ == crate::text::lowercase(
                        readiness.candidates@[j].summoner_name@,
                    ),
                decreases readiness.candidates@.len() - i,
            {
                lowered.push(crate::text::to_lowercase(readiness.candidates[i].summoner_name.as_str()));
                i = i + 1;
            }
            if target_in_lowered(target_lower.as_str(), &lowered) {
                proof {
                    let j = choose|j: int| 0 <= j < lowered@.len() && #[trigger] lowered@[j]@ == target_lower@;
                    assert(crate::text::lowercase(readiness.candidates@[j].summoner_name@) == crate::text::lowercase(t@));
                }
                Ok(())
            } else {
                proof {
                    if exists|j: int|
                        0 <= j < readiness.candidates@.len() && crate::text::lowercase(
                            #[trigger] readiness.candidates@[j].summoner_name@,
                        ) == crate::text::lowercase(t@) {
                        let j = choose|j: int|
                            0 <= j < readiness.candidates@.len() && crate::text::lowercase(
                                #[trigger] readiness.candidates@[j].summoner_name@,
                            ) == crate::text::lowercase(t@);
                        assert(lowered@[j]@ == target_lower@);
                    }
                }
                Err(ReplayTargetError::Stale(t))
            }
        },
        ReplayTargetCandidateStatus::Empty => Err(ReplayTargetError::NoCandidates),
        _ => Ok(()),
    }
}

/// What a cached environment probe was taken for.
#[derive(Clone, Debug)]
pub struct RecordingReadinessCacheKey {
    pub output_dir: String,
    pub encoder_name: String,
    pub software_fallback_name: String,
    pub audio_configured: bool,
}

/// The part of a readiness probe that is slow to find out.
#[derive(Clone, Debug)]
pub struct RecordingReadinessEnvironmentProbe {
    pub output_dir_error: Option<String>,
    pub free_space_bytes: Option<u64>,
    pub ffmpeg_path: Option<String>,
    pub ffmpeg_error: Option<String>,
    pub ffprobe_available: bool,
    pub encoder_available: Option<bool>,
    pub software_fallback_available: Option<bool>,
    pub system_audio_device_available: bool,
    pub live_client_available: bool,
}

fn copy_opt_string(o: &Option<String>) -> (r: Option<String>)
    ensures
        r == *o,
{
    match o {
        Some(s) => Some(s.clone()),
        None => None,
    }
}

impl RecordingReadinessEnvironmentProbe {
    /// A copy of the probe.
    pub fn duplicate(&self) -> (r: Self)
        ensures
            r == *self,
    {
        RecordingReadinessEnvironmentProbe {
            output_dir_error: copy_opt_string(&self.output_dir_error),
            free_space_bytes: self.free_space_bytes,
            ffmpeg_path: copy_opt_string(&self.ffmpeg_path),
            ffmpeg_error: copy_opt_string(&self.ffmpeg_error),
            ffprobe_available: self.ffprobe_available,
            encoder_available: self.encoder_available,
            software_fallback_available: self.software_fallback_available,
            system_audio_device_available: self.system_audio_device_available,
            live_client_available: self.live_client_available,
        }
    }
}

pub open spec fn same_key(a: RecordingReadinessCacheKey, b: RecordingReadinessCacheKey) -> bool {
    a.output_dir@ == b.output_dir@ && a.encoder_name@ == b.encoder_name@ && a.software_fallback_name@
        == b.software_fallback_name@ && a.audio_configured == b.audio_configured
}

/// What a cache entry gives for a key at a time: its probe, when it was taken for
/// the same key and is still fresh.
pub open spec fn cache_lookup(
    entry: Option<(RecordingReadinessCacheKey, u64, RecordingReadinessEnvironmentProbe)>,
    key: RecordingReadinessCacheKey,
    now_ms: u64,
) -> Option<RecordingReadinessEnvironmentProbe> {
    match entry {
        Some((k, at, p)) => if same_key(k, key) && cache_fresh(at, now_ms) {
            Some(p)
        } else {
            None
        },
        None => None,
    }
}

/// The last environment probe, with what it was taken for and when.
pub struct ReadinessCache {
    pub entry: Option<(RecordingReadinessCacheKey, u64, RecordingReadinessEnvironmentProbe)>,
}

impl ReadinessCache {
    /// An empty cache.
    pub fn new() -> (c: Self)
        ensures
            c.entry is None,
    {
        ReadinessCache { entry: None }
    }

    /// The cached probe, when it was taken for the same key and is still fresh.
    pub fn cached_environment_probe(&self, key: &RecordingReadinessCacheKey, now_ms: u64) -> (r: Option<
        RecordingReadinessEnvironmentProbe,
    >)
        ensures
            r == cache_lookup(self.entry, *key, now_ms),
    {
        match &self.entry {
            Some((k, at, p)) => {
                let same = crate::text::str_eq(k.output_dir.as_str(), key.output_dir.as_str())
                    && crate::text::str_eq(k.encoder_name.as_str(), key.encoder_name.as_str())
                    && crate::text::str_eq(k.software_fallback_name.as_str(), key.software_fallback_name.as_str())
                    && k.audio_configured == key.audio_configured;
                if same && readiness_cache_is_fresh(*at, now_ms) {
                    Some(p.duplicate())
                } else {
                    None
                }
            },
            None => None,
        }
    }

    /// Replaces the cached probe.
    pub fn cache_environment_probe(
        &mut self,
        key: RecordingReadinessCacheKey,
        probe: RecordingReadinessEnvironmentProbe,
        now_ms: u64,
    )
        ensures
            final(self).entry == Some((key, now_ms, probe)),
    {
        self.entry = Some((key, now_ms, probe));
    }
}

/// What an environment probe is taken for: the output directory, the encoder the
/// configuration asks for, its software fallback, and whether audio is configured.
pub fn readiness_cache_key(config: &RecordingConfig, platform: TargetPlatform) -> (k: RecordingReadinessCacheKey)
    ensures
        k.output_dir@ == config.output_dir@,
        k.encoder_name@ == hw_encoder_name(config.encoder, config.hw_accel, platform),
        k.software_fallback_name@ == software_encoder_name(config.encoder),
        k.audio_configured == config.audio_config is Some,
{
    RecordingReadinessCacheKey {
        output_dir: config.output_dir.clone(),
        encoder_name: string_of(config.encoder.to_ffmpeg_name_with_hw(config.hw_accel, platform)),
        software_fallback_name: string_of(config.encoder.to_software_fallback()),
        audio_configured: config.audio_config.is_some(),
    }
}

/// The environment probe used when the probe itself did not complete: nothing is
/// known to be available.
pub fn failed_environment_probe() -> (p: RecordingReadinessEnvironmentProbe)
    ensures
        p.output_dir_error is None,
        p.free_space_bytes is None,
        p.ffmpeg_path is None,
        p.ffmpeg_error matches Some(e) && e@ == "Readiness background probe did not complete"@,
        !p.ffprobe_available,
        p.encoder_available is None,
        p.software_fallback_available is None,
        !p.system_audio_device_available,
        !p.live_client_available,
{
    RecordingReadinessEnvironmentProbe {
        output_dir_error: None,
        free_space_bytes: None,
        ffmpeg_path: None,
        ffmpeg_error: Some(string_of("Readiness background probe did not complete")),
        ffprobe_available: false,
        encoder_available: None,
        software_fallback_available: None,
        system_audio_device_available: false,
        live_client_available: false,
    }
}

/// The full probe from the recorder's status, what the environment probe was taken
/// for, what it found and whether the League client is connected.
pub fn readiness_probe(
    recording_status: RecordingStatus,
    key: RecordingReadinessCacheKey,
    environment: RecordingReadinessEnvironmentProbe,
    lcu_connected: bool,
) -> (p: RecordingReadinessProbe)
    ensures
        p.recording_status == recording_status,
        p.output_dir == key.output_dir,
        p.output_dir_error == environment.output_dir_error,
        p.free_space_bytes == environment.free_space_bytes,
        p.ffmpeg_path == environment.ffmpeg_path,
        p.ffmpeg_error == environment.ffmpeg_error,
        p.ffprobe_available == environment.ffprobe_available,
        p.encoder_name == key.encoder_name,
        p.encoder_available == environment.encoder_available,
        p.software_fallback_available == environment.software_fallback_available,
        p.audio_configured == key.audio_configured,
        p.system_audio_device_available == environment.system_audio_device_available,
        p.lcu_connected == lcu_connected,
        p.live_client_available == environment.live_client_available,
{
    RecordingReadinessProbe {
        recording_status,
        output_dir: key.output_dir,
        output_dir_error: environment.output_dir_error,
        free_space_bytes: environment.free_space_bytes,
        ffmpeg_path: environment.ffmpeg_path,
        ffmpeg_error: environment.ffmpeg_error,
        ffprobe_available: environment.ffprobe_available,
        encoder_name: key.encoder_name,
        encoder_available: environment.encoder_available,
        software_fallback_available: environment.software_fallback_available,
        audio_configured: key.audio_configured,
        system_audio_device_available: environment.system_audio_device_available,
        lcu_connected,
        live_client_available: environment.live_client_available,
    }
}

/// A probe stored for a key is given back for that key until it expires, and
/// never for another key or after it expired.
pub proof fn a_cached_probe_is_reused_while_fresh(
    key: RecordingReadinessCacheKey,
    other: RecordingReadinessCacheKey,
    probe: RecordingReadinessEnvironmentProbe,
    at: u64,
    now: u64,
)
    ensures
        cache_lookup(Some((key, at, probe)), key, now) == (if at <= now && now - at < READINESS_CACHE_TTL_MS {
            Some(probe)
        } else {
            None
        }),
        !same_key(key, other) ==> cache_lookup(Some((key, at, probe)), other, now) is None,
{
}


/// Recording is never ready while the recorder is busy: while it is processing a
/// previous stop or save, or is in error, the report's first blocker says so
/// ("recording_status_processing" or "recording_status_error"), whatever else the
/// probe found; while it already captures, that is only a warning.
pub proof fn a_busy_recorder_blocks_recording(p: RecordingReadinessProbe)
    ensures
        p.recording_status == RecordingStatus::Processing ==> readiness_sections(p).blockers.len() > 0
            && readiness_sections(p).blockers[0].0 == "recording_status_processing"@,
        p.recording_status == RecordingStatus::Error ==> readiness_sections(p).blockers.len() > 0
            && readiness_sections(p).blockers[0].0 == "recording_status_error"@,
        (p.recording_status == RecordingStatus::Recording || p.recording_status == RecordingStatus::Buffering)
            ==> readiness_sections(p).warnings.len() > 0 && readiness_sections(p).warnings[0].0
            == "recording_already_active"@,
{
    let r = readiness_sections(p);
    assert(r.blockers =~= status_section(p.recording_status).blockers + (r.blockers.subrange(
        status_section(p.recording_status).blockers.len() as int,
        r.blockers.len() as int,
    )));
    assert(r.warnings =~= status_section(p.recording_status).warnings + (r.warnings.subrange(
        status_section(p.recording_status).warnings.len() as int,
        r.warnings.len() as int,
    )));
}


/// A report built for a busy recorder is not ready, and its first blocker names
/// the recorder's state.
pub proof fn a_report_for_a_busy_recorder_is_not_ready(p: RecordingReadinessProbe, r: RecordingReadiness)
    requires
        readiness_view(r) == readiness_sections(p),
        r.ready == (readiness_sections(p).blockers.len() == 0),
        p.recording_status == RecordingStatus::Processing || p.recording_status == RecordingStatus::Error,
    ensures
        !r.ready,
        r.blockers@.len() > 0,
        r.blockers@[0].code@ == (if p.recording_status == RecordingStatus::Processing {
            "recording_status_processing"@
        } else {
            "recording_status_error"@
        }),
{
    a_busy_recorder_blocks_recording(p);
    assert(readiness_view(r).blockers[0] == issue_view(r.blockers@[0]));
}

} // verus!
