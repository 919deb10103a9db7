//! The rolling segment buffer: which segments make a clip, where each input is
//! seeked so that video and audio land on the same instant, and the FFmpeg
//! command lines of the recorder and of a clip export.
//!
//! Times are integer milliseconds; wall-clock instants are milliseconds since
//! the UNIX epoch.
use vstd::prelude::*;

use crate::text::{append_str, chars_of, decimal, digit_char, push_char, push_decimal, string_from_chars, string_of};

verus! {

/// Shortest clip worth exporting (ms).
pub const MIN_CLIP_DURATION_MS: u64 = 1_000;
/// Keyframe slack: a clip this much shorter than requested is still complete (ms).
pub const CLIP_LENGTH_TOLERANCE_MS: u64 = 250;

// ---------------------------------------------------------------------------
// Parsing FFmpeg's progress stream
// ---------------------------------------------------------------------------

pub open spec fn is_digit(c: char) -> bool {
    '0' <= c && c <= '9'
}

pub open spec fn all_digits(s: Seq<char>) -> bool {
    forall|i: int| 0 <= i < s.len() ==> is_digit(#[trigger] s[i])
}

/// The number written by a string of decimal digits.
pub open spec fn digits_value(s: Seq<char>) -> nat
    decreases s.len(),
{
    if s.len() == 0 {
        0
    } else {
        digits_value(s.drop_last()) * 10 + ((s.last() as u32) - ('0' as u32)) as nat
    }
}

/// `str::parse::<u64>`: an optional `+`, then at least one decimal digit, of a value
/// that fits in 64 bits.
pub open spec fn parse_u64_spec(s: Seq<char>) -> Option<u64> {
    let body = if s.len() > 0 && s[0] == '+' { s.drop_first() } else { s };
    if body.len() > 0 && all_digits(body) && digits_value(body) <= u64::MAX {
        Some(digits_value(body) as u64)
    } else {
        None
    }
}

/// Parses an unsigned decimal number the way `str::parse::<u64>` does.
pub fn parse_u64(s: &str) -> (r: Option<u64>)
    ensures
        r == parse_u64_spec(s@),
{
    let v = chars_of(s);
    let n = v.len();
    let start: usize = if n > 0 && v[0] == '+' { 1 } else { 0 };
    let ghost body = if s@.len() > 0 && s@[0] == '+' { s@.drop_first() } else { s@ };
    proof {
        assert(body =~= s@.subrange(start as int, n as int));
    }
    if start >= n {
        return None;
    }
    let mut acc: u128 = 0;
    let mut overflow = false;
    let mut digits_ok = true;
    let mut i: usize = start;
    while i < n
        invariant
            start <= i <= n,
            n == v@.len(),
            v@ == s@,
            body == s@.subrange(start as int, n as int),
            digits_ok == all_digits(body.take(i - start)),
            digits_ok && !overflow ==> acc == digits_value(body.take(i - start)) && acc <= u64::MAX,
            digits_ok && overflow ==> digits_value(body.take(i - start)) > u64::MAX,
        decreases n - i,
    {
        let c = v[i];
        let ghost k = i - start;
        proof {
            assert(body.take(k + 1).drop_last() =~= body.take(k));
            assert(body.take(k + 1).last() == c);
            assert(body[k] == c);
        }
        if '0' <= c && c <= '9' {
            if digits_ok && !overflow {
                let d = (c as u32 - '0' as u32) as u128;
                let next = acc * 10 + d;
                if next > u64::MAX as u128 {
                    overflow = true;
                } else {
                    acc = next;
                }
            } else if digits_ok && overflow {
                proof {
                    assert(digits_value(body.take(k + 1)) == digits_value(body.take(k)) * 10 + ((c as u32)
                        - ('0' as u32)) as nat);
                }
            }
        } else {
            digits_ok = false;
        }
        proof {
            if digits_ok {
                assert forall|j: int| 0 <= j < k + 1 implies is_digit(#[trigger] body.take(k + 1)[j]) by {
                    if j < k {
                        assert(body.take(k + 1)[j] == body.take(k)[j]);
                    }
                }
            } else {
                if !is_digit(c) {
                    assert(!is_digit(body.take(k + 1)[k]));
                } else {
                    let j = choose|j: int| 0 <= j < k && !is_digit(#[trigger] body.take(k)[j]);
                    assert(body.take(k + 1)[j] == body.take(k)[j]);
                }
            }
        }
        i = i + 1;
    }
    proof {
        assert(body.take(n - start) =~= body);
    }
    if !digits_ok || overflow {
        None
    } else {
        Some(acc as u64)
    }
}

/// The frame count of a `frame=N` line of FFmpeg's `-progress` output: the text after
/// the prefix, trimmed, as an unsigned number.
pub open spec fn progress_frame(line: Seq<char>) -> Option<u64> {
    if crate::text::starts_with_seq(line, "frame="@) {
        parse_u64_spec(crate::text::trimmed(line.skip(6)))
    } else {
        None
    }
}

/// The cumulative frame count of a `frame=N` progress line; `None` for any other line.
pub fn parse_progress_frame(line: &str) -> (r: Option<u64>)
    ensures
        r == progress_frame(line@),
{
    if !crate::text::str_starts_with(line, "frame=") {
        return None;
    }
    proof {
        reveal_strlit("frame=");
    }
    let v = chars_of(line);
    let mut rest: Vec<char> = Vec::new();
    let mut i: usize = 6;
    while i < v.len()
        invariant
            6 <= i <= v@.len(),
            v@ == line@,
            rest@ == line@.subrange(6, i as int),
        decreases v@.len() - i,
    {
        rest.push(v[i]);
        proof {
            assert(line@.subrange(6, i + 1) =~= line@.subrange(6, i as int).push(line@[i as int]));
        }
        i = i + 1;
    }
    proof {
        assert(line@.subrange(6, line@.len() as int) =~= line@.skip(6));
    }
    let rest_str = string_from_chars(&rest);
    let trimmed = crate::text::trim(rest_str.as_str());
    parse_u64(trimmed.as_str())
}

/// A capture size rounded down to even width and height (yuv420p needs both even).
pub fn even_dimensions(width: u32, height: u32) -> (r: (u32, u32))
    ensures
        r == ((width - width % 2) as u32, (height - height % 2) as u32),
{
    let w = width & !1u32;
    let h = height & !1u32;
    assert(w == width - width % 2) by (bit_vector)
        requires
            w == width & !1u32,
    ;
    assert(h == height - height % 2) by (bit_vector)
        requires
            h == height & !1u32,
    ;
    (w, h)
}

// ---------------------------------------------------------------------------
// Where each input is seeked
// ---------------------------------------------------------------------------

/// Per-input seek offsets for extracting a clip from the rolling buffer (ms).
#[derive(Clone, Copy, Debug, PartialEq, Eq, Structural)]
pub struct ClipWindow {
    /// Seek into the concatenated video stream.
    pub video_ss: u64,
    /// Seek into the continuous system-audio recording.
    pub audio_ss: u64,
    /// Seek into the continuous microphone recording.
    pub mic_ss: u64,
    /// Length to export, clamped to what the buffer holds.
    pub duration: u64,
}

pub open spec fn max_i(a: int, b: int) -> int {
    if a >= b { a } else { b }
}

pub open spec fn min_i(a: int, b: int) -> int {
    if a <= b { a } else { b }
}

/// The instant the clip starts at: `requested` before the anchor, but not before the
/// buffer's first frame nor after its last.
pub open spec fn window_start(requested: int, end_anchor: int, available_end: int, concat_start: int) -> int {
    let effective_end = min_i(end_anchor, available_end);
    min_i(max_i(end_anchor - max_i(requested, 0), concat_start), effective_end)
}

/// The window for `requested` ms of footage ending at `end_anchor`.
pub open spec fn clip_window_spec(
    requested: int,
    end_anchor: int,
    available_end: int,
    concat_start: int,
    wav_start: Option<int>,
    mic_start: Option<int>,
) -> (int, int, int, int) {
    let req = max_i(requested, 0);
    let effective_end = min_i(end_anchor, available_end);
    let start = window_start(requested, end_anchor, available_end, concat_start);
    let available = max_i(effective_end - start, 0);
    let duration = if req > 0 { min_i(available, req) } else { available };
    let video_ss = max_i(start - concat_start, 0);
    let audio_ss = match wav_start {
        Some(ws) => max_i(start - ws, 0),
        None => video_ss,
    };
    let mic_ss = match mic_start {
        Some(ms) => max_i(start - ms, 0),
        None => video_ss,
    };
    (video_ss, audio_ss, mic_ss, duration)
}

pub open spec fn opt_int(o: Option<i64>) -> Option<int> {
    match o {
        Some(x) => Some(x as int),
        None => None,
    }
}

pub open spec fn window_matches(w: ClipWindow, spec: (int, int, int, int)) -> bool {
    w.video_ss == spec.0 && w.audio_ss == spec.1 && w.mic_ss == spec.2 && w.duration == spec.3
}

fn max128(a: i128, b: i128) -> (r: i128)
    ensures
        r == max_i(a as int, b as int),
{
    if a >= b { a } else { b }
}

fn min128(a: i128, b: i128) -> (r: i128)
    ensures
        r == min_i(a as int, b as int),
{
    if a <= b { a } else { b }
}

/// Per-input seek offsets for `requested_ms` of footage that ends at `end_anchor_ms`.
///
/// The concatenated video starts at `concat_start_ms`, the system-audio and microphone
/// recordings at `wav_start_ms` and `mic_start_ms` (when present); the buffer holds
/// footage up to `available_end_ms`. Each input gets its own offset so that all land on
/// the same instant; an absent recording takes the video's offset (it is not used).
pub fn compute_clip_window(
    requested_ms: i64,
    end_anchor_ms: i64,
    available_end_ms: i64,
    concat_start_ms: i64,
    wav_start_ms: Option<i64>,
    mic_start_ms: Option<i64>,
) -> (w: ClipWindow)
    ensures
        window_matches(
            w,
            clip_window_spec(
                requested_ms as int,
                end_anchor_ms as int,
                available_end_ms as int,
                concat_start_ms as int,
                opt_int(wav_start_ms),
                opt_int(mic_start_ms),
            ),
        ),
{
    let req = max128(requested_ms as i128, 0);
    let effective_end = min128(end_anchor_ms as i128, available_end_ms as i128);
    let start = min128(max128(end_anchor_ms as i128 - req, concat_start_ms as i128), effective_end);
    let available = max128(effective_end - start, 0);
    let duration = if req > 0 { min128(available, req) } else { available };
    let video_ss = max128(start - concat_start_ms as i128, 0);
    let audio_ss = match wav_start_ms {
        Some(ws) => max128(start - ws as i128, 0),
        None => video_ss,
    };
    let mic_ss = match mic_start_ms {
        Some(ms) => max128(start - ms as i128, 0),
        None => video_ss,
    };
    ClipWindow {
        video_ss: video_ss as u64,
        audio_ss: audio_ss as u64,
        mic_ss: mic_ss as u64,
        duration: duration as u64,
    }
}

/// Why a window cannot be exported.
#[derive(Clone, Copy, Debug, PartialEq, Eq, Structural)]
pub struct ClipTooShort {
    pub duration_ms: u64,
    pub requested_ms: i64,
}

impl ClipTooShort {
    /// The message shown to the user, naming the clip's file.
    pub fn message(&self, output_path: &str) -> (s: String)
        ensures
            s@ == "클립 창이 너무 짧습니다("@ + decimal(self.duration_ms as nat) + "ms < 1000ms, 요청 "@
                + (if self.requested_ms < 0 { "-"@ } else { Seq::empty() }) + decimal(
                if self.requested_ms < 0 { -(self.requested_ms as int) } else { self.requested_ms as int } as nat,
            ) + "ms): 앵커가 롤링 버퍼 범위를 벗어나 저장하지 않습니다 ("@ + output_path@ + ")"@,
    {
        let mut s = string_of("클립 창이 너무 짧습니다(");
        push_decimal(&mut s, self.duration_ms);
        append_str(&mut s, "ms < 1000ms, 요청 ");
        let magnitude: u64 = if self.requested_ms < 0 {
            if self.requested_ms == i64::MIN {
                9_223_372_036_854_775_808u64
            } else {
                (-self.requested_ms) as u64
            }
        } else {
            self.requested_ms as u64
        };
        if self.requested_ms < 0 {
            append_str(&mut s, "-");
        }
        push_decimal(&mut s, magnitude);
        append_str(&mut s, "ms): 앵커가 롤링 버퍼 범위를 벗어나 저장하지 않습니다 (");
        append_str(&mut s, output_path);
        append_str(&mut s, ")");
        proof {
            let tail = "ms): 앵커가 롤링 버퍼 범위를 벗어나 저장하지 않습니다 ("@;
            assert(s@ =~= "클립 창이 너무 짧습니다("@ + decimal(self.duration_ms as nat) + "ms < 1000ms, 요청 "@
                + (if self.requested_ms < 0 { "-"@ } else { Seq::empty() }) + decimal(magnitude as nat) + tail
                + output_path@ + ")"@);
        }
        s
    }
}

/// Refuses a window too short to be a clip (one outside the rolling buffer comes out
/// empty).
pub fn ensure_usable_clip_window(window: &ClipWindow, requested_ms: i64) -> (r: Result<(), ClipTooShort>)
    ensures
        window.duration < MIN_CLIP_DURATION_MS <==> r is Err,
        r matches Err(e) ==> e.duration_ms == window.duration && e.requested_ms == requested_ms,
{
    if window.duration < MIN_CLIP_DURATION_MS {
        Err(ClipTooShort { duration_ms: window.duration, requested_ms })
    } else {
        Ok(())
    }
}

// ---------------------------------------------------------------------------
// Which segments make the clip
// ---------------------------------------------------------------------------

/// A usable measurement: a known, positive length.
pub open spec fn measured(probed: Seq<Option<u64>>, i: int) -> bool {
    0 <= i < probed.len() && (probed[i] matches Some(d) && d > 0)
}

/// The surviving run `[start, end)`: it ends at the last measured segment and reaches
/// back to just after the last unmeasured one before it.
pub open spec fn is_kept_run(n: int, probed: Seq<Option<u64>>, start: int, end: int) -> bool {
    &&& 0 <= start < end <= n
    &&& measured(probed, end - 1)
    &&& forall|i: int| end <= i < n ==> !#[trigger] measured(probed, i)
    &&& forall|i: int| start <= i < end ==> #[trigger] measured(probed, i)
    &&& start == 0 || !measured(probed, start - 1)
}

/// No segment could be measured.
#[derive(Clone, Copy, Debug, PartialEq, Eq, Structural)]
pub struct NoMeasurableSegment {
    /// How many segments there were.
    pub segment_count: usize,
}

impl NoMeasurableSegment {
    /// The message shown to the user.
    pub fn message(&self) -> (s: String)
        ensures
            s@ == "길이를 측정할 수 있는 세그먼트가 없습니다("@ + decimal(self.segment_count as nat)
                + "개 모두 측정 실패). 녹화 파일이 아직 준비되지 않았거나 손상되었습니다"@,
    {
        let mut s = string_of("길이를 측정할 수 있는 세그먼트가 없습니다(");
        push_decimal(&mut s, self.segment_count as u64);
        append_str(&mut s, "개 모두 측정 실패). 녹화 파일이 아직 준비되지 않았거나 손상되었습니다");
        s
    }
}

fn is_measured(probed: &Vec<Option<u64>>, i: usize) -> (r: bool)
    ensures
        r == measured(probed@, i as int),
{
    if i < probed.len() {
        match probed[i] {
            Some(d) => d > 0,
            None => false,
        }
    } else {
        false
    }
}

/// Keeps only the segments whose length was measured, paired with it: the last run of
/// measured segments, so that the concat timeline stays exact (a segment in front of an
/// unmeasured one could not be placed in time). Fails when none was measured.
pub fn retain_measured_segments(segments: &Vec<String>, probed: &Vec<Option<u64>>) -> (r: Result<
    (Vec<String>, Vec<u64>),
    NoMeasurableSegment,
>)
    ensures
        match r {
            Ok((kept, durations)) => exists|start: int, end: int|
                #[trigger] is_kept_run(segments@.len() as int, probed@, start, end) && kept@ == segments@.subrange(
                    start,
                    end,
                ) && durations@.len() == end - start && forall|i: int|
                    0 <= i < end - start ==> probed@[start + i] == Some(#[trigger] durations@[i]),
            Err(e) => e.segment_count == segments@.len() && forall|i: int|
                0 <= i < segments@.len() ==> !#[trigger] measured(probed@, i),
        },
{
    let n = segments.len();
    let mut end: usize = n;
    while end > 0 && !is_measured(probed, end - 1)
        invariant
            end <= n,
            n == segments@.len(),
            forall|i: int| end <= i < n ==> !#[trigger] measured(probed@, i),
        decreases end,
    {
        end = end - 1;
    }
    if end == 0 {
        return Err(NoMeasurableSegment { segment_count: n });
    }
    let mut start: usize = end - 1;
    while start > 0 && is_measured(probed, start - 1)
        invariant
            start < end <= n,
            n == segments@.len(),
            forall|i: int| start <= i < end ==> #[trigger] measured(probed@, i),
        decreases start,
    {
        start = start - 1;
    }
    let mut kept: Vec<String> = Vec::new();
    let mut durations: Vec<u64> = Vec::new();
    let mut i: usize = start;
    while i < end
        invariant
            start <= i <= end <= n,
            n == segments@.len(),
            end <= probed@.len(),
            forall|k: int| start <= k < end ==> #[trigger] measured(probed@, k),
            kept@ == segments@.subrange(start as int, i as int),
            durations@.len() == i - start,
            forall|k: int| 0 <= k < i - start ==> probed@[start + k] == Some(#[trigger] durations@[k]),
        decreases end - i,
    {
        assert(measured(probed@, i as int));
        let d = match probed[i] {
            Some(d) => d,
            None => 0,
        };
        kept.push(segments[i].clone());
        durations.push(d);
        proof {
            assert(segments@.subrange(start as int, i + 1) =~= segments@.subrange(start as int, i as int).push(
                segments@[i as int],
            ));
            assert(durations@[i - start] == d);
        }
        i = i + 1;
    }
    proof {
        assert(is_kept_run(n as int, probed@, start as int, end as int));
    }
    Ok((kept, durations))
}

/// Path text with each `'` written as `'\''` for FFmpeg's concat parser.
pub open spec fn escape_quotes(s: Seq<char>) -> Seq<char>
    decreases s.len(),
{
    if s.len() == 0 {
        Seq::empty()
    } else {
        escape_quotes(s.drop_last()) + if s.last() == '\'' { seq!['\'', '\\', '\'', '\''] } else { seq![s.last()] }
    }
}

/// A millisecond length as seconds with three decimals.
pub open spec fn secs_text(ms: u64) -> Seq<char> {
    decimal((ms / 1000) as nat) + "."@ + seq![
        digit_char(((ms % 1000) / 100) as nat),
        digit_char(((ms % 100) / 10) as nat),
        digit_char((ms % 10) as nat),
    ]
}

/// The concat list entries of segment `i`: its file line, then its duration when known.
pub open spec fn concat_entry(path: Seq<char>, durations: Seq<u64>, i: int) -> Seq<char> {
    "file '"@ + escape_quotes(path) + "'\n"@ + if i < durations.len() && durations[i] > 0 {
        "duration "@ + secs_text(durations[i]) + "\n"@
    } else {
        Seq::empty()
    }
}

pub open spec fn concat_list(paths: Seq<String>, durations: Seq<u64>) -> Seq<char>
    decreases paths.len(),
{
    if paths.len() == 0 {
        Seq::empty()
    } else {
        concat_list(paths.drop_last(), durations) + concat_entry(paths.last()@, durations, paths.len() - 1)
    }
}

fn push_escaped(out: &mut String, path: &str)
    ensures
        final(out)@ == old(out)@ + escape_quotes(path@),
{
    let v = chars_of(path);
    let mut i: usize = 0;
    while i < v.len()
        invariant
            i <= v@.len(),
            v@ == path@,
            out@ == old(out)@ + escape_quotes(path@.take(i as int)),
        decreases v@.len() - i,
    {
        proof {
            assert(path@.take(i + 1).drop_last() =~= path@.take(i as int));
        }
        if v[i] == '\'' {
            append_str(out, "'\\''");
            proof {
                reveal_strlit("'\\''");
                assert(out@ =~= old(out)@ + escape_quotes(path@.take(i + 1)));
            }
        } else {
            push_char(out, v[i]);
            proof {
                assert(out@ =~= old(out)@ + escape_quotes(path@.take(i + 1)));
            }
        }
        i = i + 1;
    }
    proof {
        assert(path@.take(path@.len() as int) =~= path@);
    }
}

/// Appends a millisecond length as seconds with three decimals.
pub fn push_secs(out: &mut String, ms: u64)
    ensures
        final(out)@ == old(out)@ + secs_text(ms),
{
    push_decimal(out, ms / 1000);
    push_char(out, '.');
    let f = ms % 1000;
    let mut d1 = String::new();
    push_decimal(&mut d1, f / 100);
    let mut d2 = String::new();
    push_decimal(&mut d2, (f % 100) / 10);
    let mut d3 = String::new();
    push_decimal(&mut d3, f % 10);
    proof {
        assert(decimal((f / 100) as nat) == seq![digit_char((f / 100) as nat)]);
        assert(decimal(((f % 100) / 10) as nat) == seq![digit_char(((f % 100) / 10) as nat)]);
        assert(decimal((f % 10) as nat) == seq![digit_char((f % 10) as nat)]);
        assert((ms % 1000) / 100 == f / 100);
        assert((ms % 100) / 10 == (f % 100) / 10) by (nonlinear_arith)
            requires
                f == ms % 1000,
        ;
        assert(ms % 10 == f % 10) by (nonlinear_arith)
            requires
                f == ms % 1000,
        ;
    }
    append_str(out, d1.as_str());
    append_str(out, d2.as_str());
    append_str(out, d3.as_str());
    proof {
        reveal_strlit(".");
        assert(out@ =~= old(out)@ + secs_text(ms));
    }
}

/// The concat-demuxer list: each file line followed by its measured duration (omitted
/// when unknown or not positive).
pub fn build_concat_list(segments: &Vec<String>, durations: &Vec<u64>) -> (s: String)
    ensures
        s@ == concat_list(segments@, durations@),
{
    let mut content = String::new();
    let mut i: usize = 0;
    while i < segments.len()
        invariant
            i <= segments@.len(),
            content@ == concat_list(segments@.take(i as int), durations@),
        decreases segments@.len() - i,
    {
        proof {
            assert(segments@.take(i + 1).drop_last() =~= segments@.take(i as int));
            assert(segments@.take(i + 1).last() == segments@[i as int]);
        }
        let ghost before = content@;
        append_str(&mut content, "file '");
        push_escaped(&mut content, segments[i].as_str());
        append_str(&mut content, "'\n");
        if i < durations.len() && durations[i] > 0 {
            append_str(&mut content, "duration ");
            push_secs(&mut content, durations[i]);
            append_str(&mut content, "\n");
        }
        proof {
            assert(content@ =~= before + concat_entry(segments@[i as int]@, durations@, i as int));
        }
        i = i + 1;
    }
    proof {
        assert(segments@.take(segments@.len() as int) =~= segments@);
    }
    content
}

/// How far a clip fell short of the request.
#[derive(Clone, Copy, Debug, PartialEq, Eq, Structural)]
pub enum ClipShortfall {
    /// The requested length (within keyframe slack).
    Complete,
    /// Shorter, but still a usable clip.
    Partial,
    /// Less than half the request.
    Severe,
}

pub open spec fn shortfall_of(requested_ms: int, actual_ms: int) -> ClipShortfall {
    if requested_ms <= 0 {
        ClipShortfall::Complete
    } else if 2 * actual_ms < requested_ms {
        ClipShortfall::Severe
    } else if actual_ms + CLIP_LENGTH_TOLERANCE_MS < requested_ms {
        ClipShortfall::Partial
    } else {
        ClipShortfall::Complete
    }
}

/// Classifies a produced clip's length against the request.
pub fn classify_shortfall(requested_ms: i64, actual_ms: u64) -> (r: ClipShortfall)
    ensures
        r == shortfall_of(requested_ms as int, actual_ms as int),
{
    if requested_ms <= 0 {
        ClipShortfall::Complete
    } else if 2 * (actual_ms as u128) < requested_ms as u128 {
        ClipShortfall::Severe
    } else if (actual_ms as u128) + (CLIP_LENGTH_TOLERANCE_MS as u128) < requested_ms as u128 {
        ClipShortfall::Partial
    } else {
        ClipShortfall::Complete
    }
}

pub open spec fn sum_ms(d: Seq<u64>) -> int
    decreases d.len(),
{
    if d.len() == 0 {
        0
    } else {
        sum_ms(d.drop_last()) + d.last()
    }
}

/// Where the buffer's footage ends and where the concatenated video starts (ms): the
/// newest segment's completion (not later than now; now when unknown), minus the
/// measured lengths.
pub open spec fn concat_timeline_spec(durations: Seq<u64>, newest_mtime_ms: i64, now_ms: i64) -> (int, int) {
    let end = if newest_mtime_ms > 0 { min_i(newest_mtime_ms as int, now_ms as int) } else { now_ms as int };
    (end, end - sum_ms(durations))
}

/// The buffer's end and the concatenated video's start.
pub fn concat_timeline(durations: &Vec<u64>, newest_mtime_ms: i64, now_ms: i64) -> (r: (i64, i128))
    requires
        durations@.len() * 8 <= isize::MAX,
    ensures
        r.0 == concat_timeline_spec(durations@, newest_mtime_ms, now_ms).0,
        r.1 == concat_timeline_spec(durations@, newest_mtime_ms, now_ms).1,
{
    let mut total: u128 = 0;
    let mut i: usize = 0;
    while i < durations.len()
        invariant
            i <= durations@.len(),
            durations@.len() * 8 <= isize::MAX,
            total == sum_ms(durations@.take(i as int)),
            total <= i * (u64::MAX as int),
        decreases durations@.len() - i,
    {
        proof {
            assert(durations@.take(i + 1).drop_last() =~= durations@.take(i as int));
        }
        total = total + durations[i] as u128;
        i = i + 1;
    }
    proof {
        assert(durations@.take(durations@.len() as int) =~= durations@);
    }
    let end: i64 = if newest_mtime_ms > 0 {
        if newest_mtime_ms <= now_ms { newest_mtime_ms } else { now_ms }
    } else {
        now_ms
    };
    (end, end as i128 - total as i128)
}

/// Index of the newest segment that is complete: while FFmpeg writes, the newest file
/// is still open, so the second newest.
pub fn completed_segment_index(segment_count: usize, ffmpeg_running: bool) -> (r: Option<usize>)
    ensures
        ffmpeg_running ==> r == (if segment_count >= 2 { Some((segment_count - 2) as usize) } else { None::<usize> }),
        !ffmpeg_running ==> r == (if segment_count >= 1 { Some((segment_count - 1) as usize) } else { None::<usize> }),
{
    if ffmpeg_running {
        if segment_count >= 2 { Some(segment_count - 2) } else { None }
    } else {
        if segment_count >= 1 { Some(segment_count - 1) } else { None }
    }
}

// ---------------------------------------------------------------------------
// Laws of the clip window
// ---------------------------------------------------------------------------

/// Every input lands on the same instant: once the recordings have started by the
/// window's start, the video, system-audio and microphone seeks all point at it.
pub proof fn all_inputs_land_on_the_same_instant(
    requested: int,
    end_anchor: int,
    available_end: int,
    concat_start: int,
    wav_start: int,
    mic_start: int,
)
    requires
        concat_start <= window_start(requested, end_anchor, available_end, concat_start),
        wav_start <= window_start(requested, end_anchor, available_end, concat_start),
        mic_start <= window_start(requested, end_anchor, available_end, concat_start),
    ensures
        ({
            let w = clip_window_spec(requested, end_anchor, available_end, concat_start, Some(wav_start), Some(mic_start));
            let start = window_start(requested, end_anchor, available_end, concat_start);
            concat_start + w.0 == start && wav_start + w.1 == start && mic_start + w.2 == start
        }),
{
}

/// A clip is never longer than requested, never runs past the buffer's footage nor
/// past its anchor, and never has a negative length or seek.
pub proof fn a_clip_stays_inside_the_request_and_the_buffer(
    requested: int,
    end_anchor: int,
    available_end: int,
    concat_start: int,
    wav_start: Option<int>,
    mic_start: Option<int>,
)
    ensures
        ({
            let w = clip_window_spec(requested, end_anchor, available_end, concat_start, wav_start, mic_start);
            let start = window_start(requested, end_anchor, available_end, concat_start);
            &&& w.0 >= 0 && w.1 >= 0 && w.2 >= 0 && w.3 >= 0
            &&& requested > 0 ==> w.3 <= requested
            &&& w.3 > 0 ==> start + w.3 <= available_end && start + w.3 <= end_anchor
        }),
{
}

/// When the buffer holds the whole request, the clip is exactly the request: it starts
/// `requested` before the anchor and lasts `requested`.
pub proof fn a_covered_request_is_cut_exactly(
    requested: int,
    end_anchor: int,
    available_end: int,
    concat_start: int,
    wav_start: Option<int>,
    mic_start: Option<int>,
)
    requires
        requested > 0,
        concat_start <= end_anchor - requested,
        end_anchor <= available_end,
    ensures
        window_start(requested, end_anchor, available_end, concat_start) == end_anchor - requested,
        clip_window_spec(requested, end_anchor, available_end, concat_start, wav_start, mic_start).3 == requested,
        clip_window_spec(requested, end_anchor, available_end, concat_start, wav_start, mic_start).0 == end_anchor
            - requested - concat_start,
{
}

/// When footage ends before the anchor, the clip loses its tail and keeps its start.
pub proof fn a_short_buffer_cuts_the_tail_not_the_start(
    requested: int,
    end_anchor: int,
    available_end: int,
    concat_start: int,
)
    requires
        requested > 0,
        concat_start <= end_anchor - requested,
        end_anchor - requested <= available_end,
        available_end < end_anchor,
    ensures
        window_start(requested, end_anchor, available_end, concat_start) == end_anchor - requested,
        clip_window_spec(requested, end_anchor, available_end, concat_start, None, None).3 == available_end - (
        end_anchor - requested),
{
}

} // verus!
