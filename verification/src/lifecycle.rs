//! A game session from start to finish: its id, its metadata, and what the
//! end-of-game summary fills in.
use vstd::prelude::*;

use crate::text::{append_str, string_of, trim, trimmed};

verus! {

/// Placeholder for a champion not known yet.
pub const UNKNOWN_CHAMPION: &'static str = "Unknown";
/// Placeholder for a game mode not known yet.
pub const UNKNOWN_GAME_MODE: &'static str = "UNKNOWN";
/// Most characters of a name kept in a game id.
pub const ID_PART_MAX: usize = 24;
/// Games shorter than this (s) without a known result are remakes.
pub const REMAKE_SECS: i64 = 300;

/// What the Live Client reports at the start of a game.
#[derive(Clone, Debug)]
pub struct LiveClientBasicInfo {
    pub summoner_name: String,
    pub champion_name: String,
    /// Game time (ms).
    pub game_time_ms: u64,
    /// Game mode, such as "CLASSIC", "TFT" or "ARAM".
    pub game_mode: String,
}

/// The champion and game mode a session starts with.
#[derive(Clone, Debug)]
pub struct GameSessionContext {
    pub champion: Option<String>,
    pub game_mode: Option<String>,
}

impl Default for GameSessionContext {
    fn default() -> (c: Self)
        ensures
            c.champion is None,
            c.game_mode is None,
    {
        GameSessionContext { champion: None, game_mode: None }
    }
}

/// The value without surrounding white space, or none when nothing is left.
pub open spec fn non_empty_spec(v: Seq<char>) -> Option<Seq<char>> {
    if trimmed(v).len() == 0 {
        None
    } else {
        Some(trimmed(v))
    }
}

pub open spec fn opt_view(o: Option<String>) -> Option<Seq<char>> {
    match o {
        Some(s) => Some(s@),
        None => None,
    }
}

/// The value without surrounding white space, or `None` when nothing is left.
pub fn non_empty(value: String) -> (r: Option<String>)
    ensures
        opt_view(r) == non_empty_spec(value@),
{
    let t = trim(value.as_str());
    if t.as_str().is_empty() {
        None
    } else {
        Some(t)
    }
}

impl GameSessionContext {
    /// The context from the Live Client's basic information (empty without it).
    pub fn from_live_client(info: Option<LiveClientBasicInfo>) -> (c: Self)
        ensures
            match info {
                Some(i) => opt_view(c.champion) == non_empty_spec(i.champion_name@) && opt_view(c.game_mode)
                    == non_empty_spec(i.game_mode@),
                None => c.champion is None && c.game_mode is None,
            },
    {
        match info {
            Some(info) => GameSessionContext {
                champion: non_empty(info.champion_name),
                game_mode: non_empty(info.game_mode),
            },
            None => GameSessionContext::default(),
        }
    }
}

/// Characters kept in a game id.
pub open spec fn id_char(c: char) -> bool {
    ('a' <= c && c <= 'z') || ('A' <= c && c <= 'Z') || ('0' <= c && c <= '9') || c == '-' || c == '_'
}

/// The id characters of `s`, in order.
pub open spec fn id_chars(s: Seq<char>) -> Seq<char>
    decreases s.len(),
{
    if s.len() == 0 {
        Seq::empty()
    } else if id_char(s.last()) {
        id_chars(s.drop_last()).push(s.last())
    } else {
        id_chars(s.drop_last())
    }
}

/// A name as it appears in a game id: its first 24 id characters, or "unknown".
pub open spec fn safe_id_part_spec(s: Seq<char>) -> Seq<char> {
    let kept = id_chars(s);
    let part = if kept.len() > ID_PART_MAX { kept.take(ID_PART_MAX as int) } else { kept };
    if part.len() == 0 {
        "unknown"@
    } else {
        part
    }
}

/// A name as it appears in a game id.
pub fn safe_id_part(value: &str) -> (r: String)
    ensures
        r@ == safe_id_part_spec(value@),
{
    let v = crate::text::chars_of(value);
    let mut kept: Vec<char> = Vec::new();
    let mut i: usize = 0;
    while i < v.len()
        invariant
            i <= v@.len(),
            v@ == value@,
            kept@ == (if id_chars(value@.take(i as int)).len() > ID_PART_MAX {
                id_chars(value@.take(i as int)).take(ID_PART_MAX as int)
            } else {
                id_chars(value@.take(i as int))
            }),
        decreases v@.len() - i,
    {
        let c = v[i];
        proof {
            assert(value@.take(i + 1).drop_last() =~= value@.take(i as int));
            assert(value@.take(i + 1).last() == c);
        }
        let keep = ('a' <= c && c <= 'z') || ('A' <= c && c <= 'Z') || ('0' <= c && c <= '9') || c == '-' || c
            == '_';
        if keep && kept.len() < ID_PART_MAX {
            kept.push(c);
            proof {
                assert(kept@ =~= id_chars(value@.take(i + 1)));
            }
        } else {
            proof {
                let before = id_chars(value@.take(i as int));
                let after = id_chars(value@.take(i + 1));
                if keep {
                    assert(after == before.push(c));
                    assert(after.take(ID_PART_MAX as int) =~= before.take(ID_PART_MAX as int));
                }
            }
        }
        i = i + 1;
    }
    proof {
        assert(value@.take(value@.len() as int) =~= value@);
    }
    if kept.len() == 0 {
        string_of("unknown")
    } else {
        crate::text::string_from_chars(&kept)
    }
}

/// The UTC time `secs` after the UNIX epoch written with a chrono format string;
/// none outside the range chrono represents.
pub uninterp spec fn utc_formatted(secs: int, format: Seq<char>) -> Option<Seq<char>>;

/// The compact UTC stamp of a game id.
pub open spec fn compact_stamp_format() -> Seq<char> {
    "%Y%m%dT%H%M%SZ"@
}

/// The UTC date of a manual clip bucket.
pub open spec fn date_stamp_format() -> Seq<char> {
    "%Y%m%d"@
}

/// The UTC date and time in the name of a clip of the last seconds.
pub open spec fn clip_stamp_format() -> Seq<char> {
    "%Y%m%d_%H%M%S"@
}

/// The compact UTC stamp of a time.
pub open spec fn utc_compact_stamp(secs: int) -> Option<Seq<char>> {
    utc_formatted(secs, compact_stamp_format())
}

/// Writes a UNIX time with `chrono::DateTime::from_timestamp` and `DateTime::format`;
/// the result is named `utc_formatted`. `None` when chrono cannot represent the
/// time. Only the format strings that the library uses are admitted: chrono
/// panics on an invalid one.
#[verifier::external_body]
pub(crate) fn format_utc(secs: i64, format: &str) -> (r: Option<String>)
    requires
        format@ == compact_stamp_format() || format@ == date_stamp_format() || format@ == clip_stamp_format(),
    ensures
        opt_view(r) == utc_formatted(secs as int, format@),
{
    match chrono::DateTime::from_timestamp(secs, 0) {
        Some(d) => Some(d.format(format).to_string()),
        None => None,
    }
}

/// A game id from a start stamp and the session's names.
pub open spec fn game_id_from(stamp: Seq<char>, context: GameSessionContext) -> Seq<char> {
    "auto_"@ + stamp + "_"@ + safe_id_part_spec(
        match context.champion {
            Some(c) => c@,
            None => "unknown"@,
        },
    ) + "_"@ + safe_id_part_spec(
        match context.game_mode {
            Some(m) => m@,
            None => "unknown"@,
        },
    )
}

/// A game id from a formatted start stamp: `auto_<stamp>_<champion>_<mode>`.
pub fn game_id_with_stamp(stamp: &str, context: &GameSessionContext) -> (id: String)
    ensures
        id@ == game_id_from(stamp@, *context),
{
    let champion = match &context.champion {
        Some(c) => safe_id_part(c.as_str()),
        None => safe_id_part("unknown"),
    };
    let mode = match &context.game_mode {
        Some(m) => safe_id_part(m.as_str()),
        None => safe_id_part("unknown"),
    };
    let mut id = string_of("auto_");
    append_str(&mut id, stamp);
    append_str(&mut id, "_");
    append_str(&mut id, champion.as_str());
    append_str(&mut id, "_");
    append_str(&mut id, mode.as_str());
    id
}

/// The id of a game that started `started_at_secs` after the UNIX epoch; `None` for
/// a time chrono cannot represent.
pub fn build_game_id(started_at_secs: i64, context: &GameSessionContext) -> (id: Option<String>)
    ensures
        match utc_compact_stamp(started_at_secs as int) {
            Some(stamp) => id matches Some(s) && s@ == game_id_from(stamp, *context),
            None => id is None,
        },
{
    let format = "%Y%m%dT%H%M%SZ";
    proof {
        reveal_strlit("%Y%m%dT%H%M%SZ");
    }
    match format_utc(started_at_secs, format) {
        Some(stamp) => Some(game_id_with_stamp(stamp.as_str(), context)),
        None => None,
    }
}

/// Result of a finished game as stored.
#[derive(Clone, Copy, Debug, PartialEq, Eq, Structural)]
pub enum GameResult {
    Win,
    Loss,
    Remake,
}

/// Kills, deaths and assists.
#[derive(Clone, Copy, Debug, PartialEq, Eq, Structural)]
pub struct KDA {
    pub kills: u32,
    pub deaths: u32,
    pub assists: u32,
}

/// The player's record taken at the end of the game.
#[derive(Clone, Debug)]
pub struct PlayerSummary {
    pub champion: String,
    pub kills: u32,
    pub deaths: u32,
    pub assists: u32,
    /// "Win", "Lose" or "Loss" when the game reported it.
    pub result: Option<String>,
    pub game_mode: String,
}

/// Stored metadata of a game.
#[derive(Clone, Debug)]
pub struct GameMetadata {
    pub game_id: String,
    pub champion: String,
    pub game_mode: String,
    /// Start (s since the UNIX epoch).
    pub start_time_secs: i64,
    /// End (s since the UNIX epoch), once finished.
    pub end_time_secs: Option<i64>,
    pub result: Option<GameResult>,
    pub kda: Option<KDA>,
}

/// Metadata of a new game with the given id.
pub fn build_game_metadata(game_id: String, started_at_secs: i64, context: &GameSessionContext) -> (m: GameMetadata)
    ensures
        m.game_id@ == game_id@,
        m.champion@ == (match context.champion {
            Some(c) => c@,
            None => UNKNOWN_CHAMPION@,
        }),
        m.game_mode@ == (match context.game_mode {
            Some(g) => g@,
            None => UNKNOWN_GAME_MODE@,
        }),
        m.start_time_secs == started_at_secs,
        m.end_time_secs is None,
        m.result is None,
        m.kda is None,
{
    GameMetadata {
        game_id,
        champion: match &context.champion {
            Some(c) => c.clone(),
            None => string_of(UNKNOWN_CHAMPION),
        },
        game_mode: match &context.game_mode {
            Some(g) => g.clone(),
            None => string_of(UNKNOWN_GAME_MODE),
        },
        start_time_secs: started_at_secs,
        end_time_secs: None,
        result: None,
        kda: None,
    }
}

/// The result a summary reports, if it reports one.
pub open spec fn reported_result(r: Option<String>) -> Option<GameResult> {
    match r {
        Some(s) => if s@ == "Win"@ {
            Some(GameResult::Win)
        } else if s@ == "Lose"@ || s@ == "Loss"@ {
            Some(GameResult::Loss)
        } else {
            None
        },
        None => None,
    }
}

/// A placeholder name, to be filled in later.
pub open spec fn unset(name: Seq<char>, placeholder: Seq<char>) -> bool {
    name.len() == 0 || name == placeholder
}

/// Metadata finished at `now_secs` with the end-of-game summary, as plain values:
/// (champion, game mode, end, result, kda).
pub open spec fn finalized(
    m: GameMetadata,
    summary: Option<PlayerSummary>,
    now_secs: i64,
) -> (Seq<char>, Seq<char>, Option<i64>, Option<GameResult>, Option<KDA>) {
    let end = match m.end_time_secs {
        Some(e) => e,
        None => now_secs,
    };
    let (champion, mode, kda, result) = match summary {
        Some(s) => (
            if unset(m.champion@, UNKNOWN_CHAMPION@) && s.champion@.len() > 0 { s.champion@ } else { m.champion@ },
            if unset(m.game_mode@, UNKNOWN_GAME_MODE@) && s.game_mode@.len() > 0 { s.game_mode@ } else { m.game_mode@ },
            Some(KDA { kills: s.kills, deaths: s.deaths, assists: s.assists }),
            match reported_result(s.result) {
                Some(r) => Some(r),
                None => m.result,
            },
        ),
        None => (m.champion@, m.game_mode@, m.kda, m.result),
    };
    let result2 = if result is None && 0 <= end - m.start_time_secs < REMAKE_SECS {
        Some(GameResult::Remake)
    } else {
        result
    };
    (champion, mode, Some(end), result2, kda)
}

pub open spec fn metadata_view(m: GameMetadata) -> (Seq<char>, Seq<char>, Option<i64>, Option<GameResult>, Option<KDA>) {
    (m.champion@, m.game_mode@, m.end_time_secs, m.result, m.kda)
}

/// Finishes a game's metadata: the end time (kept when already set), the names the
/// summary knows when they were still placeholders, the KDA, the reported result, and
/// a remake for a game shorter than five minutes whose result is still unknown.
pub fn finalize_game_metadata(metadata: GameMetadata, summary: &Option<PlayerSummary>, now_secs: i64) -> (m:
    GameMetadata)
    ensures
        metadata_view(m) == finalized(metadata, *summary, now_secs),
        m.game_id@ == metadata.game_id@,
        m.start_time_secs == metadata.start_time_secs,
{
    let mut m = metadata;
    if m.end_time_secs.is_none() {
        m.end_time_secs = Some(now_secs);
    }
    match summary {
        Some(s) => {
            let champion_unset = m.champion.as_str().is_empty() || crate::text::str_eq(m.champion.as_str(), UNKNOWN_CHAMPION);
            if champion_unset && !s.champion.as_str().is_empty() {
                m.champion = s.champion.clone();
            }
            let mode_unset = m.game_mode.as_str().is_empty() || crate::text::str_eq(m.game_mode.as_str(), UNKNOWN_GAME_MODE);
            if mode_unset && !s.game_mode.as_str().is_empty() {
                m.game_mode = s.game_mode.clone();
            }
            m.kda = Some(KDA { kills: s.kills, deaths: s.deaths, assists: s.assists });
            let reported = match &s.result {
                Some(r) => if crate::text::str_eq(r.as_str(), "Win") {
                    Some(GameResult::Win)
                } else if crate::text::str_eq(r.as_str(), "Lose") || crate::text::str_eq(r.as_str(), "Loss") {
                    Some(GameResult::Loss)
                } else {
                    None
                },
                None => None,
            };
            if let Some(r) = reported {
                m.result = Some(r);
            }
        },
        None => {},
    }
    if m.result.is_none() {
        if let Some(end) = m.end_time_secs {
            let secs = end as i128 - m.start_time_secs as i128;
            if 0 <= secs && secs < REMAKE_SECS as i128 {
                m.result = Some(GameResult::Remake);
            }
        }
    }
    m
}

/// Which caller starts capture.
#[derive(Clone, Copy, Debug, PartialEq, Eq, Structural)]
pub enum CaptureStartMode {
    /// The hotkey or the command: this pipeline owns event monitoring.
    Manual,
    /// The game monitor: it owns event monitoring itself.
    AutoDetect,
}

/// Result of a successful start.
#[derive(Clone, Copy, Debug, PartialEq, Eq, Structural)]
pub enum CaptureStartOutcome {
    /// A fresh recording was started.
    Started,
    /// Automatic start found the recorder already running (a manual start came first);
    /// the live session is left as it is.
    AlreadyRecording,
}

/// What to do when starting the recorder failed.
#[derive(Clone, Copy, Debug, PartialEq, Eq, Structural)]
pub enum StartFailureAction {
    /// Report that the recorder is already running, touching nothing.
    ReportAlreadyRecording,
    /// Fail, leaving the live session untouched.
    FailKeepingSession,
    /// Fail and finish the session that was just begun.
    FailAndFinishSession,
}

/// What to do when starting the recorder failed: a live recording is never torn down
/// (an automatic start defers to it; a manual one reports the error), otherwise the
/// session just begun is finished again.
pub fn start_failure_action(mode: CaptureStartMode, already_recording: bool) -> (a: StartFailureAction)
    ensures
        already_recording && mode == CaptureStartMode::AutoDetect ==> a == StartFailureAction::ReportAlreadyRecording,
        already_recording && mode == CaptureStartMode::Manual ==> a == StartFailureAction::FailKeepingSession,
        !already_recording ==> a == StartFailureAction::FailAndFinishSession,
{
    if already_recording {
        match mode {
            CaptureStartMode::AutoDetect => StartFailureAction::ReportAlreadyRecording,
            CaptureStartMode::Manual => StartFailureAction::FailKeepingSession,
        }
    } else {
        StartFailureAction::FailAndFinishSession
    }
}

/// Whether the start pipeline itself starts event monitoring.
pub fn owns_event_monitoring(mode: CaptureStartMode) -> (r: bool)
    ensures
        r == (mode == CaptureStartMode::Manual),
{
    matches!(mode, CaptureStartMode::Manual)
}

/// The three ordered results of stopping capture.
pub struct CaptureStopOutcome {
    pub event_monitoring: Result<(), String>,
    pub recording_stopped: Result<(), String>,
    pub finalized: Result<Option<GameMetadata>, String>,
}

/// The basic game information from the Live Client's full data: the active player's
/// name (none while it is still empty, the game loading), that player's champion
/// ("Unknown" when absent), the game time and the mode ("CLASSIC" when absent).
pub fn basic_info_from(
    summoner_name: String,
    players: &Vec<(String, Option<String>)>,
    game_time_ms: u64,
    game_mode: Option<String>,
) -> (r: Option<LiveClientBasicInfo>)
    ensures
        summoner_name@.len() == 0 <==> r is None,
        r matches Some(info) ==> {
            &&& info.summoner_name@ == summoner_name@
            &&& info.game_time_ms == game_time_ms
            &&& info.game_mode@ == (match game_mode {
                Some(m) => m@,
                None => "CLASSIC"@,
            })
            &&& (exists|i: int|
                0 <= i < players@.len() && #[trigger] players@[i].0@ == summoner_name@ && (forall|j: int|
                    0 <= j < i ==> players@[j].0@ != summoner_name@)) ==> {
                let i = choose|i: int|
                    0 <= i < players@.len() && #[trigger] players@[i].0@ == summoner_name@ && (forall|j: int|
                        0 <= j < i ==> players@[j].0@ != summoner_name@);
                info.champion_name@ == (match players@[i].1 {
                    Some(c) => c@,
                    None => "Unknown"@,
                })
            }
            &&& (forall|i: int| 0 <= i < players@.len() ==> #[trigger] players@[i].0@ != summoner_name@)
                ==> info.champion_name@ == "Unknown"@
        },
{
    if summoner_name.as_str().is_empty() {
        return None;
    }
    let mut champion = string_of("Unknown");
    let mut i: usize = 0;
    while i < players.len()
        invariant
            i <= players@.len(),
            forall|j: int| 0 <= j < i ==> #[trigger] players@[j].0@ != summoner_name@,
            champion@ == "Unknown"@,
            summoner_name@.len() > 0,
        decreases players@.len() - i,
    {
        if crate::text::str_eq(players[i].0.as_str(), summoner_name.as_str()) {
            champion = match &players[i].1 {
                Some(c) => c.clone(),
                None => string_of("Unknown"),
            };
            proof {
                let w = i as int;
                assert(0 <= w < players@.len() && players@[w].0@ == summoner_name@ && (forall|j: int|
                    0 <= j < w ==> players@[j].0@ != summoner_name@));
                let c = choose|k: int|
                    0 <= k < players@.len() && #[trigger] players@[k].0@ == summoner_name@ && (forall|j: int|
                        0 <= j < k ==> players@[j].0@ != summoner_name@);
                if c < w {
                    assert(players@[c].0@ != summoner_name@);
                } else if c > w {
                    assert(players@[w].0@ != summoner_name@);
                }
            }
            let mode = match game_mode {
                Some(m) => m,
                None => string_of("CLASSIC"),
            };
            return Some(LiveClientBasicInfo { summoner_name, champion_name: champion, game_time_ms, game_mode: mode });
        }
        i = i + 1;
    }
    let mode = match game_mode {
        Some(m) => m,
        None => string_of("CLASSIC"),
    };
    Some(LiveClientBasicInfo { summoner_name, champion_name: champion, game_time_ms, game_mode: mode })
}

proof fn lemma_id_chars(s: Seq<char>)
    ensures
        forall|i: int| 0 <= i < id_chars(s).len() ==> id_char(#[trigger] id_chars(s)[i]),
    decreases s.len(),
{
    if s.len() > 0 {
        let pre = id_chars(s.drop_last());
        lemma_id_chars(s.drop_last());
        assert forall|i: int| 0 <= i < id_chars(s).len() implies id_char(#[trigger] id_chars(s)[i]) by {
            if id_char(s.last()) {
                assert(id_chars(s) == pre.push(s.last()));
                if i < pre.len() {
                    assert(id_chars(s)[i] == pre[i]);
                }
            } else {
                assert(id_chars(s) == pre);
            }
        }
    }
}

/// A name in a game id is never empty, at most 24 characters long, and made only of
/// ASCII letters, digits, `-` and `_`.
pub proof fn id_parts_are_short_and_plain(s: Seq<char>)
    ensures
        1 <= safe_id_part_spec(s).len() <= ID_PART_MAX,
        forall|i: int| 0 <= i < safe_id_part_spec(s).len() ==> id_char(#[trigger] safe_id_part_spec(s)[i]),
{
    lemma_id_chars(s);
    reveal_strlit("unknown");
    let part = safe_id_part_spec(s);
    if id_chars(s).len() == 0 {
        assert(part == "unknown"@);
        assert forall|i: int| 0 <= i < part.len() implies id_char(#[trigger] part[i]) by {
            assert(part[i] == "unknown"@[i]);
        }
    } else if id_chars(s).len() > ID_PART_MAX {
        assert forall|i: int| 0 <= i < part.len() implies id_char(#[trigger] part[i]) by {
            assert(part[i] == id_chars(s)[i]);
        }
    }
}

/// Finishing a game never overwrites a known champion or mode, keeps an end time
/// already set, and takes the KDA of the summary.
pub proof fn finishing_keeps_what_is_known(m: GameMetadata, summary: Option<PlayerSummary>, now: i64)
    ensures
        !unset(m.champion@, UNKNOWN_CHAMPION@) ==> finalized(m, summary, now).0 == m.champion@,
        !unset(m.game_mode@, UNKNOWN_GAME_MODE@) ==> finalized(m, summary, now).1 == m.game_mode@,
        m.end_time_secs is Some ==> finalized(m, summary, now).2 == m.end_time_secs,
        summary matches Some(s) ==> finalized(m, summary, now).4 == Some(
            KDA { kills: s.kills, deaths: s.deaths, assists: s.assists },
        ),
        m.result is Some ==> finalized(m, summary, now).3 is Some,
{
}

} // verus!
