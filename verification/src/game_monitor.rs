//! Decisions of the game-state monitor: connection retries, game start and end
//! edges, the recording mode of a game, and the status shown to the user.
//! The polling loop itself (LCU and Live Client requests, sleeps) runs outside
//! the library and feeds these functions.
use vstd::prelude::*;

use crate::lifecycle::LiveClientBasicInfo;
use crate::text::contains_seq;

verus! {

/// First retry delay (ms).
pub const BASE_RETRY_DELAY_MS: u64 = 2_000;
/// Longest retry delay (ms).
pub const MAX_RETRY_DELAY_MS: u64 = 30_000;
/// Failed connections after which the retry count starts over.
pub const MAX_RETRIES: u32 = 5;
/// Time between two checks of the game state (ms).
pub const CHECK_INTERVAL_MS: u64 = 1_000;

/// How a game is recorded.
#[derive(Clone, Debug, PartialEq, Eq)]
pub enum GameMode {
    Live,
    TFT,
    /// A replay, with the summoner followed when one is chosen.
    Replay(Option<String>),
}

/// The game status shown to the user.
#[derive(Clone, Debug)]
pub struct UnifiedGameStatus {
    pub lcu_connected: bool,
    pub in_game: bool,
    pub game_mode: GameMode,
    pub summoner_name: Option<String>,
    pub champion_name: Option<String>,
    /// Game time (ms).
    pub game_time_ms: Option<u64>,
    pub is_monitoring: bool,
    pub is_recording: bool,
    /// Clips saved in the current game.
    pub session_clip_count: usize,
}

impl UnifiedGameStatus {
    /// The status before anything is known.
    pub open spec fn new_spec() -> Self {
        UnifiedGameStatus {
            lcu_connected: false,
            in_game: false,
            game_mode: GameMode::Live,
            summoner_name: None,
            champion_name: None,
            game_time_ms: None,
            is_monitoring: false,
            is_recording: false,
            session_clip_count: 0,
        }
    }

    /// The status before anything is known.
    pub fn new() -> (s: Self)
        ensures
            !s.lcu_connected && !s.in_game && s.game_mode == GameMode::Live && s.summoner_name is None
                && s.champion_name is None && s.game_time_ms is None && !s.is_monitoring && !s.is_recording
                && s.session_clip_count == 0,
            s == Self::new_spec(),
    {
        UnifiedGameStatus {
            lcu_connected: false,
            in_game: false,
            game_mode: GameMode::Live,
            summoner_name: None,
            champion_name: None,
            game_time_ms: None,
            is_monitoring: false,
            is_recording: false,
            session_clip_count: 0,
        }
    }
}

/// A TFT game is known from the Live Client's mode alone; other modes are left for
/// replay detection.
pub fn live_client_mode_hint(data: Option<&LiveClientBasicInfo>) -> (r: Option<GameMode>)
    ensures
        r == (match data {
            Some(info) => if contains_seq(info.game_mode@, "TFT"@) { Some(GameMode::TFT) } else { None },
            None => None,
        }),
{
    match data {
        Some(info) => if crate::text::str_contains(info.game_mode.as_str(), "TFT") {
            Some(GameMode::TFT)
        } else {
            None
        },
        None => None,
    }
}

/// 2 to the power `n`.
pub open spec fn pow2(n: nat) -> nat
    decreases n,
{
    if n == 0 {
        1
    } else {
        2 * pow2((n - 1) as nat)
    }
}

/// Exponential backoff: 2 s doubled per retry (at most six doublings), capped at 30 s.
pub open spec fn retry_delay(retry_count: u32) -> u64 {
    let n = if retry_count < 6 { retry_count as nat } else { 6nat };
    let d = BASE_RETRY_DELAY_MS * pow2(n);
    if d < MAX_RETRY_DELAY_MS { d as u64 } else { MAX_RETRY_DELAY_MS }
}

/// The delay before the next connection attempt (ms).
pub fn calculate_retry_delay(retry_count: u32) -> (d: u64)
    ensures
        d == retry_delay(retry_count),
{
    let n: u32 = if retry_count < 6 { retry_count } else { 6 };
    let mut factor: u64 = 1;
    let mut k: u32 = 0;
    while k < n
        invariant
            k <= n <= 6,
            factor == pow2(k as nat),
            factor <= 64,
        decreases n - k,
    {
        proof {
            assert(pow2((k + 1) as nat) == 2 * pow2(k as nat));
        }
        factor = factor * 2;
        k = k + 1;
        proof {
            if k <= 6 {
                assert(factor <= 64) by {
                    assert(pow2(0) == 1);
                    assert(pow2(1) == 2);
                    assert(pow2(2) == 4);
                    assert(pow2(3) == 8);
                    assert(pow2(4) == 16);
                    assert(pow2(5) == 32);
                    assert(pow2(6) == 64);
                }
            }
        }
    }
    let d = BASE_RETRY_DELAY_MS * factor;
    if d < MAX_RETRY_DELAY_MS { d } else { MAX_RETRY_DELAY_MS }
}

/// After a failed connection: how long to wait (ms) and the retry count to continue
/// with (it starts over after `MAX_RETRIES` failures).
pub fn after_connect_failure(retry_count: u32) -> (r: (u64, u32))
    requires
        retry_count < u32::MAX,
    ensures
        r.0 == retry_delay((retry_count + 1) as u32),
        r.1 == (if retry_count + 1 >= MAX_RETRIES { 0 } else { retry_count + 1 }),
{
    let next = retry_count + 1;
    let delay = calculate_retry_delay(next);
    if next >= MAX_RETRIES {
        (delay, 0)
    } else {
        (delay, next)
    }
}

/// The game mode of a new game: TFT when the hint says so, else a replay or a live
/// game as replay detection says (live when it cannot tell).
pub fn detect_game_mode(hint: Option<GameMode>, replay: Option<bool>) -> (m: GameMode)
    ensures
        hint == Some(GameMode::TFT) ==> m == GameMode::TFT,
        hint != Some(GameMode::TFT) ==> m == (if replay == Some(true) { GameMode::Replay(None) } else { GameMode::Live }),
{
    match hint {
        Some(GameMode::TFT) => GameMode::TFT,
        _ => match replay {
            Some(true) => GameMode::Replay(None),
            _ => GameMode::Live,
        },
    }
}

/// Whether an event of the game is clipped: always in a live game, never in TFT, and
/// in a replay only once a summoner to follow is chosen.
pub fn should_record(mode: &GameMode) -> (r: bool)
    ensures
        r == (match mode {
            GameMode::Live => true,
            GameMode::TFT => false,
            GameMode::Replay(target) => target is Some,
        }),
{
    match mode {
        GameMode::Live => true,
        GameMode::TFT => false,
        GameMode::Replay(target) => target.is_some(),
    }
}

/// The mode after the user picks a summoner to follow (it is always a replay then).
pub fn with_replay_target(summoner_name: Option<String>) -> (m: GameMode)
    ensures
        m == GameMode::Replay(summoner_name),
{
    GameMode::Replay(summoner_name)
}

/// The summoner followed in a replay.
pub fn replay_target(mode: &GameMode) -> (r: Option<String>)
    ensures
        r == (match mode {
            GameMode::Replay(t) => *t,
            _ => None,
        }),
{
    match mode {
        GameMode::Replay(t) => match t {
            Some(s) => Some(s.clone()),
            None => None,
        },
        _ => None,
    }
}

/// A change of the in-game state between two checks.
#[derive(Clone, Copy, Debug, PartialEq, Eq, Structural)]
pub enum GameEdge {
    Started,
    Ended,
    Unchanged,
}

/// The change between the last state and this check.
pub fn game_edge(was_in_game: bool, in_game: bool) -> (e: GameEdge)
    ensures
        e == (if in_game && !was_in_game {
            GameEdge::Started
        } else if !in_game && was_in_game {
            GameEdge::Ended
        } else {
            GameEdge::Unchanged
        }),
{
    if in_game && !was_in_game {
        GameEdge::Started
    } else if !in_game && was_in_game {
        GameEdge::Ended
    } else {
        GameEdge::Unchanged
    }
}

/// Records what one check saw: whether a game runs and, when the Live Client
/// answered, the player, champion and game time (cleared once no game runs).
pub fn observe_game(status: &mut UnifiedGameStatus, in_game: bool, data: Option<&LiveClientBasicInfo>)
    ensures
        final(status).in_game == in_game,
        data matches Some(d) ==> (final(status).summoner_name == Some(d.summoner_name) && final(status).champion_name
            == Some(d.champion_name) && final(status).game_time_ms == Some(d.game_time_ms)),
        data is None && !in_game ==> (final(status).summoner_name is None && final(status).champion_name is None
            && final(status).game_time_ms is None),
        data is None && in_game ==> (final(status).summoner_name == old(status).summoner_name
            && final(status).champion_name == old(status).champion_name
            && final(status).game_time_ms == old(status).game_time_ms),
        final(status).game_mode == old(status).game_mode,
        final(status).is_recording == old(status).is_recording,
        final(status).is_monitoring == old(status).is_monitoring,
        final(status).lcu_connected == old(status).lcu_connected,
        final(status).session_clip_count == old(status).session_clip_count,
{
    status.in_game = in_game;
    match data {
        Some(d) => {
            status.summoner_name = Some(d.summoner_name.clone());
            status.champion_name = Some(d.champion_name.clone());
            status.game_time_ms = Some(d.game_time_ms);
        },
        None => {
            if !in_game {
                status.summoner_name = None;
                status.champion_name = None;
                status.game_time_ms = None;
            }
        },
    }
}

/// Resets the status when the game ends.
pub fn reset_after_game(status: &mut UnifiedGameStatus)
    ensures
        !final(status).in_game && final(status).game_mode == GameMode::Live && final(status).summoner_name is None
            && final(status).champion_name is None && final(status).game_time_ms is None && !final(status).is_recording,
        final(status).lcu_connected == old(status).lcu_connected,
        final(status).is_monitoring == old(status).is_monitoring,
        final(status).session_clip_count == old(status).session_clip_count,
{
    status.in_game = false;
    status.game_mode = GameMode::Live;
    status.summoner_name = None;
    status.champion_name = None;
    status.game_time_ms = None;
    status.is_recording = false;
}

/// What follows a recording start at a game's start.
#[derive(Clone, Copy, Debug, PartialEq, Eq, Structural)]
pub struct StartResolution {
    /// The in-game state to remember (so that the game's end is handled once).
    pub in_game: bool,
    pub is_recording: bool,
    /// A manual capture is already running and is taken over.
    pub adopt_manual_session: bool,
}

/// What follows a recording start: on success the game is being recorded; when the
/// start failed because a manual capture already runs, that session is adopted;
/// otherwise the game counts as not started, so the next check tries again.
pub fn resolve_game_start(start_ok: bool, recorder_active: bool) -> (r: StartResolution)
    ensures
        start_ok ==> r == (StartResolution { in_game: true, is_recording: true, adopt_manual_session: false }),
        !start_ok && recorder_active ==> r == (StartResolution {
            in_game: true,
            is_recording: true,
            adopt_manual_session: true,
        }),
        !start_ok && !recorder_active ==> r == (StartResolution {
            in_game: false,
            is_recording: false,
            adopt_manual_session: false,
        }),
{
    if start_ok {
        StartResolution { in_game: true, is_recording: true, adopt_manual_session: false }
    } else if recorder_active {
        StartResolution { in_game: true, is_recording: true, adopt_manual_session: true }
    } else {
        StartResolution { in_game: false, is_recording: false, adopt_manual_session: false }
    }
}

fn copy_mode(m: &GameMode) -> (r: GameMode)
    ensures
        r == *m,
{
    match m {
        GameMode::Live => GameMode::Live,
        GameMode::TFT => GameMode::TFT,
        GameMode::Replay(t) => GameMode::Replay(
            match t {
                Some(s) => Some(s.clone()),
                None => None,
            },
        ),
    }
}

/// The game monitor's state between two checks: the status shown, the mode of
/// the current game, whether the last check saw a game, the failed connections
/// counted, and whether monitoring runs.
pub struct GameMonitorState {
    pub status: UnifiedGameStatus,
    pub mode: GameMode,
    pub last_in_game: bool,
    pub retry_count: u32,
    pub monitoring: bool,
}

impl GameMonitorState {
    /// The retry count stays below `MAX_RETRIES`: it starts over once reached.
    pub open spec fn wf(&self) -> bool {
        self.retry_count < MAX_RETRIES
    }

    /// A monitor that has not started.
    pub fn new() -> (m: Self)
        ensures
            m.wf(),
            m.status == UnifiedGameStatus::new_spec(),
            m.mode == GameMode::Live,
            !m.last_in_game,
            m.retry_count == 0,
            !m.monitoring,
    {
        GameMonitorState {
            status: UnifiedGameStatus::new(),
            mode: GameMode::Live,
            last_in_game: false,
            retry_count: 0,
            monitoring: false,
        }
    }

    /// Starts monitoring; false (and nothing changes) when it already runs.
    pub fn start(&mut self) -> (started: bool)
        ensures
            started == !old(self).monitoring,
            final(self).monitoring,
            final(self).status.is_monitoring == (old(self).status.is_monitoring || !old(self).monitoring),
            final(self).last_in_game == old(self).last_in_game,
            final(self).retry_count == old(self).retry_count,
            final(self).mode == old(self).mode,
    {
        if self.monitoring {
            return false;
        }
        self.monitoring = true;
        self.status.is_monitoring = true;
        true
    }

    /// Stops monitoring: the loop ends at its next turn.
    pub fn stop(&mut self)
        ensures
            !final(self).monitoring,
            final(self).retry_count == old(self).retry_count,
            final(self).last_in_game == old(self).last_in_game,
    {
        self.monitoring = false;
    }

    /// A failed connection to the League client: the delay before the next
    /// attempt (ms), with the retry count advanced (and started over at the limit).
    pub fn connect_failed(&mut self) -> (delay_ms: u64)
        requires
            old(self).wf(),
        ensures
            final(self).wf(),
            delay_ms == retry_delay((old(self).retry_count + 1) as u32),
            final(self).retry_count == (if old(self).retry_count + 1 >= MAX_RETRIES {
                0
            } else {
                old(self).retry_count + 1
            }),
            final(self).last_in_game == old(self).last_in_game,
            final(self).mode == old(self).mode,
    {
        let (delay, next) = after_connect_failure(self.retry_count);
        self.retry_count = next;
        delay
    }

    /// One check of the game state: the connection and what was seen are recorded,
    /// and the change against the last check is returned.
    pub fn observe(&mut self, lcu_connected: bool, in_game: bool, data: Option<&LiveClientBasicInfo>) -> (edge: GameEdge)
        ensures
            edge == (if in_game && !old(self).last_in_game {
                GameEdge::Started
            } else if !in_game && old(self).last_in_game {
                GameEdge::Ended
            } else {
                GameEdge::Unchanged
            }),
            final(self).status.lcu_connected == lcu_connected,
            final(self).status.in_game == in_game,
            data matches Some(d) ==> final(self).status.summoner_name == Some(d.summoner_name)
                && final(self).status.champion_name == Some(d.champion_name)
                && final(self).status.game_time_ms == Some(d.game_time_ms),
            data is None && !in_game ==> final(self).status.summoner_name is None
                && final(self).status.champion_name is None && final(self).status.game_time_ms is None,
            final(self).last_in_game == old(self).last_in_game,
            final(self).retry_count == old(self).retry_count,
            final(self).mode == old(self).mode,
            final(self).monitoring == old(self).monitoring,
    {
        self.status.lcu_connected = lcu_connected;
        observe_game(&mut self.status, in_game, data);
        game_edge(self.last_in_game, in_game)
    }

    /// A game began and recording was asked to start: the game's mode is detected,
    /// and the outcome of the start decides whether the game counts as started
    /// (a running manual capture is adopted).
    pub fn game_started(&mut self, hint: Option<GameMode>, replay: Option<bool>, start_ok: bool, recorder_active: bool) -> (r: StartResolution)
        requires
            old(self).wf(),
        ensures
            final(self).wf(),
            final(self).mode == (if hint == Some(GameMode::TFT) {
                GameMode::TFT
            } else if replay == Some(true) {
                GameMode::Replay(None)
            } else {
                GameMode::Live
            }),
            final(self).status.game_mode == final(self).mode,
            r.in_game == (start_ok || recorder_active),
            r.is_recording == (start_ok || recorder_active),
            r.adopt_manual_session == (!start_ok && recorder_active),
            final(self).last_in_game == r.in_game,
            final(self).status.is_recording == r.is_recording,
            final(self).retry_count == 0,
            final(self).monitoring == old(self).monitoring,
    {
        self.status.game_mode = detect_game_mode(hint, replay);
        self.mode = copy_mode(&self.status.game_mode);
        let r = resolve_game_start(start_ok, recorder_active);
        self.last_in_game = r.in_game;
        self.status.is_recording = r.is_recording;
        self.retry_count = 0;
        r
    }

    /// The game ended: the status is reset, the mode is live again.
    pub fn game_ended(&mut self)
        requires
            old(self).wf(),
        ensures
            final(self).wf(),
            !final(self).status.in_game && final(self).status.game_mode == GameMode::Live
                && final(self).status.summoner_name is None && final(self).status.champion_name is None
                && final(self).status.game_time_ms is None && !final(self).status.is_recording,
            final(self).mode == GameMode::Live,
            !final(self).last_in_game,
            final(self).retry_count == 0,
            final(self).monitoring == old(self).monitoring,
    {
        reset_after_game(&mut self.status);
        self.mode = GameMode::Live;
        self.last_in_game = false;
        self.retry_count = 0;
    }

    /// A check with no change: the state seen is kept and the retry count starts over.
    pub fn unchanged(&mut self, in_game: bool)
        requires
            old(self).wf(),
        ensures
            final(self).wf(),
            final(self).last_in_game == in_game,
            final(self).retry_count == 0,
            final(self).mode == old(self).mode,
            final(self).monitoring == old(self).monitoring,
    {
        self.last_in_game = in_game;
        self.retry_count = 0;
    }
}

/// The backoff never waits less than 2 s nor more than 30 s, and never shortens as
/// failures add up.
pub proof fn the_backoff_grows_and_is_capped(a: u32, b: u32)
    requires
        a <= b,
    ensures
        BASE_RETRY_DELAY_MS <= retry_delay(a) <= MAX_RETRY_DELAY_MS,
        retry_delay(a) <= retry_delay(b),
{
    lemma_pow2_mono(if a < 6 { a as nat } else { 6 }, if b < 6 { b as nat } else { 6 });
    lemma_pow2_pos(if a < 6 { a as nat } else { 6 });
}

proof fn lemma_pow2_pos(n: nat)
    ensures
        pow2(n) >= 1,
    decreases n,
{
    if n > 0 {
        lemma_pow2_pos((n - 1) as nat);
    }
}

proof fn lemma_pow2_mono(a: nat, b: nat)
    requires
        a <= b,
    ensures
        pow2(a) <= pow2(b),
    decreases b,
{
    if a < b {
        lemma_pow2_mono(a, (b - 1) as nat);
        lemma_pow2_pos((b - 1) as nat);
    }
}

/// Start and end alternate: after a start is handled, the next edge for the same
/// game can only be its end, and after an end only a new start.
pub proof fn starts_and_ends_alternate(was: bool, now: bool, next: bool)
    ensures
        (if now && !was { GameEdge::Started } else if !now && was { GameEdge::Ended } else { GameEdge::Unchanged })
            == GameEdge::Started ==> (if next && !now {
            GameEdge::Started
        } else if !next && now {
            GameEdge::Ended
        } else {
            GameEdge::Unchanged
        }) != GameEdge::Started,
        (if now && !was { GameEdge::Started } else if !now && was { GameEdge::Ended } else { GameEdge::Unchanged })
            == GameEdge::Ended ==> (if next && !now {
            GameEdge::Started
        } else if !next && now {
            GameEdge::Ended
        } else {
            GameEdge::Unchanged
        }) != GameEdge::Ended,
{
}

} // verus!
