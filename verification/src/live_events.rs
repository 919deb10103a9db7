//! Game events read from the League Live Client Data API, the triggers they
//! turn into, and the small state machines around polling that API.
use vstd::prelude::*;

use crate::highlight::MomentContext;

verus! {

/// Default window (seconds) in which an enemy kill near an objective makes it contested.
pub const DEFAULT_CONTEST_WINDOW_SECS: u64 = 10;
/// Default window (seconds) for which champion kills are kept for steal detection.
pub const DEFAULT_KILL_RETENTION_SECS: u64 = 15;

/// Result of a game session inferred from its duration.
#[derive(Clone, Copy, Debug, PartialEq, Eq, Structural)]
pub enum GameResult {
    Victory,
    Defeat,
    /// Surrendered before 20 minutes but after the remake threshold.
    EarlySurrender,
    /// Ended before 5 minutes.
    Remake,
    Unknown,
}

pub open spec fn game_result_for(game_time_ms: u64) -> GameResult {
    if game_time_ms < 300_000 {
        GameResult::Remake
    } else if game_time_ms < 1_200_000 {
        GameResult::EarlySurrender
    } else {
        GameResult::Unknown
    }
}

/// Infers the result of a game from its duration (milliseconds of game time).
/// Victory and defeat cannot be told from the duration alone.
pub fn infer_game_result(game_time_ms: u64) -> (r: GameResult)
    ensures
        r == game_result_for(game_time_ms),
{
    if game_time_ms < 300_000 {
        GameResult::Remake
    } else if game_time_ms < 1_200_000 {
        GameResult::EarlySurrender
    } else {
        GameResult::Unknown
    }
}

/// Events that make a clip.
#[derive(Clone, Copy, Debug, PartialEq, Eq, Structural)]
pub enum EventTrigger {
    ChampionKill,
    Death,
    Assist,
    FirstBlood,
    /// The player was the first-blood victim.
    FirstBloodVictim,
    /// Double, triple, quadra, penta.
    Multikill(u8),
    DragonKill,
    BaronKill,
    HeraldKill,
    TurretKill,
    InhibitorKill,
    Ace,
    /// Dragon or baron stolen.
    Steal,
    GameEnd,
    ElderDragonKill,
    VoidgrubsKill,
    AtakhanKill,
    Shutdown,
    /// 1vX; the number is how many enemies were involved.
    Outplay1vX(u32),
    /// A kill followed by the player's death within five seconds.
    TradeKill,
    /// A kill while below a quarter of maximum health.
    LowHpOutplay,
}

pub open spec fn trigger_priority(t: EventTrigger) -> u8 {
    match t {
        EventTrigger::ChampionKill => 1,
        EventTrigger::Death => 1,
        EventTrigger::Assist => 1,
        EventTrigger::FirstBlood => 3,
        EventTrigger::Multikill(n) => if 2 <= n <= 5 { n } else { 1 },
        EventTrigger::DragonKill => 2,
        EventTrigger::BaronKill => 3,
        EventTrigger::HeraldKill => 2,
        EventTrigger::TurretKill => 1,
        EventTrigger::InhibitorKill => 2,
        EventTrigger::Ace => 4,
        EventTrigger::Steal => 4,
        EventTrigger::GameEnd => 3,
        EventTrigger::ElderDragonKill => 4,
        EventTrigger::VoidgrubsKill => 2,
        EventTrigger::AtakhanKill => 3,
        EventTrigger::Shutdown => 3,
        EventTrigger::Outplay1vX(n) => if n >= 3 { 5 } else { 4 },
        EventTrigger::TradeKill => 2,
        EventTrigger::LowHpOutplay => 4,
        EventTrigger::FirstBloodVictim => 1,
    }
}

pub open spec fn trigger_pre_duration(t: EventTrigger) -> u32 {
    match t {
        EventTrigger::Multikill(_) => 15,
        EventTrigger::Steal => 20,
        EventTrigger::GameEnd => 30,
        EventTrigger::Death => 8,
        EventTrigger::Assist => 8,
        EventTrigger::ElderDragonKill => 15,
        EventTrigger::AtakhanKill => 15,
        EventTrigger::Shutdown => 10,
        EventTrigger::VoidgrubsKill => 10,
        EventTrigger::Outplay1vX(_) => 15,
        EventTrigger::TradeKill => 12,
        EventTrigger::LowHpOutplay => 12,
        _ => 10,
    }
}

pub open spec fn trigger_post_duration(t: EventTrigger) -> u32 {
    match t {
        EventTrigger::Ace => 10,
        EventTrigger::GameEnd => 10,
        EventTrigger::BaronKill => 5,
        EventTrigger::Multikill(_) => 5,
        EventTrigger::ElderDragonKill => 5,
        EventTrigger::AtakhanKill => 5,
        EventTrigger::Shutdown => 5,
        EventTrigger::VoidgrubsKill => 3,
        EventTrigger::Outplay1vX(_) => 5,
        EventTrigger::TradeKill => 5,
        EventTrigger::LowHpOutplay => 5,
        _ => 3,
    }
}

impl EventTrigger {
    /// Clip priority, 1 to 5.
    pub fn priority(&self) -> (p: u8)
        ensures
            p == trigger_priority(*self),
            1 <= p <= 5,
    {
        match self {
            EventTrigger::ChampionKill => 1,
            EventTrigger::Death => 1,
            EventTrigger::Assist => 1,
            EventTrigger::FirstBlood => 3,
            EventTrigger::Multikill(n) => if 2 <= *n && *n <= 5 { *n } else { 1 },
            EventTrigger::DragonKill => 2,
            EventTrigger::BaronKill => 3,
            EventTrigger::HeraldKill => 2,
            EventTrigger::TurretKill => 1,
            EventTrigger::InhibitorKill => 2,
            EventTrigger::Ace => 4,
            EventTrigger::Steal => 4,
            EventTrigger::GameEnd => 3,
            EventTrigger::ElderDragonKill => 4,
            EventTrigger::VoidgrubsKill => 2,
            EventTrigger::AtakhanKill => 3,
            EventTrigger::Shutdown => 3,
            EventTrigger::Outplay1vX(n) => if *n >= 3 { 5 } else { 4 },
            EventTrigger::TradeKill => 2,
            EventTrigger::LowHpOutplay => 4,
            EventTrigger::FirstBloodVictim => 1,
        }
    }

    /// Recommended clip length before the event, in seconds.
    pub fn pre_duration(&self) -> (d: u32)
        ensures
            d == trigger_pre_duration(*self),
    {
        match self {
            EventTrigger::Multikill(_) => 15,
            EventTrigger::Steal => 20,
            EventTrigger::GameEnd => 30,
            EventTrigger::Death => 8,
            EventTrigger::Assist => 8,
            EventTrigger::ElderDragonKill => 15,
            EventTrigger::AtakhanKill => 15,
            EventTrigger::Shutdown => 10,
            EventTrigger::VoidgrubsKill => 10,
            EventTrigger::Outplay1vX(_) => 15,
            EventTrigger::TradeKill => 12,
            EventTrigger::LowHpOutplay => 12,
            _ => 10,
        }
    }

    /// Recommended clip length after the event, in seconds.
    pub fn post_duration(&self) -> (d: u32)
        ensures
            d == trigger_post_duration(*self),
    {
        match self {
            EventTrigger::Ace => 10,
            EventTrigger::GameEnd => 10,
            EventTrigger::BaronKill => 5,
            EventTrigger::Multikill(_) => 5,
            EventTrigger::ElderDragonKill => 5,
            EventTrigger::AtakhanKill => 5,
            EventTrigger::Shutdown => 5,
            EventTrigger::VoidgrubsKill => 3,
            EventTrigger::Outplay1vX(_) => 5,
            EventTrigger::TradeKill => 5,
            EventTrigger::LowHpOutplay => 5,
            _ => 3,
        }
    }
}

/// The situation a trigger falls back to when its own toggle is off: a shutdown,
/// a multikill, an outplay or a first blood is still a kill; a trade or a
/// first-blood death is still a death; an elder dragon is still a dragon, and a
/// steal is still the objective it took.
pub open spec fn trigger_parent(t: EventTrigger, e: GameEvent) -> Option<EventTrigger> {
    match t {
        EventTrigger::Shutdown => Some(EventTrigger::ChampionKill),
        EventTrigger::Multikill(_) => Some(EventTrigger::ChampionKill),
        EventTrigger::Outplay1vX(_) => Some(EventTrigger::ChampionKill),
        EventTrigger::LowHpOutplay => Some(EventTrigger::ChampionKill),
        EventTrigger::FirstBlood => Some(EventTrigger::ChampionKill),
        EventTrigger::TradeKill => Some(EventTrigger::Death),
        EventTrigger::FirstBloodVictim => Some(EventTrigger::Death),
        EventTrigger::ElderDragonKill => Some(EventTrigger::DragonKill),
        EventTrigger::Steal => if e.event_name@ == "BaronKill"@ {
            Some(EventTrigger::BaronKill)
        } else if e.event_name@ == "DragonKill"@ {
            if e.dragon_type is Some && crate::text::contains_seq(e.dragon_type->0@, "Elder"@) {
                Some(EventTrigger::ElderDragonKill)
            } else {
                Some(EventTrigger::DragonKill)
            }
        } else {
            None
        },
        _ => None,
    }
}

impl EventTrigger {
    /// The situation this trigger falls back to when its own toggle is off, if any.
    pub fn parent(&self, event: &GameEvent) -> (r: Option<EventTrigger>)
        ensures
            r == trigger_parent(*self, *event),
    {
        match self {
            EventTrigger::Shutdown => Some(EventTrigger::ChampionKill),
            EventTrigger::Multikill(_) => Some(EventTrigger::ChampionKill),
            EventTrigger::Outplay1vX(_) => Some(EventTrigger::ChampionKill),
            EventTrigger::LowHpOutplay => Some(EventTrigger::ChampionKill),
            EventTrigger::FirstBlood => Some(EventTrigger::ChampionKill),
            EventTrigger::TradeKill => Some(EventTrigger::Death),
            EventTrigger::FirstBloodVictim => Some(EventTrigger::Death),
            EventTrigger::ElderDragonKill => Some(EventTrigger::DragonKill),
            EventTrigger::Steal => {
                let name = event.event_name.as_str();
                if crate::text::str_eq(name, "BaronKill") {
                    Some(EventTrigger::BaronKill)
                } else if crate::text::str_eq(name, "DragonKill") {
                    let elder = match &event.dragon_type {
                        Some(t) => crate::text::str_contains(t.as_str(), "Elder"),
                        None => false,
                    };
                    if elder {
                        Some(EventTrigger::ElderDragonKill)
                    } else {
                        Some(EventTrigger::DragonKill)
                    }
                } else {
                    None
                }
            },
            _ => None,
        }
    }
}

/// A fallback never has a higher priority than the trigger it replaces.
pub proof fn a_parent_never_outranks_its_child(t: EventTrigger, e: GameEvent)
    ensures
        trigger_parent(t, e) matches Some(p) ==> trigger_priority(p) <= trigger_priority(t),
{
}

/// Fallback chains are short: at most three steps lead to a trigger with no parent.
pub proof fn fallback_chains_end_within_three_steps(t: EventTrigger, e: GameEvent)
    ensures
        trigger_parent(t, e) matches Some(p1) ==> (trigger_parent(p1, e) matches Some(p2) ==> (
        trigger_parent(p2, e) matches Some(p3) ==> trigger_parent(p3, e) is None)),
{
}

/// Scores of one player.
#[derive(Clone, Copy, Debug)]
pub struct Scores {
    pub kills: u32,
    pub deaths: u32,
    pub assists: u32,
    pub creep_score: u32,
}

/// Health of a champion, in hundredths of a hit point.
#[derive(Clone, Copy, Debug)]
pub struct ChampionStats {
    pub current_health: u64,
    pub max_health: u64,
}

impl Default for ChampionStats {
    fn default() -> (s: Self)
        ensures
            s.current_health == 0 && s.max_health == 0,
    {
        ChampionStats { current_health: 0, max_health: 0 }
    }
}

/// One participant of the game.
#[derive(Clone, Debug)]
pub struct Player {
    pub champion_name: String,
    pub summoner_name: String,
    pub team: String,
    pub level: u32,
    pub scores: Scores,
    pub is_dead: bool,
    pub champion_stats: ChampionStats,
}

/// The player the client runs for.
#[derive(Clone, Debug)]
pub struct ActivePlayer {
    pub champion_name: String,
    pub summoner_name: String,
    pub level: u32,
    /// Gold, in hundredths.
    pub current_gold: u64,
}

/// One event of the game's event list.
#[derive(Clone, Debug)]
pub struct GameEvent {
    pub event_id: u32,
    pub event_name: String,
    /// Game time of the event, in milliseconds.
    pub event_time_ms: u64,
    pub killer_name: Option<String>,
    pub victim_name: Option<String>,
    pub assisters: Option<Vec<String>>,
    pub dragon_type: Option<String>,
    /// Win or loss, on a game-end event when the client reports it.
    pub result: Option<String>,
    /// The situation at the moment of the event, when it could be read.
    pub moment: Option<MomentContext>,
}

/// General game information.
#[derive(Clone, Debug)]
pub struct GameData {
    pub game_mode: String,
    /// Game time, in milliseconds.
    pub game_time_ms: u64,
    pub map_name: String,
    pub map_number: u32,
}

/// Everything the client reports about the game.
#[derive(Clone, Debug)]
pub struct AllGameData {
    pub active_player: ActivePlayer,
    pub all_players: Vec<Player>,
    pub events: Vec<GameEvent>,
    pub game_data: GameData,
}

/// Polling configuration of the event stream.
#[derive(Clone, Copy, Debug)]
pub struct EventStreamConfig {
    /// Interval of the light event-list poll, in milliseconds.
    pub event_poll_interval_ms: u64,
    /// Interval of the full game-data poll, in milliseconds.
    pub full_data_interval_ms: u64,
    /// Time-to-live of the cached game data, in milliseconds.
    pub cache_ttl_ms: u64,
    /// Connection timeout, in milliseconds.
    pub connection_timeout_ms: u64,
    /// Window (seconds) in which an enemy kill near an objective makes it contested.
    pub contest_window_secs: u64,
    /// Window (seconds) for which champion kills are kept for steal detection.
    pub kill_retention_secs: u64,
}

impl Default for EventStreamConfig {
    fn default() -> (c: Self)
        ensures
            c.event_poll_interval_ms == 250,
            c.full_data_interval_ms == 2000,
            c.cache_ttl_ms == 500,
            c.connection_timeout_ms == 1000,
            c.contest_window_secs == DEFAULT_CONTEST_WINDOW_SECS,
            c.kill_retention_secs == DEFAULT_KILL_RETENTION_SECS,
    {
        EventStreamConfig {
            event_poll_interval_ms: 250,
            full_data_interval_ms: 2000,
            cache_ttl_ms: 500,
            connection_timeout_ms: 1000,
            contest_window_secs: DEFAULT_CONTEST_WINDOW_SECS,
            kill_retention_secs: DEFAULT_KILL_RETENTION_SECS,
        }
    }
}

/// Whether the current session is a replay or spectated game rather than a live
/// game the player is in: no active player name, the "Spectator" placeholder,
/// an active player that is not a participant, or an active player at level 0.
pub open spec fn is_replay_session(data: AllGameData) -> bool {
    let name = data.active_player.summoner_name@;
    name.len() == 0 || name == "Spectator"@ || !(exists|i: int|
        0 <= i < data.all_players@.len() && #[trigger] data.all_players@[i].summoner_name@ == name)
        || data.active_player.level == 0
}

/// Decides from one game-data snapshot whether the session is a replay.
pub fn detect_replay_mode(data: &AllGameData) -> (replay: bool)
    ensures
        replay == is_replay_session(*data),
{
    let name = data.active_player.summoner_name.as_str();
    if name.is_empty() {
        return true;
    }
    if crate::text::str_eq(name, "Spectator") {
        return true;
    }
    let mut i: usize = 0;
    let mut participant = false;
    while i < data.all_players.len()
        invariant
            name@ == data.active_player.summoner_name@,
            i <= data.all_players@.len(),
            participant == exists|j: int|
                0 <= j < i && #[trigger] data.all_players@[j].summoner_name@ == name@,
        decreases data.all_players@.len() - i,
    {
        if crate::text::str_eq(data.all_players[i].summoner_name.as_str(), name) {
            participant = true;
        }
        i = i + 1;
    }
    if !participant {
        return true;
    }
    data.active_player.level == 0
}

// ---------------------------------------------------------------------------
// Circuit breaker
// ---------------------------------------------------------------------------

/// The state of a circuit breaker as plain values.
pub struct BreakerView {
    pub failure_count: u32,
    pub is_open: bool,
    pub last_failure_ms: Option<u64>,
}

/// Time elapsed since `t` at `now` (zero if `now` is earlier, as with a monotonic clock).
pub open spec fn elapsed_since(t: u64, now: u64) -> int {
    if now >= t {
        now - t
    } else {
        0
    }
}

/// A request may go out: the breaker is closed, or open with its cooldown spent
/// since the last failure (half-open).
pub open spec fn breaker_allows(v: BreakerView, cooldown_ms: u64, now_ms: u64) -> bool {
    !v.is_open || (v.last_failure_ms is Some && elapsed_since(v.last_failure_ms->0, now_ms)
        >= cooldown_ms)
}

/// One more consecutive failure; the breaker opens once `threshold` is reached.
pub open spec fn breaker_after_failure(v: BreakerView, threshold: u32, now_ms: u64) -> BreakerView {
    let count = if v.failure_count == u32::MAX { 0u32 } else { (v.failure_count + 1) as u32 };
    if count >= threshold {
        BreakerView { failure_count: count, is_open: true, last_failure_ms: Some(now_ms) }
    } else {
        BreakerView { failure_count: count, ..v }
    }
}

/// A success closes the breaker and forgets the failures.
pub open spec fn breaker_after_success(v: BreakerView) -> BreakerView {
    BreakerView { failure_count: 0, is_open: false, ..v }
}

/// Circuit breaker for polling the Live Client API: opens after `threshold`
/// consecutive failures and then lets one probe through once `cooldown` has
/// passed since the last failure; a success closes it.
pub struct CircuitBreaker {
    failure_count: u32,
    threshold: u32,
    cooldown_ms: u64,
    is_open: bool,
    last_failure_ms: Option<u64>,
}

impl CircuitBreaker {
    pub closed spec fn view(&self) -> BreakerView {
        BreakerView {
            failure_count: self.failure_count,
            is_open: self.is_open,
            last_failure_ms: self.last_failure_ms,
        }
    }

    pub closed spec fn spec_threshold(&self) -> u32 {
        self.threshold
    }

    pub closed spec fn spec_cooldown_ms(&self) -> u64 {
        self.cooldown_ms
    }

    pub fn new(threshold: u32, cooldown_ms: u64) -> (b: Self)
        ensures
            b.view() == (BreakerView { failure_count: 0, is_open: false, last_failure_ms: None }),
            b.spec_threshold() == threshold,
            b.spec_cooldown_ms() == cooldown_ms,
    {
        CircuitBreaker { failure_count: 0, threshold, cooldown_ms, is_open: false, last_failure_ms: None }
    }

    /// Whether a request should be attempted at `now_ms` (closed or half-open).
    pub fn should_allow_request(&self, now_ms: u64) -> (r: bool)
        ensures
            r == breaker_allows(self.view(), self.spec_cooldown_ms(), now_ms),
    {
        if !self.is_open {
            return true;
        }
        match self.last_failure_ms {
            Some(t) => {
                let elapsed = if now_ms >= t { now_ms - t } else { 0 };
                elapsed >= self.cooldown_ms
            },
            None => false,
        }
    }

    /// Records one failed request at `now_ms`.
    pub fn record_failure(&mut self, now_ms: u64)
        ensures
            final(self).view() == breaker_after_failure(old(self).view(), old(self).spec_threshold(), now_ms),
            final(self).spec_threshold() == old(self).spec_threshold(),
            final(self).spec_cooldown_ms() == old(self).spec_cooldown_ms(),
    {
        let count = self.failure_count.wrapping_add(1);
        self.failure_count = count;
        if count >= self.threshold {
            self.is_open = true;
            self.last_failure_ms = Some(now_ms);
        }
    }

    /// Records one successful request.
    pub fn record_success(&mut self)
        ensures
            final(self).view() == breaker_after_success(old(self).view()),
            final(self).spec_threshold() == old(self).spec_threshold(),
            final(self).spec_cooldown_ms() == old(self).spec_cooldown_ms(),
    {
        self.failure_count = 0;
        self.is_open = false;
    }
}

/// A fresh breaker lets every request through.
pub proof fn a_new_breaker_is_closed(cooldown_ms: u64, now_ms: u64)
    ensures
        breaker_allows(
            BreakerView { failure_count: 0, is_open: false, last_failure_ms: None },
            cooldown_ms,
            now_ms,
        ),
{
}

/// `k` consecutive failures, all at `now_ms`.
pub open spec fn failures(v: BreakerView, threshold: u32, now_ms: u64, k: nat) -> BreakerView
    decreases k,
{
    if k == 0 {
        v
    } else {
        breaker_after_failure(failures(v, threshold, now_ms, (k - 1) as nat), threshold, now_ms)
    }
}

proof fn lemma_failures_count(v: BreakerView, threshold: u32, now_ms: u64, k: nat)
    requires
        v.failure_count as int + k <= u32::MAX,
    ensures
        failures(v, threshold, now_ms, k).failure_count == v.failure_count + k,
        (failures(v, threshold, now_ms, k).is_open && k > 0 && v.failure_count + k >= threshold)
            ==> failures(v, threshold, now_ms, k).last_failure_ms == Some(now_ms),
        v.failure_count + k >= threshold && k > 0 ==> failures(v, threshold, now_ms, k).is_open,
    decreases k,
{
    if k > 0 {
        lemma_failures_count(v, threshold, now_ms, (k - 1) as nat);
    }
}

/// After `threshold` consecutive failures the breaker blocks requests until its
/// cooldown has passed, and lets one through once it has.
pub proof fn threshold_failures_open_the_breaker(
    v: BreakerView,
    threshold: u32,
    cooldown_ms: u64,
    now_ms: u64,
    later_ms: u64,
)
    requires
        v.failure_count == 0,
        threshold > 0,
        cooldown_ms > 0,
        later_ms >= now_ms,
    ensures
        !breaker_allows(failures(v, threshold, now_ms, threshold as nat), cooldown_ms, now_ms),
        later_ms - now_ms >= cooldown_ms ==> breaker_allows(
            failures(v, threshold, now_ms, threshold as nat),
            cooldown_ms,
            later_ms,
        ),
        later_ms - now_ms < cooldown_ms ==> !breaker_allows(
            failures(v, threshold, now_ms, threshold as nat),
            cooldown_ms,
            later_ms,
        ),
{
    lemma_failures_count(v, threshold, now_ms, threshold as nat);
}

/// Fewer than `threshold` consecutive failures from a closed breaker keep it closed.
pub proof fn fewer_failures_keep_the_breaker_closed(
    v: BreakerView,
    threshold: u32,
    cooldown_ms: u64,
    now_ms: u64,
    k: nat,
)
    requires
        v.failure_count == 0,
        !v.is_open,
        k < threshold,
    ensures
        breaker_allows(failures(v, threshold, now_ms, k), cooldown_ms, now_ms),
    decreases k,
{
    if k > 0 {
        fewer_failures_keep_the_breaker_closed(v, threshold, cooldown_ms, now_ms, (k - 1) as nat);
        lemma_failures_count(v, threshold, now_ms, (k - 1) as nat);
    }
}

/// A success closes the breaker: the next request goes out, and it again takes
/// `threshold` failures to open it.
pub proof fn success_resets_the_breaker(v: BreakerView, cooldown_ms: u64, now_ms: u64)
    ensures
        breaker_allows(breaker_after_success(v), cooldown_ms, now_ms),
        breaker_after_success(v).failure_count == 0,
{
}

/// The summoner names of all players, in the order the client lists them.
pub fn player_names(data: &AllGameData) -> (names: Vec<String>)
    ensures
        names@.map_values(|n: String| n@) == data.all_players@.map_values(|p: Player| p.summoner_name@),
{
    let mut names: Vec<String> = Vec::new();
    let mut i: usize = 0;
    while i < data.all_players.len()
        invariant
            i <= data.all_players@.len(),
            names@.len() == i,
            forall|k: int| 0 <= k < i ==> #[trigger] names@[k]@ == data.all_players@[k].summoner_name@,
        decreases data.all_players@.len() - i,
    {
        names.push(data.all_players[i].summoner_name.clone());
        i = i + 1;
    }
    proof {
        assert(names@.map_values(|n: String| n@) =~= data.all_players@.map_values(|p: Player| p.summoner_name@));
    }
    names
}

/// The game data may be used once the active player's name is known; while it is
/// empty the game is still loading.
pub fn game_data_ready(data: &AllGameData) -> (r: bool)
    ensures
        r == (data.active_player.summoner_name@.len() > 0),
{
    !data.active_player.summoner_name.as_str().is_empty()
}

/// What the monitor knows of the session: the player followed and the id of the
/// last event already read.
#[derive(Debug)]
pub struct LiveSession {
    pub player_name: Option<String>,
    pub last_event_id: u32,
}

/// The id of the last event of a list, if any.
pub open spec fn last_id_of(events: Seq<GameEvent>) -> Option<u32> {
    if events.len() > 0 {
        Some(events.last().event_id)
    } else {
        None
    }
}

impl LiveSession {
    /// A new monitoring session: nobody followed yet, no event read.
    pub fn start() -> (s: Self)
        ensures
            s.player_name is None,
            s.last_event_id == 0,
    {
        LiveSession { player_name: None, last_event_id: 0 }
    }

    /// The first game data of the session: follow its active player and skip every
    /// event already in the game.
    pub fn connect(&mut self, data: &AllGameData)
        ensures
            final(self).player_name matches Some(n) && n@ == data.active_player.summoner_name@,
            final(self).last_event_id == (match last_id_of(data.events@) {
                Some(id) => id,
                None => old(self).last_event_id,
            }),
    {
        self.player_name = Some(data.active_player.summoner_name.clone());
        let n = data.events.len();
        if n > 0 {
            self.last_event_id = data.events[n - 1].event_id;
        }
    }

    /// Game data read during polling: a session that never connected follows its
    /// active player now and, when no event was read yet, skips the events already
    /// in the game; a connected session is left as it is.
    pub fn refresh(&mut self, data: &AllGameData)
        ensures
            old(self).player_name is Some ==> *final(self) == *old(self),
            old(self).player_name is None ==> {
                &&& final(self).player_name matches Some(n) && n@ == data.active_player.summoner_name@
                &&& final(self).last_event_id == (if old(self).last_event_id == 0 && last_id_of(data.events@) is Some {
                    last_id_of(data.events@)->0
                } else {
                    old(self).last_event_id
                })
            },
    {
        if self.player_name.is_none() {
            self.player_name = Some(data.active_player.summoner_name.clone());
            let n = data.events.len();
            if n > 0 && self.last_event_id == 0 {
                self.last_event_id = data.events[n - 1].event_id;
            }
        }
    }
}

/// The last game data read and when (ms on a monotonic clock).
pub struct GameStateCache {
    data: Option<AllGameData>,
    last_updated_ms: Option<u64>,
    ttl_ms: u64,
}

impl GameStateCache {
    pub closed spec fn spec_data(&self) -> Option<AllGameData> {
        self.data
    }

    pub closed spec fn spec_updated(&self) -> Option<u64> {
        self.last_updated_ms
    }

    pub closed spec fn spec_ttl(&self) -> u64 {
        self.ttl_ms
    }

    /// The data is younger than the time-to-live.
    pub open spec fn fresh(&self, now_ms: u64) -> bool {
        self.spec_updated() matches Some(t) && now_ms >= t && now_ms - t < self.spec_ttl()
    }

    /// An empty cache.
    pub fn new(ttl_ms: u64) -> (c: Self)
        ensures
            c.spec_data() is None,
            c.spec_updated() is None,
            c.spec_ttl() == ttl_ms,
    {
        GameStateCache { data: None, last_updated_ms: None, ttl_ms }
    }

    /// Whether the cached data is still fresh.
    pub fn is_valid(&self, now_ms: u64) -> (r: bool)
        ensures
            r == self.fresh(now_ms),
    {
        match self.last_updated_ms {
            Some(t) => now_ms >= t && now_ms - t < self.ttl_ms,
            None => false,
        }
    }

    /// Stores data read at `now_ms`.
    pub fn update(&mut self, data: AllGameData, now_ms: u64)
        ensures
            final(self).spec_data() == Some(data),
            final(self).spec_updated() == Some(now_ms),
            final(self).spec_ttl() == old(self).spec_ttl(),
    {
        self.data = Some(data);
        self.last_updated_ms = Some(now_ms);
    }

    /// The cached data while it is fresh.
    pub fn get(&self, now_ms: u64) -> (r: Option<&AllGameData>)
        ensures
            self.fresh(now_ms) ==> match r {
                Some(d) => self.spec_data() == Some(*d),
                None => self.spec_data() is None,
            },
            !self.fresh(now_ms) ==> r is None,
    {
        if self.is_valid(now_ms) {
            self.data.as_ref()
        } else {
            None
        }
    }
}

} // verus!
