//! Turning raw Live Client events into clip triggers.
//!
//! The detector keeps a little memory of the game (kill streaks, recent kills
//! and who made them) so that one event can be recognised as a shutdown, a
//! multikill, a 1vX outplay, a trade, a steal and so on. `detect` is the
//! transition function of that state machine; the polling loop around it lives
//! outside the library and hands in the current time.
use vstd::prelude::*;

use crate::live_events::{AllGameData, EventTrigger, GameEvent, Player};
use crate::text::{contains_seq, opt_str_eq, str_contains, str_eq, strings_contain};

verus! {

/// Window (ms) in which the player's solo kills add up to a 1vX outplay, and in
/// which the player's kills count for a trade.
pub const OUTPLAY_WINDOW_MS: u64 = 10_000;
/// Window (ms) between the player's kill and death that makes a trade kill.
pub const TRADE_WINDOW_MS: u64 = 5_000;
/// Window (ms, wall clock) in which kills by one player make a multikill.
pub const MULTIKILL_WINDOW_MS: u64 = 10_000;
/// Age given to a wall-clock timestamp that lies in the future (a clock step back).
pub const FUTURE_TIMESTAMP_AGE_MS: u64 = 100_000;
/// Streak length from which killing that champion is a shutdown.
pub const SHUTDOWN_STREAK: u32 = 3;

/// A name with a timestamp in milliseconds.
pub struct TimedName {
    pub at_ms: u64,
    pub name: String,
}

pub open spec fn timed_view(s: Seq<TimedName>) -> Seq<(u64, Seq<char>)> {
    s.map_values(|t: TimedName| (t.at_ms, t.name@))
}

/// The detector's memory as plain values.
pub struct DetectorView {
    /// Current kill streak of each champion, by summoner name.
    pub streaks: Map<Seq<char>, u32>,
    /// Recent kills: (wall-clock ms, killer).
    pub recent_kills: Seq<(u64, Seq<char>)>,
    /// Recent champion kills near objectives: (wall-clock ms, killer's team).
    pub champion_kills: Seq<(u64, Seq<char>)>,
    /// The player's recent solo kills: (game ms, victim).
    pub solo_kills: Seq<(u64, Seq<char>)>,
    /// The player's recent kills, for trades: (game ms, victim).
    pub dive_kills: Seq<(u64, Seq<char>)>,
}

/// Age of a wall-clock timestamp; one in the future counts as very old.
pub open spec fn wall_age(ts: u64, now: u64) -> int {
    if ts <= now {
        now - ts
    } else {
        FUTURE_TIMESTAMP_AGE_MS as int
    }
}

/// Distance between two game times.
pub open spec fn time_gap(a: u64, b: u64) -> int {
    if a >= b {
        a - b
    } else {
        b - a
    }
}

/// Entries whose wall-clock age at `now` is below `limit`, in order.
pub open spec fn keep_younger(s: Seq<(u64, Seq<char>)>, now: u64, limit: int) -> Seq<(u64, Seq<char>)>
    decreases s.len(),
{
    if s.len() == 0 {
        s
    } else {
        let rest = keep_younger(s.drop_last(), now, limit);
        if wall_age(s.last().0, now) < limit {
            rest.push(s.last())
        } else {
            rest
        }
    }
}

/// Entries whose game time is closer than `limit` to `t`, in order.
pub open spec fn keep_near(s: Seq<(u64, Seq<char>)>, t: u64, limit: int) -> Seq<(u64, Seq<char>)>
    decreases s.len(),
{
    if s.len() == 0 {
        s
    } else {
        let rest = keep_near(s.drop_last(), t, limit);
        if time_gap(t, s.last().0) < limit {
            rest.push(s.last())
        } else {
            rest
        }
    }
}

/// Number of entries carrying `name`.
pub open spec fn count_named(s: Seq<(u64, Seq<char>)>, name: Seq<char>) -> nat
    decreases s.len(),
{
    if s.len() == 0 {
        0
    } else {
        count_named(s.drop_last(), name) + if s.last().1 == name { 1nat } else { 0nat }
    }
}

/// Number of distinct names among the entries.
pub open spec fn distinct_names(s: Seq<(u64, Seq<char>)>) -> nat
    decreases s.len(),
{
    if s.len() == 0 {
        0
    } else {
        distinct_names(s.drop_last()) + if (exists|i: int|
            0 <= i < s.len() - 1 && #[trigger] s[i].1 == s.last().1) {
            0nat
        } else {
            1nat
        }
    }
}

/// Multikill level from a kill count (the count is taken modulo 256, as an 8-bit count).
pub open spec fn multikill_level(count: nat) -> u8 {
    let c = count % 256;
    if c >= 5 {
        5
    } else if c == 4 {
        4
    } else if c == 3 {
        3
    } else if c == 2 {
        2
    } else {
        1
    }
}

/// `i` is the first player named `name`.
pub open spec fn is_first_named(players: Seq<Player>, name: Seq<char>, i: int) -> bool {
    &&& 0 <= i < players.len()
    &&& players[i].summoner_name@ == name
    &&& forall|j: int| 0 <= j < i ==> #[trigger] players[j].summoner_name@ != name
}

/// The first player named `name`, if any.
pub open spec fn player_named(players: Seq<Player>, name: Seq<char>) -> Option<Player> {
    if exists|i: int| is_first_named(players, name, i) {
        Some(players[choose|i: int| is_first_named(players, name, i)])
    } else {
        None
    }
}

pub open spec fn game_player(game: Option<AllGameData>, name: Seq<char>) -> Option<Player> {
    match game {
        Some(g) => player_named(g.all_players@, name),
        None => None,
    }
}

/// The objective is contested: the other team made a kill within the contest window.
pub open spec fn objective_contested(
    v: DetectorView,
    player: Seq<char>,
    game: Option<AllGameData>,
    now: u64,
    contest_secs: u64,
) -> bool {
    match game_player(game, player) {
        Some(p) => enemy_kill_within(v.champion_kills, p.team@, now, contest_secs),
        None => false,
    }
}

/// A champion kill by a team other than `team` happened within `secs` seconds of `now`.
pub open spec fn enemy_kill_within(kills: Seq<(u64, Seq<char>)>, team: Seq<char>, now: u64, secs: u64) -> bool {
    exists|i: int|
        0 <= i < kills.len() && wall_age(#[trigger] kills[i].0, now) < secs * 1000 && kills[i].1 != team
}

/// The player is below a quarter of maximum health.
pub open spec fn player_low_hp(game: Option<AllGameData>, player: Seq<char>) -> bool {
    match game_player(game, player) {
        Some(p) => p.champion_stats.max_health > 0 && 4 * p.champion_stats.current_health
            < p.champion_stats.max_health,
        None => false,
    }
}

pub open spec fn names(o: Option<String>, n: Seq<char>) -> bool {
    o is Some && o->0@ == n
}

pub open spec fn is_solo_kill(e: GameEvent) -> bool {
    match e.assisters {
        Some(a) => a@.len() == 0,
        None => true,
    }
}

pub open spec fn assisted_by(e: GameEvent, player: Seq<char>) -> bool {
    e.assisters is Some && exists|i: int|
        0 <= i < e.assisters->0@.len() && #[trigger] e.assisters->0@[i]@ == player
}

pub open spec fn push_if(s: Seq<(u64, Seq<char>)>, cond: bool, x: (u64, Seq<char>)) -> Seq<(u64, Seq<char>)> {
    if cond {
        s.push(x)
    } else {
        s
    }
}

/// Streaks after the killer's streak grows by one (saturating).
pub open spec fn bump(streaks: Map<Seq<char>, u32>, name: Seq<char>) -> Map<Seq<char>, u32> {
    let old_count = if streaks.contains_key(name) { streaks[name] } else { 0u32 };
    streaks.insert(name, if old_count == u32::MAX { u32::MAX } else { (old_count + 1) as u32 })
}

pub open spec fn streak_of(streaks: Map<Seq<char>, u32>, name: Seq<char>) -> u32 {
    if streaks.contains_key(name) {
        streaks[name]
    } else {
        0
    }
}

/// The ChampionKill transition.
pub open spec fn champion_kill_step(
    v: DetectorView,
    e: GameEvent,
    player: Seq<char>,
    game: Option<AllGameData>,
    now: u64,
    retention_secs: u64,
) -> (DetectorView, Option<EventTrigger>) {
    let t = e.event_time_ms;
    let bumped = if e.killer_name is Some { bump(v.streaks, e.killer_name->0@) } else { v.streaks };
    let had_streak = e.victim_name is Some && streak_of(bumped, e.victim_name->0@) >= SHUTDOWN_STREAK;
    let streaks = if e.victim_name is Some { bumped.remove(e.victim_name->0@) } else { bumped };
    let killer_player = if e.killer_name is Some { game_player(game, e.killer_name->0@) } else { None };
    let champion_kills = match killer_player {
        Some(kp) => keep_younger(v.champion_kills.push((now, kp.team@)), now, retention_secs * 1000),
        None => v.champion_kills,
    };
    let v1 = DetectorView { streaks, champion_kills, ..v };
    if names(e.killer_name, player) {
        let solo_kills = keep_near(
            push_if(v.solo_kills, is_solo_kill(e) && e.victim_name is Some, (t, e.victim_name->0@)),
            t,
            OUTPLAY_WINDOW_MS as int,
        );
        let dive_kills = keep_near(
            push_if(v.dive_kills, e.victim_name is Some, (t, e.victim_name->0@)),
            t,
            OUTPLAY_WINDOW_MS as int,
        );
        let v2 = DetectorView { solo_kills, dive_kills, ..v1 };
        if had_streak {
            (v2, Some(EventTrigger::Shutdown))
        } else {
            let recent_kills = keep_younger(
                v.recent_kills.push((now, player)),
                now,
                MULTIKILL_WINDOW_MS as int,
            );
            let v3 = DetectorView { recent_kills, ..v2 };
            let level = multikill_level(count_named(recent_kills, player));
            let outplayed = distinct_names(solo_kills);
            if outplayed >= 2 {
                (v3, Some(EventTrigger::Outplay1vX(outplayed as u32)))
            } else if level >= 2 {
                (v3, Some(EventTrigger::Multikill(level)))
            } else if player_low_hp(game, player) {
                (v3, Some(EventTrigger::LowHpOutplay))
            } else {
                (v3, Some(EventTrigger::ChampionKill))
            }
        }
    } else if names(e.victim_name, player) {
        if exists|i: int|
            0 <= i < v.dive_kills.len() && time_gap(t, #[trigger] v.dive_kills[i].0)
                < TRADE_WINDOW_MS {
            (v1, Some(EventTrigger::TradeKill))
        } else {
            (v1, Some(EventTrigger::Death))
        }
    } else if e.assisters is Some {
        (v1, if assisted_by(e, player) { Some(EventTrigger::Assist) } else { None })
    } else {
        (v1, None)
    }
}

/// A kill of an objective by the player: the trigger it makes, or none.
pub open spec fn objective_step(
    v: DetectorView,
    e: GameEvent,
    player: Seq<char>,
    game: Option<AllGameData>,
    now: u64,
    contest_secs: u64,
) -> Option<EventTrigger> {
    let name = e.event_name@;
    if !names(e.killer_name, player) {
        None
    } else if name == "DragonKill"@ {
        if objective_contested(v, player, game, now, contest_secs) {
            Some(EventTrigger::Steal)
        } else if e.dragon_type is Some && contains_seq(e.dragon_type->0@, "Elder"@) {
            Some(EventTrigger::ElderDragonKill)
        } else {
            Some(EventTrigger::DragonKill)
        }
    } else if name == "BaronKill"@ {
        if objective_contested(v, player, game, now, contest_secs) {
            Some(EventTrigger::Steal)
        } else {
            Some(EventTrigger::BaronKill)
        }
    } else if name == "TurretKilled"@ {
        Some(EventTrigger::TurretKill)
    } else if name == "InhibKilled"@ {
        Some(EventTrigger::InhibitorKill)
    } else if name == "HeraldKill"@ {
        Some(EventTrigger::HeraldKill)
    } else if name == "HordeKill"@ {
        Some(EventTrigger::VoidgrubsKill)
    } else {
        Some(EventTrigger::AtakhanKill)
    }
}

pub open spec fn is_objective_event(name: Seq<char>) -> bool {
    name == "DragonKill"@ || name == "BaronKill"@ || name == "TurretKilled"@ || name
        == "InhibKilled"@ || name == "HeraldKill"@ || name == "HordeKill"@ || name
        == "AtakhanKill"@
}

/// The transition of the detector on one event: the new memory and the trigger, if any.
pub open spec fn detect_step(
    v: DetectorView,
    e: GameEvent,
    player: Seq<char>,
    game: Option<AllGameData>,
    now: u64,
    contest_secs: u64,
    retention_secs: u64,
) -> (DetectorView, Option<EventTrigger>) {
    let name = e.event_name@;
    if name == "FirstBlood"@ {
        (v, Some(EventTrigger::FirstBlood))
    } else if name == "ChampionKill"@ {
        champion_kill_step(v, e, player, game, now, retention_secs)
    } else if is_objective_event(name) {
        (v, objective_step(v, e, player, game, now, contest_secs))
    } else if name == "Ace"@ {
        (v, Some(EventTrigger::Ace))
    } else if name == "GameEnd"@ {
        (v, Some(EventTrigger::GameEnd))
    } else {
        (v, None)
    }
}

// ---------------------------------------------------------------------------
// Executable helpers
// ---------------------------------------------------------------------------

fn copy_timed(t: &TimedName) -> (r: TimedName)
    ensures
        r.at_ms == t.at_ms,
        r.name@ == t.name@,
{
    TimedName { at_ms: t.at_ms, name: t.name.clone() }
}

proof fn lemma_timed_view_push(s: Seq<TimedName>, t: TimedName)
    ensures
        timed_view(s.push(t)) == timed_view(s).push((t.at_ms, t.name@)),
{
    assert(timed_view(s.push(t)) =~= timed_view(s).push((t.at_ms, t.name@)));
}

proof fn lemma_timed_view_take(s: Seq<TimedName>, i: int)
    requires
        0 <= i < s.len(),
    ensures
        timed_view(s.take(i + 1)).drop_last() == timed_view(s.take(i)),
        timed_view(s.take(i + 1)).last() == (s[i].at_ms, s[i].name@),
        timed_view(s.take(i + 1)).len() == i + 1,
{
    assert(timed_view(s.take(i + 1)).drop_last() =~= timed_view(s.take(i)));
}

/// Keeps the entries younger than `limit` ms (wall clock) at `now`.
fn retain_younger(list: &Vec<TimedName>, now: u64, limit: u128) -> (r: Vec<TimedName>)
    ensures
        timed_view(r@) == keep_younger(timed_view(list@), now, limit as int),
{
    let mut r: Vec<TimedName> = Vec::new();
    let mut i: usize = 0;
    while i < list.len()
        invariant
            i <= list@.len(),
            timed_view(r@) == keep_younger(timed_view(list@.take(i as int)), now, limit as int),
        decreases list@.len() - i,
    {
        proof {
            lemma_timed_view_take(list@, i as int);
        }
        let ts = list[i].at_ms;
        let age: u64 = if ts <= now { now - ts } else { FUTURE_TIMESTAMP_AGE_MS };
        if (age as u128) < limit {
            let c = copy_timed(&list[i]);
            proof {
                lemma_timed_view_push(r@, c);
            }
            r.push(c);
        }
        i = i + 1;
    }
    proof {
        assert(list@.take(list@.len() as int) =~= list@);
    }
    r
}

/// Keeps the entries closer than `limit` ms of game time to `t`.
fn retain_near(list: &Vec<TimedName>, t: u64, limit: u64) -> (r: Vec<TimedName>)
    ensures
        timed_view(r@) == keep_near(timed_view(list@), t, limit as int),
{
    let mut r: Vec<TimedName> = Vec::new();
    let mut i: usize = 0;
    while i < list.len()
        invariant
            i <= list@.len(),
            timed_view(r@) == keep_near(timed_view(list@.take(i as int)), t, limit as int),
        decreases list@.len() - i,
    {
        proof {
            lemma_timed_view_take(list@, i as int);
        }
        let x = list[i].at_ms;
        let gap: u64 = if t >= x { t - x } else { x - t };
        if gap < limit {
            let c = copy_timed(&list[i]);
            proof {
                lemma_timed_view_push(r@, c);
            }
            r.push(c);
        }
        i = i + 1;
    }
    proof {
        assert(list@.take(list@.len() as int) =~= list@);
    }
    r
}

fn count_with_name(list: &Vec<TimedName>, name: &str) -> (n: usize)
    ensures
        n == count_named(timed_view(list@), name@),
{
    let mut n: usize = 0;
    let mut i: usize = 0;
    while i < list.len()
        invariant
            i <= list@.len(),
            n == count_named(timed_view(list@.take(i as int)), name@),
            n <= i,
        decreases list@.len() - i,
    {
        proof {
            lemma_timed_view_take(list@, i as int);
        }
        if str_eq(list[i].name.as_str(), name) {
            n = n + 1;
        }
        i = i + 1;
    }
    proof {
        assert(list@.take(list@.len() as int) =~= list@);
    }
    n
}

fn count_distinct_names(list: &Vec<TimedName>) -> (n: usize)
    ensures
        n == distinct_names(timed_view(list@)),
{
    let mut n: usize = 0;
    let mut i: usize = 0;
    while i < list.len()
        invariant
            i <= list@.len(),
            n == distinct_names(timed_view(list@.take(i as int))),
            n <= i,
        decreases list@.len() - i,
    {
        let ghost s = timed_view(list@.take(i + 1));
        proof {
            lemma_timed_view_take(list@, i as int);
        }
        let mut seen = false;
        let mut j: usize = 0;
        while j < i
            invariant
                i < list@.len(),
                j <= i,
                s == timed_view(list@.take(i + 1)),
                s.len() == i + 1,
                seen == exists|k: int| 0 <= k < j && #[trigger] s[k].1 == s.last().1,
            decreases i - j,
        {
            proof {
                assert(s[j as int] == (list@[j as int].at_ms, list@[j as int].name@));
                assert(s.last() == (list@[i as int].at_ms, list@[i as int].name@));
            }
            let same = str_eq(list[j].name.as_str(), list[i].name.as_str());
            if same {
                seen = true;
            }
            proof {
                assert(same == (s[j as int].1 == s.last().1));
                if same {
                    assert(s[j as int].1 == s.last().1);
                }
            }
            j = j + 1;
        }
        if !seen {
            n = n + 1;
        }
        i = i + 1;
    }
    proof {
        assert(list@.take(list@.len() as int) =~= list@);
    }
    n
}

fn any_within(list: &Vec<TimedName>, t: u64, limit: u64) -> (r: bool)
    ensures
        r == exists|i: int|
            0 <= i < timed_view(list@).len() && time_gap(t, #[trigger] timed_view(list@)[i].0) < limit,
{
    let mut i: usize = 0;
    while i < list.len()
        invariant
            i <= list@.len(),
            forall|k: int| 0 <= k < i ==> time_gap(t, #[trigger] timed_view(list@)[k].0) >= limit,
        decreases list@.len() - i,
    {
        let x = list[i].at_ms;
        let gap: u64 = if t >= x { t - x } else { x - t };
        if gap < limit {
            assert(timed_view(list@)[i as int].0 == x);
            return true;
        }
        i = i + 1;
    }
    false
}

/// The first player named `name`.
pub fn find_player(players: &Vec<Player>, name: &str) -> (r: Option<usize>)
    ensures
        match r {
            Some(i) => is_first_named(players@, name@, i as int),
            None => forall|j: int| 0 <= j < players@.len() ==> #[trigger] players@[j].summoner_name@ != name@,
        },
{
    let mut i: usize = 0;
    while i < players.len()
        invariant
            i <= players@.len(),
            forall|j: int| 0 <= j < i ==> #[trigger] players@[j].summoner_name@ != name@,
        decreases players@.len() - i,
    {
        if str_eq(players[i].summoner_name.as_str(), name) {
            return Some(i);
        }
        i = i + 1;
    }
    None
}

proof fn lemma_player_named(players: Seq<Player>, name: Seq<char>, r: Option<usize>)
    requires
        match r {
            Some(i) => is_first_named(players, name, i as int),
            None => forall|j: int| 0 <= j < players.len() ==> #[trigger] players[j].summoner_name@ != name,
        },
    ensures
        player_named(players, name) == match r {
            Some(i) => Some(players[i as int]),
            None => None::<Player>,
        },
{
    match r {
        Some(i) => {
            assert(is_first_named(players, name, i as int));
            let c = choose|k: int| is_first_named(players, name, k);
            assert(is_first_named(players, name, c));
            if c < i {
                assert(players[c].summoner_name@ != name);
            } else if c > i {
                assert(players[i as int].summoner_name@ != name);
            }
        },
        None => {
            if exists|k: int| is_first_named(players, name, k) {
                let c = choose|k: int| is_first_named(players, name, k);
                assert(players[c].summoner_name@ != name);
            }
        },
    }
}

/// The first player of the cached game data named `name`.
fn game_player_exec<'a>(game: &'a Option<AllGameData>, name: &str) -> (r: Option<&'a Player>)
    ensures
        match r {
            Some(p) => game_player(*game, name@) == Some(*p),
            None => game_player(*game, name@) is None,
        },
{
    match game {
        Some(g) => {
            let idx = find_player(&g.all_players, name);
            proof {
                lemma_player_named(g.all_players@, name@, idx);
            }
            match idx {
                Some(i) => Some(&g.all_players[i]),
                None => None,
            }
        },
        None => None,
    }
}

/// One entry of the kill-streak table.
struct StreakEntry {
    name: String,
    kills: u32,
}

/// The detector of clip triggers.
pub struct TriggerDetector {
    streak_entries: Vec<StreakEntry>,
    streaks: Ghost<Map<Seq<char>, u32>>,
    recent_kills: Vec<TimedName>,
    champion_kills: Vec<TimedName>,
    solo_kills: Vec<TimedName>,
    dive_kills: Vec<TimedName>,
    contest_window_secs: u64,
    kill_retention_secs: u64,
}

impl TriggerDetector {
    pub closed spec fn view(&self) -> DetectorView {
        DetectorView {
            streaks: self.streaks@,
            recent_kills: timed_view(self.recent_kills@),
            champion_kills: timed_view(self.champion_kills@),
            solo_kills: timed_view(self.solo_kills@),
            dive_kills: timed_view(self.dive_kills@),
        }
    }

    pub closed spec fn contest_secs(&self) -> u64 {
        self.contest_window_secs
    }

    pub closed spec fn retention_secs(&self) -> u64 {
        self.kill_retention_secs
    }

    /// The streak table is a faithful, duplicate-free listing of the streak map.
    pub closed spec fn wf(&self) -> bool {
        let e = self.streak_entries@;
        &&& forall|a: int, b: int|
            0 <= a < b < e.len() ==> #[trigger] e[a].name@ != #[trigger] e[b].name@
        &&& forall|i: int|
            0 <= i < e.len() ==> self.streaks@.contains_key(#[trigger] e[i].name@)
                && self.streaks@[e[i].name@] == e[i].kills
        &&& forall|k: Seq<char>|
            #[trigger] self.streaks@.contains_key(k) ==> exists|i: int|
                0 <= i < e.len() && #[trigger] e[i].name@ == k
    }

    /// A detector with an empty memory.
    pub fn new(contest_window_secs: u64, kill_retention_secs: u64) -> (d: Self)
        ensures
            d.wf(),
            d.view() == (DetectorView {
                streaks: Map::empty(),
                recent_kills: Seq::empty(),
                champion_kills: Seq::empty(),
                solo_kills: Seq::empty(),
                dive_kills: Seq::empty(),
            }),
            d.contest_secs() == contest_window_secs,
            d.retention_secs() == kill_retention_secs,
    {
        let d = TriggerDetector {
            streak_entries: Vec::new(),
            streaks: Ghost(Map::empty()),
            recent_kills: Vec::new(),
            champion_kills: Vec::new(),
            solo_kills: Vec::new(),
            dive_kills: Vec::new(),
            contest_window_secs,
            kill_retention_secs,
        };
        proof {
            assert(timed_view(d.recent_kills@) =~= Seq::<(u64, Seq<char>)>::empty());
        }
        d
    }

    fn find_streak(&self, name: &str) -> (r: Option<usize>)
        requires
            self.wf(),
        ensures
            match r {
                Some(i) => i < self.streak_entries@.len() && self.streak_entries@[i as int].name@
                    == name@,
                None => !self.streaks@.contains_key(name@),
            },
    {
        let mut i: usize = 0;
        while i < self.streak_entries.len()
            invariant
                i <= self.streak_entries@.len(),
                forall|j: int| 0 <= j < i ==> #[trigger] self.streak_entries@[j].name@ != name@,
            decreases self.streak_entries@.len() - i,
        {
            if str_eq(self.streak_entries[i].name.as_str(), name) {
                return Some(i);
            }
            i = i + 1;
        }
        proof {
            if self.streaks@.contains_key(name@) {
                let k = choose|k: int|
                    0 <= k < self.streak_entries@.len() && #[trigger] self.streak_entries@[k].name@
                        == name@;
                assert(self.streak_entries@[k].name@ != name@);
            }
        }
        None
    }

    /// The killer's streak grows by one.
    fn bump_streak(&mut self, name: &str)
        requires
            old(self).wf(),
        ensures
            final(self).wf(),
            final(self).view() == (DetectorView { streaks: bump(old(self).view().streaks, name@), ..old(self).view() }),
            final(self).contest_secs() == old(self).contest_secs(),
            final(self).retention_secs() == old(self).retention_secs(),
    {
        match self.find_streak(name) {
            Some(i) => {
                let k = self.streak_entries[i].kills;
                let k2 = if k == u32::MAX { u32::MAX } else { k + 1 };
                let entry = StreakEntry { name: self.streak_entries[i].name.clone(), kills: k2 };
                let ghost m = self.streaks@;
                self.streak_entries.set(i, entry);
                self.streaks = Ghost(m.insert(name@, k2));
                proof {
                    assert(m.contains_key(name@));
                    assert forall|k: Seq<char>| #[trigger] self.streaks@.contains_key(k) implies exists|j: int|
                        0 <= j < self.streak_entries@.len() && #[trigger] self.streak_entries@[j].name@ == k by {
                        if k == name@ {
                            assert(self.streak_entries@[i as int].name@ == k);
                        } else {
                            let j = choose|j: int|
                                0 <= j < old(self).streak_entries@.len() && #[trigger] old(self).streak_entries@[j].name@ == k;
                            assert(self.streak_entries@[j].name@ == k);
                        }
                    }
                }
            },
            None => {
                let ghost m = self.streaks@;
                self.streak_entries.push(StreakEntry { name: crate::text::string_of(name), kills: 1 });
                self.streaks = Ghost(m.insert(name@, 1));
                proof {
                    let n = self.streak_entries@.len() - 1;
                    assert forall|a: int, b: int|
                        0 <= a < b < self.streak_entries@.len() implies #[trigger] self.streak_entries@[a].name@
                        != #[trigger] self.streak_entries@[b].name@ by {
                        if b == n {
                            assert(m.contains_key(self.streak_entries@[a].name@));
                        }
                    }
                    assert forall|k: Seq<char>| #[trigger] self.streaks@.contains_key(k) implies exists|j: int|
                        0 <= j < self.streak_entries@.len() && #[trigger] self.streak_entries@[j].name@ == k by {
                        if k == name@ {
                            assert(self.streak_entries@[n].name@ == k);
                        } else {
                            let j = choose|j: int|
                                0 <= j < old(self).streak_entries@.len() && #[trigger] old(self).streak_entries@[j].name@ == k;
                            assert(self.streak_entries@[j].name@ == k);
                        }
                    }
                }
            },
        }
    }

    /// Removes a victim's streak and returns what it was.
    fn take_streak(&mut self, name: &str) -> (r: u32)
        requires
            old(self).wf(),
        ensures
            final(self).wf(),
            r == streak_of(old(self).view().streaks, name@),
            final(self).view() == (DetectorView { streaks: old(self).view().streaks.remove(name@), ..old(self).view() }),
            final(self).contest_secs() == old(self).contest_secs(),
            final(self).retention_secs() == old(self).retention_secs(),
    {
        match self.find_streak(name) {
            Some(i) => {
                let k = self.streak_entries[i].kills;
                let ghost m = self.streaks@;
                let ghost e = self.streak_entries@;
                self.streak_entries.remove(i);
                self.streaks = Ghost(m.remove(name@));
                proof {
                    assert forall|a: int, b: int|
                        0 <= a < b < self.streak_entries@.len() implies #[trigger] self.streak_entries@[a].name@
                        != #[trigger] self.streak_entries@[b].name@ by {
                        let a0 = if a < i { a } else { a + 1 };
                        let b0 = if b < i { b } else { b + 1 };
                        assert(self.streak_entries@[a] == e[a0]);
                        assert(self.streak_entries@[b] == e[b0]);
                    }
                    assert forall|j: int|
                        0 <= j < self.streak_entries@.len() implies self.streaks@.contains_key(
                        #[trigger] self.streak_entries@[j].name@) && self.streaks@[self.streak_entries@[j].name@]
                        == self.streak_entries@[j].kills by {
                        let j0 = if j < i { j } else { j + 1 };
                        assert(self.streak_entries@[j] == e[j0]);
                        assert(e[j0].name@ != e[i as int].name@);
                    }
                    assert forall|key: Seq<char>| #[trigger] self.streaks@.contains_key(key) implies exists|j: int|
                        0 <= j < self.streak_entries@.len() && #[trigger] self.streak_entries@[j].name@ == key by {
                        let j0 = choose|j: int| 0 <= j < e.len() && #[trigger] e[j].name@ == key;
                        assert(j0 != i);
                        let j = if j0 < i { j0 } else { j0 - 1 };
                        assert(self.streak_entries@[j] == e[j0]);
                    }
                }
                k
            },
            None => {
                proof {
                    assert(self.streaks@.remove(name@) =~= self.streaks@);
                }
                0
            },
        }
    }

    /// The kill count of `killer` among recent kills, after recording this kill.
    fn record_kill_and_count(&mut self, killer: &str, now_ms: u64) -> (level: u8)
        requires
            old(self).wf(),
        ensures
            final(self).wf(),
            final(self).view() == (DetectorView {
                recent_kills: keep_younger(old(self).view().recent_kills.push((now_ms, killer@)), now_ms, MULTIKILL_WINDOW_MS as int),
                ..old(self).view()
            }),
            level == multikill_level(count_named(final(self).view().recent_kills, killer@)),
            final(self).contest_secs() == old(self).contest_secs(),
            final(self).retention_secs() == old(self).retention_secs(),
    {
        let entry = TimedName { at_ms: now_ms, name: crate::text::string_of(killer) };
        proof {
            lemma_timed_view_push(self.recent_kills@, entry);
        }
        self.recent_kills.push(entry);
        let kept = retain_younger(&self.recent_kills, now_ms, MULTIKILL_WINDOW_MS as u128);
        self.recent_kills = kept;
        let count = count_with_name(&self.recent_kills, killer);
        assert(self.streak_entries@ == old(self).streak_entries@);
        assert(self.streaks@ == old(self).streaks@);
        assert(self.wf());
        let c8 = (count % 256) as u8;
        if c8 >= 5 {
            5
        } else if c8 == 4 {
            4
        } else if c8 == 3 {
            3
        } else if c8 == 2 {
            2
        } else {
            1
        }
    }
}


/// Whether the other team made a kill within the contest window.
fn contested_exec(
    champion_kills: &Vec<TimedName>,
    player: &str,
    game: &Option<AllGameData>,
    now_ms: u64,
    contest_secs: u64,
) -> (r: bool)
    ensures
        r == match game_player(*game, player@) {
            Some(p) => enemy_kill_within(timed_view(champion_kills@), p.team@, now_ms, contest_secs),
            None => false,
        },
{
    match game_player_exec(game, player) {
        None => false,
        Some(p) => {
            let limit: u128 = (contest_secs as u128) * 1000;
            let mut i: usize = 0;
            while i < champion_kills.len()
                invariant
                    i <= champion_kills@.len(),
                    limit == contest_secs * 1000,
                    game_player(*game, player@) == Some(*p),
                    forall|k: int|
                        0 <= k < i ==> !(wall_age(#[trigger] timed_view(champion_kills@)[k].0, now_ms)
                            < contest_secs * 1000 && timed_view(champion_kills@)[k].1 != p.team@),
                decreases champion_kills@.len() - i,
            {
                let ts = champion_kills[i].at_ms;
                let age: u64 = if ts <= now_ms { now_ms - ts } else { FUTURE_TIMESTAMP_AGE_MS };
                let other = !str_eq(champion_kills[i].name.as_str(), p.team.as_str());
                proof {
                    assert(timed_view(champion_kills@)[i as int] == (ts, champion_kills@[i as int].name@));
                }
                if (age as u128) < limit && other {
                    proof {
                        assert(timed_view(champion_kills@).len() == champion_kills@.len());
                        assert(wall_age(timed_view(champion_kills@)[i as int].0, now_ms) < contest_secs * 1000);
                        assert(timed_view(champion_kills@)[i as int].1 != p.team@);
                        assert(game_player(*game, player@) == Some(*p));
                        let w = i as int;
                        assert(0 <= w < timed_view(champion_kills@).len() && wall_age(
                            timed_view(champion_kills@)[w].0, now_ms) < contest_secs * 1000
                            && timed_view(champion_kills@)[w].1 != p.team@);
                    }
                    return true;
                }
                i = i + 1;
            }
            false
        },
    }
}

/// Whether the player's cached health is below a quarter of the maximum.
fn low_hp_exec(game: &Option<AllGameData>, player: &str) -> (r: bool)
    ensures
        r == player_low_hp(*game, player@),
{
    match game_player_exec(game, player) {
        Some(p) => {
            let cur = p.champion_stats.current_health as u128;
            let max = p.champion_stats.max_health as u128;
            max > 0 && 4 * cur < max
        },
        None => false,
    }
}

impl TriggerDetector {
    /// Records a champion kill with the killer's team, for steal detection.
    fn record_champion_kill(&mut self, event: &GameEvent, game: &Option<AllGameData>, now_ms: u64)
        requires
            old(self).wf(),
        ensures
            final(self).wf(),
            final(self).view() == (DetectorView {
                champion_kills: match (if event.killer_name is Some {
                    game_player(*game, event.killer_name->0@)
                } else {
                    None
                }) {
                    Some(kp) => keep_younger(
                        old(self).view().champion_kills.push((now_ms, kp.team@)),
                        now_ms,
                        old(self).retention_secs() * 1000,
                    ),
                    None => old(self).view().champion_kills,
                },
                ..old(self).view()
            }),
            final(self).contest_secs() == old(self).contest_secs(),
            final(self).retention_secs() == old(self).retention_secs(),
    {
        if let Some(killer) = &event.killer_name {
            if let Some(kp) = game_player_exec(game, killer.as_str()) {
                let entry = TimedName { at_ms: now_ms, name: kp.team.clone() };
                proof {
                    lemma_timed_view_push(self.champion_kills@, entry);
                }
                self.champion_kills.push(entry);
                let limit: u128 = (self.kill_retention_secs as u128) * 1000;
                let kept = retain_younger(&self.champion_kills, now_ms, limit);
                self.champion_kills = kept;
            }
        }
        assert(self.streak_entries@ == old(self).streak_entries@);
        assert(self.streaks@ == old(self).streaks@);
    }

    /// Records a kill made by the player, for 1vX and trade detection.
    fn record_player_kill(&mut self, event: &GameEvent)
        requires
            old(self).wf(),
        ensures
            final(self).wf(),
            final(self).view() == (DetectorView {
                solo_kills: keep_near(
                    push_if(
                        old(self).view().solo_kills,
                        is_solo_kill(*event) && event.victim_name is Some,
                        (event.event_time_ms, event.victim_name->0@),
                    ),
                    event.event_time_ms,
                    OUTPLAY_WINDOW_MS as int,
                ),
                dive_kills: keep_near(
                    push_if(
                        old(self).view().dive_kills,
                        event.victim_name is Some,
                        (event.event_time_ms, event.victim_name->0@),
                    ),
                    event.event_time_ms,
                    OUTPLAY_WINDOW_MS as int,
                ),
                ..old(self).view()
            }),
            final(self).contest_secs() == old(self).contest_secs(),
            final(self).retention_secs() == old(self).retention_secs(),
    {
        let t = event.event_time_ms;
        let solo = match &event.assisters {
            Some(a) => a.len() == 0,
            None => true,
        };
        if let Some(victim) = &event.victim_name {
            if solo {
                let entry = TimedName { at_ms: t, name: victim.clone() };
                proof {
                    lemma_timed_view_push(self.solo_kills@, entry);
                }
                self.solo_kills.push(entry);
            }
            let entry = TimedName { at_ms: t, name: victim.clone() };
            proof {
                lemma_timed_view_push(self.dive_kills@, entry);
            }
            self.dive_kills.push(entry);
        }
        let solo_kept = retain_near(&self.solo_kills, t, OUTPLAY_WINDOW_MS);
        self.solo_kills = solo_kept;
        let dive_kept = retain_near(&self.dive_kills, t, OUTPLAY_WINDOW_MS);
        self.dive_kills = dive_kept;
        assert(self.streak_entries@ == old(self).streak_entries@);
        assert(self.streaks@ == old(self).streaks@);
    }
}

/// Whether an event name is one of the objective kills.
fn is_objective_name(name: &str) -> (r: bool)
    ensures
        r == is_objective_event(name@),
{
    str_eq(name, "DragonKill") || str_eq(name, "BaronKill") || str_eq(name, "TurretKilled") || str_eq(
        name,
        "InhibKilled",
    ) || str_eq(name, "HeraldKill") || str_eq(name, "HordeKill") || str_eq(name, "AtakhanKill")
}

impl TriggerDetector {
    /// The ChampionKill transition.
    fn champion_kill(
        &mut self,
        event: &GameEvent,
        player: &str,
        game: &Option<AllGameData>,
        now_ms: u64,
    ) -> (r: Option<EventTrigger>)
        requires
            old(self).wf(),
        ensures
            final(self).wf(),
            (final(self).view(), r) == champion_kill_step(
                old(self).view(),
                *event,
                player@,
                *game,
                now_ms,
                old(self).retention_secs(),
            ),
            final(self).contest_secs() == old(self).contest_secs(),
            final(self).retention_secs() == old(self).retention_secs(),
    {
        let ghost v = self.view();
        if let Some(killer) = &event.killer_name {
            self.bump_streak(killer.as_str());
        }
        let mut had_streak = false;
        if let Some(victim) = &event.victim_name {
            let streak = self.take_streak(victim.as_str());
            had_streak = streak >= SHUTDOWN_STREAK;
        }
        self.record_champion_kill(event, game, now_ms);
        if opt_str_eq(&event.killer_name, player) {
            self.record_player_kill(event);
            if had_streak {
                return Some(EventTrigger::Shutdown);
            }
            let level = self.record_kill_and_count(player, now_ms);
            let outplayed = count_distinct_names(&self.solo_kills);
            if outplayed >= 2 {
                Some(EventTrigger::Outplay1vX(outplayed as u32))
            } else if level >= 2 {
                Some(EventTrigger::Multikill(level))
            } else if low_hp_exec(game, player) {
                Some(EventTrigger::LowHpOutplay)
            } else {
                Some(EventTrigger::ChampionKill)
            }
        } else if opt_str_eq(&event.victim_name, player) {
            if any_within(&self.dive_kills, event.event_time_ms, TRADE_WINDOW_MS) {
                Some(EventTrigger::TradeKill)
            } else {
                Some(EventTrigger::Death)
            }
        } else {
            match &event.assisters {
                Some(a) => {
                    if strings_contain(a, player) {
                        Some(EventTrigger::Assist)
                    } else {
                        None
                    }
                },
                None => None,
            }
        }
    }

    /// A kill of an objective (dragon, baron, turret, ...): the trigger it makes for the player.
    fn objective(&self, event: &GameEvent, player_name: &str, game: &Option<AllGameData>, now_ms: u64) -> (r:
        Option<EventTrigger>)
        requires
            is_objective_event(event.event_name@),
        ensures
            r == objective_step(self.view(), *event, player_name@, *game, now_ms, self.contest_secs()),
    {
        let name = event.event_name.as_str();
        if !opt_str_eq(&event.killer_name, player_name) {
            return None;
        }
        if str_eq(name, "DragonKill") {
            if contested_exec(&self.champion_kills, player_name, game, now_ms, self.contest_window_secs) {
                Some(EventTrigger::Steal)
            } else {
                let elder = match &event.dragon_type {
                    Some(t) => str_contains(t.as_str(), "Elder"),
                    None => false,
                };
                if elder {
                    Some(EventTrigger::ElderDragonKill)
                } else {
                    Some(EventTrigger::DragonKill)
                }
            }
        } else if str_eq(name, "BaronKill") {
            if contested_exec(&self.champion_kills, player_name, game, now_ms, self.contest_window_secs) {
                Some(EventTrigger::Steal)
            } else {
                Some(EventTrigger::BaronKill)
            }
        } else if str_eq(name, "TurretKilled") {
            Some(EventTrigger::TurretKill)
        } else if str_eq(name, "InhibKilled") {
            Some(EventTrigger::InhibitorKill)
        } else if str_eq(name, "HeraldKill") {
            Some(EventTrigger::HeraldKill)
        } else if str_eq(name, "HordeKill") {
            Some(EventTrigger::VoidgrubsKill)
        } else {
            Some(EventTrigger::AtakhanKill)
        }
    }

    /// Reads one event: updates the memory and returns the clip trigger it makes, if any.
    ///
    /// `player_name` is the local player's summoner name, `game` the latest cached
    /// full game data, and `now_ms` the wall-clock time at which the event is read.
    pub fn detect(
        &mut self,
        event: &GameEvent,
        player_name: &str,
        game: &Option<AllGameData>,
        now_ms: u64,
    ) -> (r: Option<EventTrigger>)
        requires
            old(self).wf(),
        ensures
            final(self).wf(),
            (final(self).view(), r) == detect_step(
                old(self).view(),
                *event,
                player_name@,
                *game,
                now_ms,
                old(self).contest_secs(),
                old(self).retention_secs(),
            ),
            final(self).contest_secs() == old(self).contest_secs(),
            final(self).retention_secs() == old(self).retention_secs(),
    {
        let name = event.event_name.as_str();
        if str_eq(name, "FirstBlood") {
            Some(EventTrigger::FirstBlood)
        } else if str_eq(name, "ChampionKill") {
            self.champion_kill(event, player_name, game, now_ms)
        } else if is_objective_name(name) {
            self.objective(event, player_name, game, now_ms)
        } else if str_eq(name, "Ace") {
            Some(EventTrigger::Ace)
        } else if str_eq(name, "GameEnd") {
            Some(EventTrigger::GameEnd)
        } else {
            None
        }
    }
}

/// What reading a batch of events leaves: the detector's memory, the last event id
/// read, the triggers fired with the index of their event, and whether the game ended.
pub open spec fn scan_events(
    v: DetectorView,
    last_id: u32,
    events: Seq<GameEvent>,
    player: Seq<char>,
    game: Option<AllGameData>,
    now: u64,
    contest_secs: u64,
    retention_secs: u64,
) -> (DetectorView, u32, Seq<(EventTrigger, int)>, bool)
    decreases events.len(),
{
    if events.len() == 0 {
        (v, last_id, Seq::empty(), false)
    } else {
        let before = scan_events(v, last_id, events.drop_last(), player, game, now, contest_secs, retention_secs);
        let e = events.last();
        if e.event_id <= before.1 {
            before
        } else {
            let (v1, t) = detect_step(before.0, e, player, game, now, contest_secs, retention_secs);
            match t {
                Some(tr) => (
                    v1,
                    e.event_id,
                    before.2.push((tr, events.len() - 1)),
                    before.3 || tr is GameEnd,
                ),
                None => (v1, e.event_id, before.2, before.3),
            }
        }
    }
}

/// The last event id to keep after a batch: once the game has ended nothing is read again.
pub open spec fn next_last_id(scan: (DetectorView, u32, Seq<(EventTrigger, int)>, bool)) -> u32 {
    if scan.3 {
        u32::MAX
    } else {
        scan.1
    }
}

/// The outcome of reading a batch of events.
pub struct EventBatch {
    /// The triggers fired, each with the index of its event in the batch.
    pub fired: Vec<(EventTrigger, usize)>,
    /// The id of the last event read (`u32::MAX` once the game has ended).
    pub last_event_id: u32,
    /// Whether a GameEnd event was read.
    pub game_ended: bool,
}

pub open spec fn fired_view(f: Seq<(EventTrigger, usize)>) -> Seq<(EventTrigger, int)> {
    f.map_values(|x: (EventTrigger, usize)| (x.0, x.1 as int))
}

impl TriggerDetector {
    /// Reads the events newer than `last_event_id`, in order, and reports the
    /// triggers they make.
    pub fn process_event_list(
        &mut self,
        events: &Vec<GameEvent>,
        last_event_id: u32,
        player_name: &str,
        game: &Option<AllGameData>,
        now_ms: u64,
    ) -> (r: EventBatch)
        requires
            old(self).wf(),
        ensures
            final(self).wf(),
            ({
                let scan = scan_events(
                    old(self).view(),
                    last_event_id,
                    events@,
                    player_name@,
                    *game,
                    now_ms,
                    old(self).contest_secs(),
                    old(self).retention_secs(),
                );
                &&& final(self).view() == scan.0
                &&& fired_view(r.fired@) == scan.2
                &&& r.game_ended == scan.3
                &&& r.last_event_id == next_last_id(scan)
            }),
            final(self).contest_secs() == old(self).contest_secs(),
            final(self).retention_secs() == old(self).retention_secs(),
    {
        let ghost v0 = self.view();
        let ghost cs = self.contest_secs();
        let ghost rs = self.retention_secs();
        let mut last = last_event_id;
        let mut fired: Vec<(EventTrigger, usize)> = Vec::new();
        let mut ended = false;
        let mut i: usize = 0;
        while i < events.len()
            invariant
                i <= events@.len(),
                self.wf(),
                self.contest_secs() == cs,
                self.retention_secs() == rs,
                (self.view(), last, fired_view(fired@), ended) == scan_events(
                    v0,
                    last_event_id,
                    events@.take(i as int),
                    player_name@,
                    *game,
                    now_ms,
                    cs,
                    rs,
                ),
            decreases events@.len() - i,
        {
            proof {
                assert(events@.take(i + 1).drop_last() =~= events@.take(i as int));
                assert(events@.take(i + 1).last() == events@[i as int]);
            }
            let e = &events[i];
            if e.event_id > last {
                let t = self.detect(e, player_name, game, now_ms);
                match t {
                    Some(tr) => {
                        proof {
                            assert(fired_view(fired@.push((tr, i))) =~= fired_view(fired@).push((tr, i as int)));
                        }
                        fired.push((tr, i));
                        if matches!(tr, EventTrigger::GameEnd) {
                            ended = true;
                        }
                    },
                    None => {},
                }
                last = e.event_id;
            }
            i = i + 1;
        }
        proof {
            assert(events@.take(events@.len() as int) =~= events@);
        }
        EventBatch { fired, last_event_id: if ended { u32::MAX } else { last }, game_ended: ended }
    }
}

// ---------------------------------------------------------------------------
// Laws of the detector
// ---------------------------------------------------------------------------

/// The Live Client event names told apart by length and first letter.
proof fn lemma_event_names()
    ensures
        "FirstBlood"@.len() == 10 && "FirstBlood"@[0] == 'F',
        "ChampionKill"@.len() == 12 && "ChampionKill"@[0] == 'C',
        "DragonKill"@.len() == 10 && "DragonKill"@[0] == 'D',
        "BaronKill"@.len() == 9 && "BaronKill"@[0] == 'B',
        "TurretKilled"@.len() == 12 && "TurretKilled"@[0] == 'T',
        "InhibKilled"@.len() == 11 && "InhibKilled"@[0] == 'I',
        "HeraldKill"@.len() == 10 && "HeraldKill"@[0] == 'H',
        "HordeKill"@.len() == 9 && "HordeKill"@[0] == 'H',
        "AtakhanKill"@.len() == 11 && "AtakhanKill"@[0] == 'A',
        "Ace"@.len() == 3 && "Ace"@[0] == 'A',
        "GameEnd"@.len() == 7 && "GameEnd"@[0] == 'G',
{
    reveal_strlit("FirstBlood");
    reveal_strlit("ChampionKill");
    reveal_strlit("DragonKill");
    reveal_strlit("BaronKill");
    reveal_strlit("TurretKilled");
    reveal_strlit("InhibKilled");
    reveal_strlit("HeraldKill");
    reveal_strlit("HordeKill");
    reveal_strlit("AtakhanKill");
    reveal_strlit("Ace");
    reveal_strlit("GameEnd");
}

/// Only champion kills change the detector's memory: every other event leaves it as it was.
pub proof fn only_champion_kills_change_memory(
    v: DetectorView,
    e: GameEvent,
    player: Seq<char>,
    game: Option<AllGameData>,
    now: u64,
    contest_secs: u64,
    retention_secs: u64,
)
    requires
        e.event_name@ != "ChampionKill"@,
    ensures
        detect_step(v, e, player, game, now, contest_secs, retention_secs).0 == v,
{
    lemma_event_names();
}

/// First blood, an ace and the end of the game always make a clip, whoever is involved.
pub proof fn game_wide_events_always_trigger(
    v: DetectorView,
    e: GameEvent,
    player: Seq<char>,
    game: Option<AllGameData>,
    now: u64,
    contest_secs: u64,
    retention_secs: u64,
)
    requires
        e.event_name@ == "FirstBlood"@ || e.event_name@ == "Ace"@ || e.event_name@ == "GameEnd"@,
    ensures
        detect_step(v, e, player, game, now, contest_secs, retention_secs).1 is Some,
{
    lemma_event_names();
}

/// An objective taken by someone other than the player makes no clip.
pub proof fn objectives_of_others_make_no_clip(
    v: DetectorView,
    e: GameEvent,
    player: Seq<char>,
    game: Option<AllGameData>,
    now: u64,
    contest_secs: u64,
    retention_secs: u64,
)
    requires
        is_objective_event(e.event_name@),
        !names(e.killer_name, player),
    ensures
        detect_step(v, e, player, game, now, contest_secs, retention_secs) == (v, None::<EventTrigger>),
{
    lemma_event_names();
}

/// A champion kill adds one to the killer's streak (unless the killer is also the
/// victim), and ends the victim's streak.
pub proof fn a_kill_extends_the_killers_streak_and_ends_the_victims(
    v: DetectorView,
    e: GameEvent,
    player: Seq<char>,
    game: Option<AllGameData>,
    now: u64,
    contest_secs: u64,
    retention_secs: u64,
)
    requires
        e.event_name@ == "ChampionKill"@,
        e.killer_name is Some,
        e.victim_name is Some,
        e.killer_name->0@ != e.victim_name->0@,
        streak_of(v.streaks, e.killer_name->0@) < u32::MAX,
    ensures
        streak_of(detect_step(v, e, player, game, now, contest_secs, retention_secs).0.streaks, e.killer_name->0@)
            == streak_of(v.streaks, e.killer_name->0@) + 1,
        !detect_step(v, e, player, game, now, contest_secs, retention_secs).0.streaks.contains_key(
            e.victim_name->0@,
        ),
{
    lemma_event_names();
}

/// When the player kills a champion on a streak of three or more, the clip is a shutdown.
pub proof fn killing_a_streaking_champion_is_a_shutdown(
    v: DetectorView,
    e: GameEvent,
    player: Seq<char>,
    game: Option<AllGameData>,
    now: u64,
    contest_secs: u64,
    retention_secs: u64,
)
    requires
        e.event_name@ == "ChampionKill"@,
        names(e.killer_name, player),
        e.victim_name is Some,
        e.victim_name->0@ != player,
        streak_of(v.streaks, e.victim_name->0@) >= SHUTDOWN_STREAK,
    ensures
        detect_step(v, e, player, game, now, contest_secs, retention_secs).1 == Some(EventTrigger::Shutdown),
{
    lemma_event_names();
}

/// The player's death is a trade exactly when the player made a kill less than
/// five seconds of game time before it.
pub proof fn a_death_is_a_trade_only_after_a_recent_kill(
    v: DetectorView,
    e: GameEvent,
    player: Seq<char>,
    game: Option<AllGameData>,
    now: u64,
    contest_secs: u64,
    retention_secs: u64,
)
    requires
        e.event_name@ == "ChampionKill"@,
        !names(e.killer_name, player),
        names(e.victim_name, player),
    ensures
        detect_step(v, e, player, game, now, contest_secs, retention_secs).1 == Some(EventTrigger::TradeKill)
            <==> exists|i: int|
            0 <= i < v.dive_kills.len() && time_gap(e.event_time_ms, #[trigger] v.dive_kills[i].0)
                < TRADE_WINDOW_MS,
        detect_step(v, e, player, game, now, contest_secs, retention_secs).1 == Some(EventTrigger::TradeKill)
            || detect_step(v, e, player, game, now, contest_secs, retention_secs).1 == Some(
            EventTrigger::Death,
        ),
{
    lemma_event_names();
}

/// Events whose ids are all at most `last_id` are all skipped.
proof fn lemma_scan_skips_old(
    v: DetectorView,
    last_id: u32,
    events: Seq<GameEvent>,
    player: Seq<char>,
    game: Option<AllGameData>,
    now: u64,
    contest_secs: u64,
    retention_secs: u64,
)
    requires
        forall|i: int| 0 <= i < events.len() ==> #[trigger] events[i].event_id <= last_id,
    ensures
        scan_events(v, last_id, events, player, game, now, contest_secs, retention_secs) == (
            v,
            last_id,
            Seq::<(EventTrigger, int)>::empty(),
            false,
        ),
    decreases events.len(),
{
    if events.len() > 0 {
        lemma_scan_skips_old(v, last_id, events.drop_last(), player, game, now, contest_secs, retention_secs);
        assert(events.last().event_id <= last_id);
    }
}

/// After a batch whose ids increase, the last id read is at least every id of the batch.
proof fn lemma_scan_passes_every_id(
    v: DetectorView,
    last_id: u32,
    events: Seq<GameEvent>,
    player: Seq<char>,
    game: Option<AllGameData>,
    now: u64,
    contest_secs: u64,
    retention_secs: u64,
)
    requires
        forall|i: int, j: int| 0 <= i < j < events.len() ==> #[trigger] events[i].event_id < #[trigger] events[j].event_id,
    ensures
        forall|i: int|
            0 <= i < events.len() ==> #[trigger] events[i].event_id <= scan_events(
                v,
                last_id,
                events,
                player,
                game,
                now,
                contest_secs,
                retention_secs,
            ).1,
    decreases events.len(),
{
    if events.len() > 0 {
        let pre = events.drop_last();
        lemma_scan_passes_every_id(v, last_id, pre, player, game, now, contest_secs, retention_secs);
        assert forall|i: int| 0 <= i < events.len() implies #[trigger] events[i].event_id <= scan_events(
            v,
            last_id,
            events,
            player,
            game,
            now,
            contest_secs,
            retention_secs,
        ).1 by {
            if i < events.len() - 1 {
                assert(pre[i] == events[i]);
                assert(events[i].event_id < events[events.len() - 1].event_id);
            }
        }
    }
}

/// Once a GameEnd has been read, a batch read again fires nothing and changes nothing.
pub proof fn nothing_is_read_after_the_game_ends(
    v: DetectorView,
    events: Seq<GameEvent>,
    player: Seq<char>,
    game: Option<AllGameData>,
    now: u64,
    contest_secs: u64,
    retention_secs: u64,
)
    ensures
        scan_events(v, u32::MAX, events, player, game, now, contest_secs, retention_secs) == (
            v,
            u32::MAX,
            Seq::<(EventTrigger, int)>::empty(),
            false,
        ),
{
    lemma_scan_skips_old(v, u32::MAX, events, player, game, now, contest_secs, retention_secs);
}

/// No event is read twice: when the event ids of a batch increase, reading the same
/// batch again from the last id returned fires nothing and leaves the memory as it is.
pub proof fn no_event_is_read_twice(
    v: DetectorView,
    last_id: u32,
    events: Seq<GameEvent>,
    player: Seq<char>,
    game: Option<AllGameData>,
    now: u64,
    contest_secs: u64,
    retention_secs: u64,
)
    requires
        forall|i: int, j: int| 0 <= i < j < events.len() ==> #[trigger] events[i].event_id < #[trigger] events[j].event_id,
    ensures
        ({
            let first = scan_events(v, last_id, events, player, game, now, contest_secs, retention_secs);
            let again = scan_events(first.0, next_last_id(first), events, player, game, now, contest_secs, retention_secs);
            again.0 == first.0 && again.2.len() == 0
        }),
{
    let first = scan_events(v, last_id, events, player, game, now, contest_secs, retention_secs);
    lemma_scan_passes_every_id(v, last_id, events, player, game, now, contest_secs, retention_secs);
    assert forall|i: int| 0 <= i < events.len() implies #[trigger] events[i].event_id <= next_last_id(first) by {
    }
    lemma_scan_skips_old(first.0, next_last_id(first), events, player, game, now, contest_secs, retention_secs);
}


/// A kill by the player that is neither a shutdown nor a 1vX is a multikill exactly
/// when the player has made other kills in the last ten seconds: its level is the
/// number of the player's kills in that window, this one included, up to five (a
/// pentakill); a lone kill is no multikill.
pub proof fn a_multikill_counts_the_players_recent_kills(
    v: DetectorView,
    e: GameEvent,
    player: Seq<char>,
    game: Option<AllGameData>,
    now: u64,
    contest_secs: u64,
    retention_secs: u64,
)
    requires
        e.event_name@ == "ChampionKill"@,
        names(e.killer_name, player),
        !(e.victim_name is Some && streak_of(bump(v.streaks, player), e.victim_name->0@) >= SHUTDOWN_STREAK),
        distinct_names(
            keep_near(
                push_if(v.solo_kills, is_solo_kill(e) && e.victim_name is Some, (e.event_time_ms, e.victim_name->0@)),
                e.event_time_ms,
                OUTPLAY_WINDOW_MS as int,
            ),
        ) < 2,
    ensures
        ({
            let kills = count_named(keep_younger(v.recent_kills.push((now, player)), now, MULTIKILL_WINDOW_MS as int), player);
            let trigger = detect_step(v, e, player, game, now, contest_secs, retention_secs).1;
            &&& 2 <= kills < 5 ==> trigger == Some(EventTrigger::Multikill(kills as u8))
            &&& 5 <= kills < 256 ==> trigger == Some(EventTrigger::Multikill(5))
            &&& kills < 2 ==> (trigger == Some(EventTrigger::ChampionKill) || trigger == Some(EventTrigger::LowHpOutplay))
        }),
{
    reveal_strlit("ChampionKill");
    reveal_strlit("FirstBlood");
    assert("ChampionKill"@.len() != "FirstBlood"@.len());
}

/// Three kills by the player within ten seconds, none of them alone and none of a
/// streaking champion, starting with no recent kills: the third is a triple kill.
pub proof fn three_quick_kills_are_a_triple_kill(
    v: DetectorView,
    e1: GameEvent,
    e2: GameEvent,
    e3: GameEvent,
    player: Seq<char>,
    game: Option<AllGameData>,
    now: u64,
    d2: u64,
    d3: u64,
    contest_secs: u64,
    retention_secs: u64,
)
    requires
        v.recent_kills.len() == 0,
        v.solo_kills.len() == 0,
        now <= d2 <= d3,
        d3 - now < MULTIKILL_WINDOW_MS,
        e1.event_name@ == "ChampionKill"@ && e2.event_name@ == "ChampionKill"@ && e3.event_name@ == "ChampionKill"@,
        names(e1.killer_name, player) && names(e2.killer_name, player) && names(e3.killer_name, player),
        !is_solo_kill(e1) && !is_solo_kill(e2) && !is_solo_kill(e3),
        e1.victim_name is None || streak_of(bump(v.streaks, player), e1.victim_name->0@) < SHUTDOWN_STREAK,
        ({
            let v1 = detect_step(v, e1, player, game, now, contest_secs, retention_secs).0;
            e2.victim_name is None || streak_of(bump(v1.streaks, player), e2.victim_name->0@) < SHUTDOWN_STREAK
        }),
        ({
            let v1 = detect_step(v, e1, player, game, now, contest_secs, retention_secs).0;
            let v2 = detect_step(v1, e2, player, game, d2, contest_secs, retention_secs).0;
            e3.victim_name is None || streak_of(bump(v2.streaks, player), e3.victim_name->0@) < SHUTDOWN_STREAK
        }),
    ensures
        ({
            let v1 = detect_step(v, e1, player, game, now, contest_secs, retention_secs).0;
            let v2 = detect_step(v1, e2, player, game, d2, contest_secs, retention_secs).0;
            detect_step(v2, e3, player, game, d3, contest_secs, retention_secs).1 == Some(EventTrigger::Multikill(3))
        }),
{
    reveal_strlit("ChampionKill");
    reveal_strlit("FirstBlood");
    assert("ChampionKill"@.len() != "FirstBlood"@.len());
    let v1 = detect_step(v, e1, player, game, now, contest_secs, retention_secs).0;
    let v2 = detect_step(v1, e2, player, game, d2, contest_secs, retention_secs).0;
    let r1 = seq![(now, player)];
    assert(v.recent_kills.push((now, player)) =~= r1);
    assert(keep_younger(r1, now, MULTIKILL_WINDOW_MS as int) =~= r1) by {
        assert(r1.drop_last() =~= Seq::<(u64, Seq<char>)>::empty());
        assert(keep_younger(r1.drop_last(), now, MULTIKILL_WINDOW_MS as int) =~= Seq::<(u64, Seq<char>)>::empty());
        assert(Seq::<(u64, Seq<char>)>::empty().push(r1.last()) =~= r1);
    }
    assert(v1.solo_kills =~= Seq::<(u64, Seq<char>)>::empty());
    assert(v1.recent_kills == r1);
    let r2 = seq![(now, player), (d2, player)];
    assert(r1.push((d2, player)) =~= r2);
    assert(keep_younger(r2, d2, MULTIKILL_WINDOW_MS as int) =~= r2) by {
        assert(r2.drop_last() =~= r1);
        assert(r1.drop_last() =~= Seq::<(u64, Seq<char>)>::empty());
        assert(keep_younger(r1.drop_last(), d2, MULTIKILL_WINDOW_MS as int) =~= Seq::<(u64, Seq<char>)>::empty());
        assert(keep_younger(r1, d2, MULTIKILL_WINDOW_MS as int) =~= r1);
        assert(r1.push(r2.last()) =~= r2);
    }
    assert(v2.solo_kills =~= Seq::<(u64, Seq<char>)>::empty());
    assert(v2.recent_kills == r2);
    let r3 = seq![(now, player), (d2, player), (d3, player)];
    assert(r2.push((d3, player)) =~= r3);
    assert(keep_younger(r3, d3, MULTIKILL_WINDOW_MS as int) =~= r3) by {
        assert(r3.drop_last() =~= r2);
        assert(r2.drop_last() =~= r1);
        assert(r1.drop_last() =~= Seq::<(u64, Seq<char>)>::empty());
        assert(keep_younger(r1.drop_last(), d3, MULTIKILL_WINDOW_MS as int) =~= Seq::<(u64, Seq<char>)>::empty());
        assert(keep_younger(r1, d3, MULTIKILL_WINDOW_MS as int) =~= r1);
        assert(keep_younger(r2, d3, MULTIKILL_WINDOW_MS as int) =~= r2);
        assert(r2.push(r3.last()) =~= r3);
    }
    assert(count_named(r3, player) == 3) by {
        assert(r3.drop_last() =~= r2);
        assert(r2.drop_last() =~= r1);
        assert(r1.drop_last() =~= Seq::<(u64, Seq<char>)>::empty());
        assert(count_named(r1.drop_last(), player) == 0);
        assert(count_named(r1, player) == 1);
        assert(count_named(r2, player) == 2);
    }
    assert(keep_near(Seq::<(u64, Seq<char>)>::empty(), e3.event_time_ms, OUTPLAY_WINDOW_MS as int) =~= Seq::<
        (u64, Seq<char>),
    >::empty());
}

} // verus!
