//! What becomes a clip, under which name, and how long it is.
//!
//! The user's settings filter triggers (per situation, per game mode, by
//! priority); a situation whose own toggle is off falls back to its parent.
//! Events that arrive close together are merged into one window whose primary
//! event names the clip.
use std::collections::VecDeque;

use vstd::prelude::*;

use crate::highlight::{base_points, HighlightKind};
use crate::live_events::{trigger_parent, trigger_priority, EventTrigger, GameEvent};
use crate::text::{contains_seq, str_eq};

verus! {

/// Upper bound on fallback steps when resolving a trigger.
pub const MAX_DEMOTION_STEPS: usize = 8;
/// Queue id of ranked solo/duo.
pub const QUEUE_RANKED_SOLO: u32 = 420;
/// Queue id of ranked flex.
pub const QUEUE_RANKED_FLEX: u32 = 440;
/// Queue id of normal draft.
pub const QUEUE_NORMAL_DRAFT: u32 = 400;
/// Queue id of normal blind.
pub const QUEUE_NORMAL_BLIND: u32 = 430;
/// Queue id of quick play.
pub const QUEUE_QUICK_PLAY: u32 = 490;

/// Which situations the user records.
#[derive(Clone, Copy, Debug)]
pub struct EventFilterSettings {
    pub record_kills: bool,
    pub record_deaths: bool,
    pub record_assists: bool,
    pub record_first_blood: bool,
    pub record_first_blood_victim: bool,
    pub record_multikills: bool,
    pub record_dragon: bool,
    pub record_baron: bool,
    pub record_herald: bool,
    pub record_turret: bool,
    pub record_inhibitor: bool,
    pub record_ace: bool,
    pub record_steal: bool,
    pub record_game_end: bool,
    pub record_elder: bool,
    pub record_voidgrubs: bool,
    pub record_atakhan: bool,
    pub record_shutdown: bool,
    pub record_outplay: bool,
    pub record_trade_kill: bool,
    pub record_low_hp: bool,
    /// Lowest priority that is recorded.
    pub min_priority: u8,
    /// Games shorter than this (seconds) get no end-of-game clip.
    pub min_game_duration_secs: u32,
}

/// Which game modes the user records.
#[derive(Clone, Copy, Debug)]
pub struct GameModeSettings {
    pub record_ranked_solo: bool,
    pub record_ranked_flex: bool,
    pub record_normal: bool,
    pub record_quick_play: bool,
    pub record_aram: bool,
    pub record_special: bool,
}

/// The toggle of one trigger.
pub open spec fn trigger_enabled_spec(t: EventTrigger, f: EventFilterSettings) -> bool {
    match t {
        EventTrigger::ChampionKill => f.record_kills,
        EventTrigger::Death => f.record_deaths,
        EventTrigger::Assist => f.record_assists,
        EventTrigger::FirstBlood => f.record_first_blood,
        EventTrigger::FirstBloodVictim => f.record_first_blood_victim,
        EventTrigger::Multikill(_) => f.record_multikills,
        EventTrigger::DragonKill => f.record_dragon,
        EventTrigger::BaronKill => f.record_baron,
        EventTrigger::HeraldKill => f.record_herald,
        EventTrigger::TurretKill => f.record_turret,
        EventTrigger::InhibitorKill => f.record_inhibitor,
        EventTrigger::Ace => f.record_ace,
        EventTrigger::Steal => f.record_steal,
        EventTrigger::GameEnd => f.record_game_end,
        EventTrigger::ElderDragonKill => f.record_elder,
        EventTrigger::VoidgrubsKill => f.record_voidgrubs,
        EventTrigger::AtakhanKill => f.record_atakhan,
        EventTrigger::Shutdown => f.record_shutdown,
        EventTrigger::Outplay1vX(_) => f.record_outplay,
        EventTrigger::TradeKill => f.record_trade_kill,
        EventTrigger::LowHpOutplay => f.record_low_hp,
    }
}

/// Whether the user records this trigger.
pub fn trigger_enabled(trigger: &EventTrigger, filter: &EventFilterSettings) -> (r: bool)
    ensures
        r == trigger_enabled_spec(*trigger, *filter),
{
    match trigger {
        EventTrigger::ChampionKill => filter.record_kills,
        EventTrigger::Death => filter.record_deaths,
        EventTrigger::Assist => filter.record_assists,
        EventTrigger::FirstBlood => filter.record_first_blood,
        EventTrigger::FirstBloodVictim => filter.record_first_blood_victim,
        EventTrigger::Multikill(_) => filter.record_multikills,
        EventTrigger::DragonKill => filter.record_dragon,
        EventTrigger::BaronKill => filter.record_baron,
        EventTrigger::HeraldKill => filter.record_herald,
        EventTrigger::TurretKill => filter.record_turret,
        EventTrigger::InhibitorKill => filter.record_inhibitor,
        EventTrigger::Ace => filter.record_ace,
        EventTrigger::Steal => filter.record_steal,
        EventTrigger::GameEnd => filter.record_game_end,
        EventTrigger::ElderDragonKill => filter.record_elder,
        EventTrigger::VoidgrubsKill => filter.record_voidgrubs,
        EventTrigger::AtakhanKill => filter.record_atakhan,
        EventTrigger::Shutdown => filter.record_shutdown,
        EventTrigger::Outplay1vX(_) => filter.record_outplay,
        EventTrigger::TradeKill => filter.record_trade_kill,
        EventTrigger::LowHpOutplay => filter.record_low_hp,
    }
}

/// Whether the user records games of this mode and queue (an unknown mode is recorded).
pub open spec fn mode_allowed(game_mode: Seq<char>, queue_id: Option<u32>, m: GameModeSettings) -> bool {
    if game_mode.len() == 0 {
        true
    } else if game_mode == "CLASSIC"@ {
        match queue_id {
            Some(q) => if q == QUEUE_RANKED_SOLO {
                m.record_ranked_solo
            } else if q == QUEUE_RANKED_FLEX {
                m.record_ranked_flex
            } else if q == QUEUE_NORMAL_BLIND || q == QUEUE_NORMAL_DRAFT {
                m.record_normal
            } else if q == QUEUE_QUICK_PLAY {
                m.record_quick_play
            } else {
                true
            },
            None => true,
        }
    } else if game_mode == "ARAM"@ {
        m.record_aram
    } else if game_mode == "URF"@ || game_mode == "ARURF"@ {
        m.record_special
    } else {
        true
    }
}

/// Whether games of this mode and queue are recorded.
pub fn game_mode_allowed(game_mode: &str, queue_id: Option<u32>, modes: &GameModeSettings) -> (r: bool)
    ensures
        r == mode_allowed(game_mode@, queue_id, *modes),
{
    if game_mode.is_empty() {
        true
    } else if str_eq(game_mode, "CLASSIC") {
        match queue_id {
            Some(q) => if q == QUEUE_RANKED_SOLO {
                modes.record_ranked_solo
            } else if q == QUEUE_RANKED_FLEX {
                modes.record_ranked_flex
            } else if q == QUEUE_NORMAL_BLIND || q == QUEUE_NORMAL_DRAFT {
                modes.record_normal
            } else if q == QUEUE_QUICK_PLAY {
                modes.record_quick_play
            } else {
                true
            },
            None => true,
        }
    } else if str_eq(game_mode, "ARAM") {
        modes.record_aram
    } else if str_eq(game_mode, "URF") || str_eq(game_mode, "ARURF") {
        modes.record_special
    } else {
        true
    }
}

/// Walks down the fallback chain until a trigger passes the filter (at most `steps` tries).
pub open spec fn demote(t: EventTrigger, e: GameEvent, f: EventFilterSettings, steps: nat) -> Option<EventTrigger>
    decreases steps,
{
    if steps == 0 {
        None
    } else if trigger_priority(t) >= f.min_priority && trigger_enabled_spec(t, f) {
        Some(t)
    } else {
        match trigger_parent(t, e) {
            Some(p) => demote(p, e, f, (steps - 1) as nat),
            None => None,
        }
    }
}

/// Whole seconds of game time of an event (saturating at `u32::MAX`).
pub open spec fn event_secs(e: GameEvent) -> u32 {
    if e.event_time_ms / 1000 > u32::MAX as int {
        u32::MAX
    } else {
        (e.event_time_ms / 1000) as u32
    }
}

/// The name under which an event is recorded, if it is recorded at all.
pub open spec fn recordable_trigger(
    t: EventTrigger,
    e: GameEvent,
    filter: EventFilterSettings,
    modes: GameModeSettings,
    game_mode: Seq<char>,
    queue_id: Option<u32>,
) -> Option<EventTrigger> {
    if t is GameEnd && event_secs(e) < filter.min_game_duration_secs {
        None
    } else if !mode_allowed(game_mode, queue_id, modes) {
        None
    } else {
        demote(t, e, filter, MAX_DEMOTION_STEPS as nat)
    }
}

fn event_secs_exec(e: &GameEvent) -> (s: u32)
    ensures
        s == event_secs(*e),
{
    let secs = e.event_time_ms / 1000;
    if secs > u32::MAX as u64 {
        u32::MAX
    } else {
        secs as u32
    }
}

/// Decides whether an event is recorded, and under which name: a situation whose
/// own toggle is off falls back to its parent, step by step.
pub fn resolve_recordable_trigger(
    trigger: &EventTrigger,
    event: &GameEvent,
    filter: &EventFilterSettings,
    modes: &GameModeSettings,
    game_mode: &str,
    queue_id: Option<u32>,
) -> (r: Option<EventTrigger>)
    ensures
        r == recordable_trigger(*trigger, *event, *filter, *modes, game_mode@, queue_id),
{
    if matches!(trigger, EventTrigger::GameEnd) && event_secs_exec(event) < filter.min_game_duration_secs {
        return None;
    }
    if !game_mode_allowed(game_mode, queue_id, modes) {
        return None;
    }
    let mut candidate = *trigger;
    let mut step: usize = 0;
    while step < MAX_DEMOTION_STEPS
        invariant
            step <= MAX_DEMOTION_STEPS,
            recordable_trigger(*trigger, *event, *filter, *modes, game_mode@, queue_id) == demote(
                *trigger,
                *event,
                *filter,
                MAX_DEMOTION_STEPS as nat,
            ),
            demote(*trigger, *event, *filter, MAX_DEMOTION_STEPS as nat) == demote(
                candidate,
                *event,
                *filter,
                (MAX_DEMOTION_STEPS - step) as nat,
            ),
        decreases MAX_DEMOTION_STEPS - step,
    {
        let passes_priority = candidate.priority() >= filter.min_priority;
        let enabled = trigger_enabled(&candidate, filter);
        if passes_priority && enabled {
            return Some(candidate);
        }
        match candidate.parent(event) {
            Some(p) => {
                candidate = p;
            },
            None => {
                return None;
            },
        }
        step = step + 1;
    }
    None
}

/// Whether the game-end event reports a win.
pub open spec fn reports_win(e: GameEvent) -> bool {
    e.result is Some && crate::text::eq_ignore_ascii_case_spec(e.result->0@, "Win"@)
}

/// The scoring kind of a recorded trigger.
pub open spec fn highlight_kind_of(t: EventTrigger, e: GameEvent) -> HighlightKind {
    match t {
        EventTrigger::ChampionKill => HighlightKind::Kill,
        EventTrigger::LowHpOutplay => HighlightKind::Kill,
        EventTrigger::Death => HighlightKind::Death,
        EventTrigger::FirstBloodVictim => HighlightKind::FirstBloodVictim,
        EventTrigger::Assist => HighlightKind::Assist,
        EventTrigger::FirstBlood => HighlightKind::FirstBlood,
        EventTrigger::Multikill(n) => if n == 2 {
            HighlightKind::Doublekill
        } else if n == 3 {
            HighlightKind::Triplekill
        } else if n == 4 {
            HighlightKind::Quadrakill
        } else if n >= 5 {
            HighlightKind::Pentakill
        } else {
            HighlightKind::Kill
        },
        EventTrigger::Outplay1vX(n) => HighlightKind::Outplay(if n > 255 { 255u8 } else { n as u8 }),
        EventTrigger::DragonKill => HighlightKind::Dragon,
        EventTrigger::BaronKill => HighlightKind::Baron,
        EventTrigger::HeraldKill => HighlightKind::Herald,
        EventTrigger::TurretKill => HighlightKind::Turret,
        EventTrigger::InhibitorKill => HighlightKind::Inhibitor,
        EventTrigger::Ace => HighlightKind::Ace,
        EventTrigger::Steal => HighlightKind::ObjectiveSteal,
        EventTrigger::ElderDragonKill => HighlightKind::ElderDragon,
        EventTrigger::VoidgrubsKill => HighlightKind::Voidgrubs,
        EventTrigger::AtakhanKill => HighlightKind::Atakhan,
        EventTrigger::Shutdown => HighlightKind::Shutdown,
        EventTrigger::TradeKill => HighlightKind::TradeKill,
        EventTrigger::GameEnd => HighlightKind::GameEnd { won: reports_win(e) },
    }
}

/// The scoring kind of a recorded trigger: low health is scored as a factor, not as a kind,
/// and a game end is worth more when it was won.
pub fn trigger_to_highlight_kind(trigger: &EventTrigger, event: &GameEvent) -> (k: HighlightKind)
    ensures
        k == highlight_kind_of(*trigger, *event),
{
    match trigger {
        EventTrigger::ChampionKill => HighlightKind::Kill,
        EventTrigger::LowHpOutplay => HighlightKind::Kill,
        EventTrigger::Death => HighlightKind::Death,
        EventTrigger::FirstBloodVictim => HighlightKind::FirstBloodVictim,
        EventTrigger::Assist => HighlightKind::Assist,
        EventTrigger::FirstBlood => HighlightKind::FirstBlood,
        EventTrigger::Multikill(n) => if *n == 2 {
            HighlightKind::Doublekill
        } else if *n == 3 {
            HighlightKind::Triplekill
        } else if *n == 4 {
            HighlightKind::Quadrakill
        } else if *n >= 5 {
            HighlightKind::Pentakill
        } else {
            HighlightKind::Kill
        },
        EventTrigger::Outplay1vX(n) => HighlightKind::Outplay(if *n > 255 { 255u8 } else { *n as u8 }),
        EventTrigger::DragonKill => HighlightKind::Dragon,
        EventTrigger::BaronKill => HighlightKind::Baron,
        EventTrigger::HeraldKill => HighlightKind::Herald,
        EventTrigger::TurretKill => HighlightKind::Turret,
        EventTrigger::InhibitorKill => HighlightKind::Inhibitor,
        EventTrigger::Ace => HighlightKind::Ace,
        EventTrigger::Steal => HighlightKind::ObjectiveSteal,
        EventTrigger::ElderDragonKill => HighlightKind::ElderDragon,
        EventTrigger::VoidgrubsKill => HighlightKind::Voidgrubs,
        EventTrigger::AtakhanKill => HighlightKind::Atakhan,
        EventTrigger::Shutdown => HighlightKind::Shutdown,
        EventTrigger::TradeKill => HighlightKind::TradeKill,
        EventTrigger::GameEnd => {
            let won = match &event.result {
                Some(r) => crate::text::eq_ignore_ascii_case(r.as_str(), "Win"),
                None => false,
            };
            HighlightKind::GameEnd { won }
        },
    }
}

/// Stored type of a clip's event.
#[derive(Clone, Debug)]
pub enum EventType {
    ChampionKill,
    FirstBlood,
    Multikill(u8),
    DragonKill,
    BaronKill,
    TurretKill,
    InhibitorKill,
    Ace,
    /// Any other situation, by name.
    Custom(String),
}

/// The stored label of triggers without an event type of their own.
pub open spec fn custom_label(t: EventTrigger) -> Seq<char> {
    match t {
        EventTrigger::Death => "Death"@,
        EventTrigger::Assist => "Assist"@,
        EventTrigger::FirstBloodVictim => "FirstBloodVictim"@,
        EventTrigger::HeraldKill => "HeraldKill"@,
        EventTrigger::Steal => "Steal"@,
        EventTrigger::GameEnd => "GameEnd"@,
        EventTrigger::ElderDragonKill => "ElderDragonKill"@,
        EventTrigger::VoidgrubsKill => "VoidgrubsKill"@,
        EventTrigger::AtakhanKill => "AtakhanKill"@,
        EventTrigger::Shutdown => "Shutdown"@,
        EventTrigger::Outplay1vX(n) => "Outplay1v"@ + crate::text::decimal(n as nat),
        EventTrigger::TradeKill => "TradeKill"@,
        EventTrigger::LowHpOutplay => "LowHpOutplay"@,
        _ => Seq::empty(),
    }
}

/// The stored event type of a trigger.
pub open spec fn event_type_matches(r: EventType, t: EventTrigger) -> bool {
    match t {
        EventTrigger::ChampionKill => r is ChampionKill,
        EventTrigger::FirstBlood => r is FirstBlood,
        EventTrigger::Multikill(n) => r == EventType::Multikill(n),
        EventTrigger::DragonKill => r is DragonKill,
        EventTrigger::BaronKill => r is BaronKill,
        EventTrigger::TurretKill => r is TurretKill,
        EventTrigger::InhibitorKill => r is InhibitorKill,
        EventTrigger::Ace => r is Ace,
        _ => r matches EventType::Custom(s) && s@ == custom_label(t),
    }
}

fn custom(label: &str) -> (r: EventType)
    ensures
        r matches EventType::Custom(s) && s@ == label@,
{
    EventType::Custom(crate::text::string_of(label))
}

/// The stored event type of a trigger; every trigger keeps its own name.
pub fn trigger_to_event_type(trigger: &EventTrigger) -> (r: EventType)
    ensures
        event_type_matches(r, *trigger),
{
    match trigger {
        EventTrigger::ChampionKill => EventType::ChampionKill,
        EventTrigger::Death => custom("Death"),
        EventTrigger::Assist => custom("Assist"),
        EventTrigger::FirstBlood => EventType::FirstBlood,
        EventTrigger::FirstBloodVictim => custom("FirstBloodVictim"),
        EventTrigger::Multikill(n) => EventType::Multikill(*n),
        EventTrigger::DragonKill => EventType::DragonKill,
        EventTrigger::BaronKill => EventType::BaronKill,
        EventTrigger::HeraldKill => custom("HeraldKill"),
        EventTrigger::TurretKill => EventType::TurretKill,
        EventTrigger::InhibitorKill => EventType::InhibitorKill,
        EventTrigger::Ace => EventType::Ace,
        EventTrigger::Steal => custom("Steal"),
        EventTrigger::GameEnd => custom("GameEnd"),
        EventTrigger::ElderDragonKill => custom("ElderDragonKill"),
        EventTrigger::VoidgrubsKill => custom("VoidgrubsKill"),
        EventTrigger::AtakhanKill => custom("AtakhanKill"),
        EventTrigger::Shutdown => custom("Shutdown"),
        EventTrigger::Outplay1vX(n) => {
            let mut s = crate::text::string_of("Outplay1v");
            crate::text::push_decimal(&mut s, *n as u64);
            EventType::Custom(s)
        },
        EventTrigger::TradeKill => custom("TradeKill"),
        EventTrigger::LowHpOutplay => custom("LowHpOutplay"),
    }
}

/// An event waiting in the merge queue.
pub struct QueuedEvent {
    pub trigger: EventTrigger,
    pub event: GameEvent,
    /// When it was queued (ms on a monotonic clock).
    pub received_ms: u64,
    /// When it was detected (ms since the UNIX epoch); clips are anchored to this.
    pub received_wall_ms: u64,
}

/// How a queued event ranks for naming a merged window: priority first, then the
/// base highlight score.
pub open spec fn rank_of(t: EventTrigger, e: GameEvent) -> (u8, u64) {
    (trigger_priority(t), (base_points(highlight_kind_of(t, e)) * crate::highlight::SCORE_POINT) as u64)
}

pub open spec fn outranks(a: (u8, u64), b: (u8, u64)) -> bool {
    a.0 > b.0 || (a.0 == b.0 && a.1 > b.1)
}

pub open spec fn queued_rank(q: QueuedEvent) -> (u8, u64) {
    rank_of(q.trigger, q.event)
}

/// `i` names the window: it outranks every earlier event and no later event outranks it.
pub open spec fn is_primary(q: Seq<QueuedEvent>, i: int) -> bool {
    &&& 0 <= i < q.len()
    &&& forall|j: int| 0 <= j < i ==> outranks(queued_rank(q[i]), #[trigger] queued_rank(q[j]))
    &&& forall|j: int| i < j < q.len() ==> !outranks(#[trigger] queued_rank(q[j]), queued_rank(q[i]))
}

/// The window's events: the primary one first, then the others in their order.
pub open spec fn ordered_events(q: Seq<QueuedEvent>, p: int) -> Seq<GameEvent> {
    seq![q[p].event] + q.remove(p).map_values(|x: QueuedEvent| x.event)
}

/// `v` is the least game time among the events.
pub open spec fn is_min_time(q: Seq<QueuedEvent>, v: u64) -> bool {
    &&& exists|i: int| 0 <= i < q.len() && #[trigger] q[i].event.event_time_ms == v
    &&& forall|i: int| 0 <= i < q.len() ==> v <= #[trigger] q[i].event.event_time_ms
}

/// `v` is the greatest game time among the events.
pub open spec fn is_max_time(q: Seq<QueuedEvent>, v: u64) -> bool {
    &&& exists|i: int| 0 <= i < q.len() && #[trigger] q[i].event.event_time_ms == v
    &&& forall|i: int| 0 <= i < q.len() ==> #[trigger] q[i].event.event_time_ms <= v
}

/// `v` is the earliest detection instant among the events.
pub open spec fn is_min_wall(q: Seq<QueuedEvent>, v: u64) -> bool {
    &&& exists|i: int| 0 <= i < q.len() && #[trigger] q[i].received_wall_ms == v
    &&& forall|i: int| 0 <= i < q.len() ==> v <= #[trigger] q[i].received_wall_ms
}

/// `v` is the latest detection instant among the events.
pub open spec fn is_max_wall(q: Seq<QueuedEvent>, v: u64) -> bool {
    &&& exists|i: int| 0 <= i < q.len() && #[trigger] q[i].received_wall_ms == v
    &&& forall|i: int| 0 <= i < q.len() ==> #[trigger] q[i].received_wall_ms <= v
}

/// Consecutive events merged into one clip.
pub struct EventWindow {
    /// The trigger that names the clip.
    pub primary_trigger: EventTrigger,
    /// The primary event first, then the others in their order.
    pub events: Vec<GameEvent>,
    /// Earliest game time (ms).
    pub start_time_ms: u64,
    /// Latest game time (ms).
    pub end_time_ms: u64,
    /// Priority of the primary trigger.
    pub priority: u8,
    /// Detection instant of the first event (ms since the UNIX epoch).
    pub first_event_wall_ms: u64,
    /// Detection instant of the last event (ms since the UNIX epoch).
    pub last_event_wall_ms: u64,
}

/// The window made of the given events, named by the primary event `p`.
pub open spec fn is_window_of(w: EventWindow, q: Seq<QueuedEvent>) -> bool {
    exists|p: int|
        #[trigger] is_primary(q, p) && w.primary_trigger == q[p].trigger && w.priority == trigger_priority(
            q[p].trigger,
        ) && w.events@ == ordered_events(q, p) && is_min_time(q, w.start_time_ms) && is_max_time(
            q,
            w.end_time_ms,
        ) && is_min_wall(q, w.first_event_wall_ms) && is_max_wall(q, w.last_event_wall_ms)
}

/// How a queued event ranks for naming a merged window.
pub fn window_rank(queued: &QueuedEvent) -> (r: (u8, u64))
    ensures
        r == queued_rank(*queued),
{
    let kind = trigger_to_highlight_kind(&queued.trigger, &queued.event);
    (queued.trigger.priority(), kind.base())
}

fn outranks_exec(a: (u8, u64), b: (u8, u64)) -> (r: bool)
    ensures
        r == outranks(a, b),
{
    a.0 > b.0 || (a.0 == b.0 && a.1 > b.1)
}

/// The index of the event that names the window.
fn primary_index(events: &Vec<QueuedEvent>) -> (p: usize)
    requires
        events@.len() > 0,
    ensures
        is_primary(events@, p as int),
{
    let mut best: usize = 0;
    let mut best_rank = window_rank(&events[0]);
    let mut k: usize = 1;
    while k < events.len()
        invariant
            1 <= k <= events@.len(),
            best < k,
            best_rank == queued_rank(events@[best as int]),
            forall|j: int| 0 <= j < best ==> outranks(best_rank, #[trigger] queued_rank(events@[j])),
            forall|j: int| best < j < k ==> !outranks(#[trigger] queued_rank(events@[j]), best_rank),
        decreases events@.len() - k,
    {
        let r = window_rank(&events[k]);
        if outranks_exec(r, best_rank) {
            best = k;
            best_rank = r;
        }
        k = k + 1;
    }
    best
}

/// Merges consecutive events into one window; `None` for an empty list.
pub fn merge_events(events: Vec<QueuedEvent>) -> (r: Option<EventWindow>)
    ensures
        events@.len() == 0 <==> r is None,
        r matches Some(w) ==> is_window_of(w, events@),
{
    if events.len() == 0 {
        return None;
    }
    let ghost q = events@;
    let p = primary_index(&events);
    let primary_trigger = events[p].trigger;
    let priority = primary_trigger.priority();
    let mut min_t = events[0].event.event_time_ms;
    let mut max_t = events[0].event.event_time_ms;
    let mut min_w = events[0].received_wall_ms;
    let mut max_w = events[0].received_wall_ms;
    let mut k: usize = 1;
    proof {
        assert(q.take(1)[0] == q[0]);
    }
    while k < events.len()
        invariant
            1 <= k <= events@.len(),
            events@ == q,
            is_min_time(q.take(k as int), min_t),
            is_max_time(q.take(k as int), max_t),
            is_min_wall(q.take(k as int), min_w),
            is_max_wall(q.take(k as int), max_w),
        decreases events@.len() - k,
    {
        let t = events[k].event.event_time_ms;
        let w = events[k].received_wall_ms;
        let ghost pre = q.take(k as int);
        let ghost next = q.take(k + 1);
        proof {
            assert(next =~= pre.push(q[k as int]));
        }
        if t < min_t {
            min_t = t;
        }
        if t > max_t {
            max_t = t;
        }
        if w < min_w {
            min_w = w;
        }
        if w > max_w {
            max_w = w;
        }
        proof {
            assert(next[k as int] == q[k as int]);
            assert forall|i: int| 0 <= i < k implies #[trigger] next[i] == pre[i] by {}
            if min_t == t {
                assert(next[k as int].event.event_time_ms == min_t);
            } else {
                let i = choose|i: int| 0 <= i < pre.len() && #[trigger] pre[i].event.event_time_ms == min_t;
                assert(next[i].event.event_time_ms == min_t);
            }
            if max_t == t {
                assert(next[k as int].event.event_time_ms == max_t);
            } else {
                let i = choose|i: int| 0 <= i < pre.len() && #[trigger] pre[i].event.event_time_ms == max_t;
                assert(next[i].event.event_time_ms == max_t);
            }
            if min_w == w {
                assert(next[k as int].received_wall_ms == min_w);
            } else {
                let i = choose|i: int| 0 <= i < pre.len() && #[trigger] pre[i].received_wall_ms == min_w;
                assert(next[i].received_wall_ms == min_w);
            }
            if max_w == w {
                assert(next[k as int].received_wall_ms == max_w);
            } else {
                let i = choose|i: int| 0 <= i < pre.len() && #[trigger] pre[i].received_wall_ms == max_w;
                assert(next[i].received_wall_ms == max_w);
            }
        }
        k = k + 1;
    }
    proof {
        assert(q.take(q.len() as int) =~= q);
    }
    let mut rest = events;
    let primary = rest.remove(p);
    let ghost remaining = q.remove(p as int);
    let mut ordered: Vec<GameEvent> = Vec::new();
    ordered.push(primary.event);
    let ghost first = seq![q[p as int].event];
    let mut moved: usize = 0;
    let ghost total = remaining.len();
    assert(q.len() <= usize::MAX);
    while rest.len() > 0
        invariant
            rest@ == remaining.skip(moved as int),
            moved <= total,
            total == remaining.len(),
            total + 1 == q.len(),
            q.len() <= usize::MAX,
            ordered@ == first + remaining.take(moved as int).map_values(|x: QueuedEvent| x.event),
        decreases rest@.len(),
    {
        let item = rest.remove(0);
        proof {
            assert(remaining.take(moved + 1).map_values(|x: QueuedEvent| x.event) =~= remaining.take(
                moved as int,
            ).map_values(|x: QueuedEvent| x.event).push(item.event));
            assert(remaining.skip(moved + 1) =~= remaining.skip(moved as int).remove(0));
        }
        ordered.push(item.event);
        moved = moved + 1;
    }
    proof {
        assert(remaining.take(moved as int) =~= remaining);
        assert(ordered@ =~= ordered_events(q, p as int));
    }
    let w = EventWindow {
        primary_trigger,
        events: ordered,
        start_time_ms: min_t,
        end_time_ms: max_t,
        priority,
        first_event_wall_ms: min_w,
        last_event_wall_ms: max_w,
    };
    proof {
        assert(is_primary(q, p as int));
    }
    Some(w)
}

/// Most events the merge queue holds.
pub const MAX_QUEUE_SIZE: usize = 1000;
/// Longest span of a merged window that the clip is stretched over (ms).
pub const MAX_EVENT_WINDOW_MS: u64 = 30_000;
/// Longest merge threshold (s).
pub const MAX_MERGE_THRESHOLD_SECS: u64 = 120;
/// Distance kept between a thumbnail and the end of the clip (ms).
pub const THUMBNAIL_END_MARGIN_MS: u64 = 100;

/// The queue after adding `q`: the oldest events are dropped so that it stays within
/// `MAX_QUEUE_SIZE`.
pub open spec fn enqueued(old_queue: Seq<QueuedEvent>, q: QueuedEvent) -> Seq<QueuedEvent> {
    let overflow = if old_queue.len() >= MAX_QUEUE_SIZE { old_queue.len() - (MAX_QUEUE_SIZE - 1) } else { 0 };
    old_queue.skip(overflow).push(q)
}

/// Adds an event to the merge queue, dropping the oldest ones beyond its capacity.
pub fn enqueue_event(queue: &mut VecDeque<QueuedEvent>, queued: QueuedEvent)
    ensures
        final(queue)@ == enqueued(old(queue)@, queued),
        final(queue)@.len() <= MAX_QUEUE_SIZE,
{
    let overflow: usize = if queue.len() >= MAX_QUEUE_SIZE {
        queue.len() - (MAX_QUEUE_SIZE - 1)
    } else {
        0
    };
    let ghost start = queue@;
    let mut dropped: usize = 0;
    while dropped < overflow
        invariant
            dropped <= overflow,
            overflow <= start.len(),
            queue@ == start.skip(dropped as int),
        decreases overflow - dropped,
    {
        let _ = queue.pop_front();
        proof {
            assert(start.skip(dropped + 1) =~= start.skip(dropped as int).subrange(
                1,
                start.skip(dropped as int).len() as int,
            ));
        }
        dropped = dropped + 1;
    }
    queue.push_back(queued);
}

/// Whether the merge window opened by the oldest queued event has closed.
pub open spec fn merge_window_closed_spec(oldest_received_ms: u64, now_ms: u64, threshold_secs: u64) -> bool {
    crate::audio::elapsed_ms(oldest_received_ms, now_ms) / 1000 >= threshold_secs
}

/// Whether the merge window opened by the oldest queued event has closed: it has
/// been open for at least the threshold, in whole seconds.
pub fn merge_window_closed(oldest_received_ms: u64, now_ms: u64, threshold_secs: u64) -> (r: bool)
    ensures
        r == merge_window_closed_spec(oldest_received_ms, now_ms, threshold_secs),
{
    let age = if now_ms >= oldest_received_ms {
        now_ms - oldest_received_ms
    } else {
        0
    };
    age / 1000 >= threshold_secs
}

/// Pre- and post-roll of a clip, in seconds.
#[derive(Clone, Copy, Debug, PartialEq, Eq, Structural)]
pub struct ClipWindow {
    pub pre_duration: u32,
    pub post_duration: u32,
}

/// Clip length chosen by the user for one settings key.
#[derive(Clone, Debug)]
pub struct EventTiming {
    pub key: String,
    pub pre_duration: u32,
    pub post_duration: u32,
}

/// The settings key under which a trigger's clip length is configured.
pub open spec fn timing_key(t: EventTrigger) -> Seq<char> {
    match t {
        EventTrigger::Multikill(_) => "multikill"@,
        EventTrigger::Steal => "steal"@,
        EventTrigger::Death | EventTrigger::FirstBloodVictim => "death"@,
        EventTrigger::Assist => "assist"@,
        EventTrigger::TurretKill => "turret"@,
        EventTrigger::Outplay1vX(_) | EventTrigger::LowHpOutplay => "outplay"@,
        EventTrigger::DragonKill | EventTrigger::ElderDragonKill => "dragon"@,
        EventTrigger::BaronKill => "baron"@,
        EventTrigger::HeraldKill => "herald"@,
        EventTrigger::InhibitorKill | EventTrigger::VoidgrubsKill | EventTrigger::AtakhanKill => "objective"@,
        EventTrigger::Ace => "ace"@,
        EventTrigger::GameEnd => "game_end"@,
        _ => "kill"@,
    }
}

/// The first configured timing with the given key.
pub open spec fn find_timing(timings: Seq<EventTiming>, key: Seq<char>) -> Option<ClipWindow>
    decreases timings.len(),
{
    if timings.len() == 0 {
        None
    } else if timings[0].key@ == key {
        Some(ClipWindow { pre_duration: timings[0].pre_duration, post_duration: timings[0].post_duration })
    } else {
        find_timing(timings.drop_first(), key)
    }
}

/// The clip length of a trigger: the user's setting for its key, else its own default.
pub open spec fn clip_window_for(t: EventTrigger, timings: Seq<EventTiming>) -> ClipWindow {
    match find_timing(timings, timing_key(t)) {
        Some(w) => w,
        None => ClipWindow {
            pre_duration: crate::live_events::trigger_pre_duration(t),
            post_duration: crate::live_events::trigger_post_duration(t),
        },
    }
}

fn timing_key_exec(t: &EventTrigger) -> (k: &'static str)
    ensures
        k@ == timing_key(*t),
{
    match t {
        EventTrigger::Multikill(_) => "multikill",
        EventTrigger::Steal => "steal",
        EventTrigger::Death | EventTrigger::FirstBloodVictim => "death",
        EventTrigger::Assist => "assist",
        EventTrigger::TurretKill => "turret",
        EventTrigger::Outplay1vX(_) | EventTrigger::LowHpOutplay => "outplay",
        EventTrigger::DragonKill | EventTrigger::ElderDragonKill => "dragon",
        EventTrigger::BaronKill => "baron",
        EventTrigger::HeraldKill => "herald",
        EventTrigger::InhibitorKill | EventTrigger::VoidgrubsKill | EventTrigger::AtakhanKill => "objective",
        EventTrigger::Ace => "ace",
        EventTrigger::GameEnd => "game_end",
        _ => "kill",
    }
}

/// The clip length (pre- and post-roll) of a trigger.
pub fn calculate_clip_window(trigger: &EventTrigger, timings: &Vec<EventTiming>) -> (w: ClipWindow)
    ensures
        w == clip_window_for(*trigger, timings@),
{
    let key = timing_key_exec(trigger);
    let mut i: usize = 0;
    proof {
        assert(timings@.skip(0) =~= timings@);
    }
    while i < timings.len()
        invariant
            i <= timings@.len(),
            key@ == timing_key(*trigger),
            find_timing(timings@, key@) == find_timing(timings@.skip(i as int), key@),
        decreases timings@.len() - i,
    {
        proof {
            assert(timings@.skip(i as int).drop_first() =~= timings@.skip(i + 1));
            assert(timings@.skip(i as int)[0] == timings@[i as int]);
        }
        if str_eq(timings[i].key.as_str(), key) {
            return ClipWindow { pre_duration: timings[i].pre_duration, post_duration: timings[i].post_duration };
        }
        i = i + 1;
    }
    ClipWindow { pre_duration: trigger.pre_duration(), post_duration: trigger.post_duration() }
}

/// Post-roll of a merged clip (ms): the window's span (capped) plus the normal tail.
pub open spec fn merged_post_ms(first_wall_ms: u64, last_wall_ms: u64, post_secs: u32) -> int {
    let span = if last_wall_ms > first_wall_ms { last_wall_ms - first_wall_ms } else { 0 };
    let capped = if span > MAX_EVENT_WINDOW_MS { MAX_EVENT_WINDOW_MS as int } else { span };
    capped + post_secs * 1000
}

/// Post-roll of a merged clip (ms): it covers the time from the first to the last
/// event (at most `MAX_EVENT_WINDOW_MS`) and then the normal tail.
pub fn merged_post_duration_ms(first_wall_ms: u64, last_wall_ms: u64, post_secs: u32) -> (r: u64)
    ensures
        r == merged_post_ms(first_wall_ms, last_wall_ms, post_secs),
{
    let span = if last_wall_ms > first_wall_ms { last_wall_ms - first_wall_ms } else { 0 };
    let capped = if span > MAX_EVENT_WINDOW_MS { MAX_EVENT_WINDOW_MS } else { span };
    capped + (post_secs as u64) * 1000
}

/// Post-roll actually requested: all of it when the wait ran out, else only what has
/// been recorded since the anchor (no footage will come after a stop).
pub open spec fn effective_post_ms(waited_fully: bool, post_ms: u64, anchor_wall_ms: u64, now_wall_ms: u64) -> u64 {
    if waited_fully {
        post_ms
    } else {
        let since = if now_wall_ms > anchor_wall_ms { (now_wall_ms - anchor_wall_ms) as u64 } else { 0 };
        if since < post_ms { since } else { post_ms }
    }
}

/// Post-roll actually requested after the wait for post-event footage.
pub fn effective_post_duration_ms(waited_fully: bool, post_ms: u64, anchor_wall_ms: u64, now_wall_ms: u64) -> (r: u64)
    ensures
        r == effective_post_ms(waited_fully, post_ms, anchor_wall_ms, now_wall_ms),
        r <= post_ms,
{
    if waited_fully {
        post_ms
    } else {
        let since = if now_wall_ms > anchor_wall_ms { now_wall_ms - anchor_wall_ms } else { 0 };
        if since < post_ms { since } else { post_ms }
    }
}

/// Whole seconds of a millisecond time, saturating at `u32::MAX`.
pub open spec fn secs_u32(ms: u64) -> u64 {
    if ms / 1000 > u32::MAX as int { u32::MAX as u64 } else { ms / 1000 }
}

fn secs_u32_exec(ms: u64) -> (r: u64)
    ensures
        r == secs_u32(ms),
{
    if ms / 1000 > u32::MAX as u64 { u32::MAX as u64 } else { ms / 1000 }
}

/// Id of a clip of one event: `<event name>_<game second>`.
pub fn single_clip_id(event: &GameEvent) -> (id: String)
    ensures
        id@ == event.event_name@ + "_"@ + crate::text::decimal(secs_u32(event.event_time_ms) as nat),
{
    let mut id = crate::text::string_of(event.event_name.as_str());
    crate::text::append_str(&mut id, "_");
    crate::text::push_decimal(&mut id, secs_u32_exec(event.event_time_ms));
    id
}

/// Id of a merged clip: `merged_<first game second>_<last game second>`.
pub fn merged_clip_id(window: &EventWindow) -> (id: String)
    ensures
        id@ == "merged_"@ + crate::text::decimal(secs_u32(window.start_time_ms) as nat) + "_"@
            + crate::text::decimal(secs_u32(window.end_time_ms) as nat),
{
    let mut id = crate::text::string_of("merged_");
    crate::text::push_decimal(&mut id, secs_u32_exec(window.start_time_ms));
    crate::text::append_str(&mut id, "_");
    crate::text::push_decimal(&mut id, secs_u32_exec(window.end_time_ms));
    id
}

/// A stored game event.
#[derive(Clone, Debug)]
pub struct EventData {
    pub event_id: u64,
    pub event_type: EventType,
    /// Game time (ms).
    pub timestamp_ms: u64,
    pub priority: u8,
    /// The killer, then the assisters.
    pub participants: Vec<String>,
}

/// Killer first, then the assisters.
pub open spec fn participants_of(e: GameEvent) -> Seq<String> {
    (if e.killer_name is Some { seq![e.killer_name->0] } else { Seq::empty() }) + (if e.assisters is Some {
        e.assisters->0@
    } else {
        Seq::empty()
    })
}

fn copy_strings(v: &Vec<String>) -> (r: Vec<String>)
    ensures
        r@ == v@,
{
    let mut r: Vec<String> = Vec::new();
    let mut i: usize = 0;
    while i < v.len()
        invariant
            i <= v@.len(),
            r@ == v@.take(i as int),
        decreases v@.len() - i,
    {
        r.push(v[i].clone());
        proof {
            assert(v@.take(i + 1) =~= v@.take(i as int).push(v@[i as int]));
        }
        i = i + 1;
    }
    proof {
        assert(v@.take(v@.len() as int) =~= v@);
    }
    r
}

/// The stored record of one game event, under the given trigger and priority.
pub fn build_event_data(trigger: &EventTrigger, event: &GameEvent, priority: u8) -> (d: EventData)
    ensures
        d.event_id == event.event_id,
        event_type_matches(d.event_type, *trigger),
        d.timestamp_ms == event.event_time_ms,
        d.priority == priority,
        d.participants@ == participants_of(*event),
{
    let mut participants: Vec<String> = Vec::new();
    if let Some(killer) = &event.killer_name {
        participants.push(killer.clone());
    }
    if let Some(assisters) = &event.assisters {
        let mut more = copy_strings(assisters);
        participants.append(&mut more);
    }
    proof {
        assert(participants@ =~= participants_of(*event));
    }
    EventData {
        event_id: event.event_id as u64,
        event_type: trigger_to_event_type(trigger),
        timestamp_ms: event.event_time_ms,
        priority,
        participants,
    }
}

/// Two stored events are the same when their ids and times agree.
pub open spec fn same_event(a: EventData, b: EventData) -> bool {
    a.event_id == b.event_id && a.timestamp_ms == b.timestamp_ms
}

pub open spec fn already_stored(stored: Seq<EventData>, e: EventData) -> bool {
    exists|i: int| 0 <= i < stored.len() && same_event(#[trigger] stored[i], e)
}

/// The stored list after appending new events, skipping each one already stored.
pub open spec fn appended(stored: Seq<EventData>, new_events: Seq<EventData>) -> Seq<EventData>
    decreases new_events.len(),
{
    if new_events.len() == 0 {
        stored
    } else {
        let s = appended(stored, new_events.drop_last());
        if already_stored(s, new_events.last()) {
            s
        } else {
            s.push(new_events.last())
        }
    }
}

fn is_stored(stored: &Vec<EventData>, e: &EventData) -> (r: bool)
    ensures
        r == already_stored(stored@, *e),
{
    let mut i: usize = 0;
    while i < stored.len()
        invariant
            i <= stored@.len(),
            forall|j: int| 0 <= j < i ==> !same_event(#[trigger] stored@[j], *e),
        decreases stored@.len() - i,
    {
        if stored[i].event_id == e.event_id && stored[i].timestamp_ms == e.timestamp_ms {
            return true;
        }
        i = i + 1;
    }
    false
}

/// Appends the new events that are not stored yet; returns how many were added.
pub fn append_new_events(stored: &mut Vec<EventData>, new_events: Vec<EventData>) -> (added: usize)
    ensures
        final(stored)@ == appended(old(stored)@, new_events@),
        final(stored)@.len() == old(stored)@.len() + added,
{
    let ghost start = stored@;
    let ghost all = new_events@;
    let n = new_events.len();
    assert(all.len() == n);
    let mut rest = new_events;
    let mut added: usize = 0;
    let mut k: usize = 0;
    let ghost total = all.len();
    proof {
        assert(all.skip(0) =~= all);
        assert(all.take(0) =~= Seq::<EventData>::empty());
    }
    while rest.len() > 0
        invariant
            rest@ == all.skip(k as int),
            k <= total,
            total <= usize::MAX,
            total == all.len(),
            stored@ == appended(start, all.take(k as int)),
            stored@.len() == start.len() + added,
            added <= k,
        decreases rest@.len(),
    {
        let e = rest.remove(0);
        proof {
            assert(all.take(k + 1).drop_last() =~= all.take(k as int));
            assert(all.take(k + 1).last() == e);
            assert(all.skip(k + 1) =~= all.skip(k as int).remove(0));
        }
        if !is_stored(stored, &e) {
            stored.push(e);
            added = added + 1;
        }
        k = k + 1;
    }
    proof {
        assert(all.take(k as int) =~= all);
    }
    added
}

/// Where the thumbnail is taken and where the event sits in a saved clip (ms).
/// The offset is kept inside the clip; a clip of no length has no event offset.
pub open spec fn clip_offsets_spec(event_offset_ms: u64, duration_ms: u64) -> (u64, Option<u64>) {
    let thumb_limit = if duration_ms > THUMBNAIL_END_MARGIN_MS { duration_ms - THUMBNAIL_END_MARGIN_MS } else { 0 };
    let thumb = if event_offset_ms < thumb_limit { event_offset_ms } else { thumb_limit as u64 };
    let offset = if duration_ms > 0 {
        Some(if event_offset_ms < duration_ms { event_offset_ms } else { duration_ms })
    } else {
        None
    };
    (thumb, offset)
}

/// Thumbnail position and event offset of a saved clip.
pub fn clip_offsets(event_offset_ms: u64, duration_ms: u64) -> (r: (u64, Option<u64>))
    ensures
        r == clip_offsets_spec(event_offset_ms, duration_ms),
{
    let thumb_limit = if duration_ms > THUMBNAIL_END_MARGIN_MS { duration_ms - THUMBNAIL_END_MARGIN_MS } else { 0 };
    let thumb = if event_offset_ms < thumb_limit { event_offset_ms } else { thumb_limit };
    let offset = if duration_ms > 0 {
        Some(if event_offset_ms < duration_ms { event_offset_ms } else { duration_ms })
    } else {
        None
    };
    (thumb, offset)
}

/// The score of a saved clip, from the moment carried by its event (an empty moment
/// when none was carried).
pub fn clip_score(trigger: &EventTrigger, event: &GameEvent) -> (s: crate::highlight::HighlightScore)
    ensures
        s.value == crate::highlight::score_value(
            highlight_kind_of(*trigger, *event),
            match event.moment {
                Some(m) => m,
                None => crate::highlight::empty_moment(),
            },
        ),
        s.reasons@ == crate::highlight::score_reasons(
            highlight_kind_of(*trigger, *event),
            match event.moment {
                Some(m) => m,
                None => crate::highlight::empty_moment(),
            },
        ),
{
    let moment = match event.moment {
        Some(m) => m,
        None => crate::highlight::MomentContext::default(),
    };
    crate::highlight::score(trigger_to_highlight_kind(trigger, event), &moment)
}

/// Longest extra wait for the end-of-game post-roll before capture stops (ms).
pub const GAME_END_POST_ROLL_CAP_MS: u64 = 3_000;

/// The latest queued GameEnd's detection instant, if one is queued.
pub open spec fn last_game_end_wall(q: Seq<QueuedEvent>) -> Option<u64>
    decreases q.len(),
{
    if q.len() == 0 {
        None
    } else if q.last().trigger is GameEnd {
        Some(q.last().received_wall_ms)
    } else {
        last_game_end_wall(q.drop_last())
    }
}

/// How long capture still runs for the end-of-game post-roll (ms): what is left of
/// the configured post-roll after the queued GameEnd, at most `GAME_END_POST_ROLL_CAP_MS`.
pub open spec fn game_end_post_roll_spec(q: Seq<QueuedEvent>, post_secs: u32, now_wall_ms: u64) -> int {
    match last_game_end_wall(q) {
        None => 0,
        Some(at) => {
            let end = at + post_secs * 1000;
            let left = if end > now_wall_ms { end - now_wall_ms } else { 0 };
            if left > GAME_END_POST_ROLL_CAP_MS { GAME_END_POST_ROLL_CAP_MS as int } else { left }
        },
    }
}

/// How long capture still runs for the end-of-game post-roll (ms).
pub fn game_end_post_roll_ms(queue: &VecDeque<QueuedEvent>, post_secs: u32, now_wall_ms: u64) -> (r: u64)
    ensures
        r == game_end_post_roll_spec(queue@, post_secs, now_wall_ms),
{
    let mut i: usize = queue.len();
    let mut found: Option<u64> = None;
    proof {
        assert(queue@.take(queue@.len() as int) =~= queue@);
    }
    while i > 0 && found.is_none()
        invariant
            i <= queue@.len(),
            found is None ==> last_game_end_wall(queue@) == last_game_end_wall(queue@.take(i as int)),
            found matches Some(a) ==> last_game_end_wall(queue@) == Some(a),
        decreases i,
    {
        proof {
            assert(queue@.take(i as int).drop_last() =~= queue@.take(i - 1));
            assert(queue@.take(i as int).last() == queue@[i - 1]);
        }
        if matches!(queue[i - 1].trigger, EventTrigger::GameEnd) {
            found = Some(queue[i - 1].received_wall_ms);
        }
        i = i - 1;
    }
    proof {
        if found is None {
            assert(queue@.take(0) =~= Seq::<QueuedEvent>::empty());
        }
    }
    match found {
        None => 0,
        Some(at) => {
            let end: u128 = at as u128 + (post_secs as u128) * 1000;
            let left: u128 = if end > now_wall_ms as u128 { end - now_wall_ms as u128 } else { 0 };
            if left > GAME_END_POST_ROLL_CAP_MS as u128 { GAME_END_POST_ROLL_CAP_MS } else { left as u64 }
        },
    }
}

/// What the game-end flush saves: in merge mode the pending events as one window;
/// in immediate mode nothing (each event was saved when it arrived).
pub fn flush_pending_events(pending: Vec<QueuedEvent>, merge_enabled: bool) -> (r: Option<EventWindow>)
    ensures
        !merge_enabled ==> r is None,
        merge_enabled ==> (pending@.len() == 0 <==> r is None),
        merge_enabled ==> (r matches Some(w) ==> is_window_of(w, pending@)),
{
    if !merge_enabled {
        return None;
    }
    merge_events(pending)
}

// ---------------------------------------------------------------------------
// Laws of the filter
// ---------------------------------------------------------------------------

proof fn lemma_demote_sound(t: EventTrigger, e: GameEvent, f: EventFilterSettings, steps: nat)
    ensures
        demote(t, e, f, steps) matches Some(r) ==> trigger_enabled_spec(r, f) && trigger_priority(r)
            >= f.min_priority && trigger_priority(r) <= trigger_priority(t),
    decreases steps,
{
    if steps > 0 {
        if let Some(p) = trigger_parent(t, e) {
            crate::live_events::a_parent_never_outranks_its_child(t, e);
            lemma_demote_sound(p, e, f, (steps - 1) as nat);
        }
    }
}

/// What is recorded is always switched on and above the priority threshold, and is
/// never ranked above what was detected.
pub proof fn a_recorded_trigger_passes_the_filter(
    t: EventTrigger,
    e: GameEvent,
    filter: EventFilterSettings,
    modes: GameModeSettings,
    game_mode: Seq<char>,
    queue_id: Option<u32>,
)
    ensures
        recordable_trigger(t, e, filter, modes, game_mode, queue_id) matches Some(r) ==> trigger_enabled_spec(
            r,
            filter,
        ) && trigger_priority(r) >= filter.min_priority && trigger_priority(r) <= trigger_priority(t),
{
    lemma_demote_sound(t, e, filter, MAX_DEMOTION_STEPS as nat);
}

/// A trigger below the priority threshold is never recorded, not even by falling back
/// to its parent.
pub proof fn the_priority_threshold_is_not_bypassed(
    t: EventTrigger,
    e: GameEvent,
    filter: EventFilterSettings,
    modes: GameModeSettings,
    game_mode: Seq<char>,
    queue_id: Option<u32>,
)
    requires
        trigger_priority(t) < filter.min_priority,
    ensures
        recordable_trigger(t, e, filter, modes, game_mode, queue_id) is None,
{
    lemma_demote_sound(t, e, filter, MAX_DEMOTION_STEPS as nat);
}

/// A trigger whose own toggle is on and that passes the threshold keeps its own name
/// (in a recorded mode, and outside a too-short game's end).
pub proof fn an_enabled_trigger_keeps_its_name(
    t: EventTrigger,
    e: GameEvent,
    filter: EventFilterSettings,
    modes: GameModeSettings,
    game_mode: Seq<char>,
    queue_id: Option<u32>,
)
    requires
        trigger_enabled_spec(t, filter),
        trigger_priority(t) >= filter.min_priority,
        mode_allowed(game_mode, queue_id, modes),
        !(t is GameEnd && event_secs(e) < filter.min_game_duration_secs),
    ensures
        recordable_trigger(t, e, filter, modes, game_mode, queue_id) == Some(t),
{
}

/// A switched-off situation is not lost while its parent is recorded: it is kept
/// under the parent's name.
pub proof fn a_disabled_situation_falls_back_to_its_parent(
    t: EventTrigger,
    p: EventTrigger,
    e: GameEvent,
    filter: EventFilterSettings,
    modes: GameModeSettings,
    game_mode: Seq<char>,
    queue_id: Option<u32>,
)
    requires
        !trigger_enabled_spec(t, filter),
        trigger_parent(t, e) == Some(p),
        trigger_enabled_spec(p, filter),
        trigger_priority(p) >= filter.min_priority,
        mode_allowed(game_mode, queue_id, modes),
        !(t is GameEnd),
    ensures
        recordable_trigger(t, e, filter, modes, game_mode, queue_id) == Some(p),
{
    assert(demote(p, e, filter, (MAX_DEMOTION_STEPS - 1) as nat) == Some(p));
}

// ---------------------------------------------------------------------------
// Laws of merging
// ---------------------------------------------------------------------------

/// Merging loses no event: every queued event is in the window, the window spans
/// them all, and its primary event comes first.
pub proof fn merging_keeps_every_event(w: EventWindow, q: Seq<QueuedEvent>)
    requires
        is_window_of(w, q),
    ensures
        w.events@.len() == q.len(),
        forall|i: int| 0 <= i < q.len() ==> w.events@.contains(#[trigger] q[i].event),
        w.start_time_ms <= w.end_time_ms,
        w.first_event_wall_ms <= w.last_event_wall_ms,
        forall|i: int| 0 <= i < q.len() ==> w.start_time_ms <= #[trigger] q[i].event.event_time_ms <= w.end_time_ms,
{
    let p = choose|p: int| #[trigger] is_primary(q, p) && w.primary_trigger == q[p].trigger && w.priority
        == trigger_priority(q[p].trigger) && w.events@ == ordered_events(q, p) && is_min_time(q, w.start_time_ms)
        && is_max_time(q, w.end_time_ms) && is_min_wall(q, w.first_event_wall_ms) && is_max_wall(q, w.last_event_wall_ms);
    let rest = q.remove(p);
    assert forall|i: int| 0 <= i < q.len() implies w.events@.contains(#[trigger] q[i].event) by {
        if i == p {
            assert(w.events@[0] == q[i].event);
        } else if i < p {
            assert(rest[i] == q[i]);
            assert(w.events@[i + 1] == q[i].event);
        } else {
            assert(rest[i - 1] == q[i]);
            assert(w.events@[i] == q[i].event);
        }
    }
    let i0 = choose|i: int| 0 <= i < q.len() && #[trigger] q[i].event.event_time_ms == w.start_time_ms;
    let i1 = choose|i: int| 0 <= i < q.len() && #[trigger] q[i].received_wall_ms == w.first_event_wall_ms;
    assert(q[i0].event.event_time_ms <= w.end_time_ms);
    assert(q[i1].received_wall_ms <= w.last_event_wall_ms);
}

/// An event whose priority is above every other's names the window.
pub proof fn the_highest_priority_names_the_window(w: EventWindow, q: Seq<QueuedEvent>, i: int)
    requires
        is_window_of(w, q),
        0 <= i < q.len(),
        forall|j: int| 0 <= j < q.len() && j != i ==> trigger_priority(#[trigger] q[j].trigger) < trigger_priority(q[i].trigger),
    ensures
        w.primary_trigger == q[i].trigger,
        w.events@[0] == q[i].event,
{
    let p = choose|p: int| #[trigger] is_primary(q, p) && w.primary_trigger == q[p].trigger && w.priority
        == trigger_priority(q[p].trigger) && w.events@ == ordered_events(q, p) && is_min_time(q, w.start_time_ms)
        && is_max_time(q, w.end_time_ms) && is_min_wall(q, w.first_event_wall_ms) && is_max_wall(q, w.last_event_wall_ms);
    if p < i {
        assert(!outranks(queued_rank(q[i]), queued_rank(q[p])));
    } else if p > i {
        assert(outranks(queued_rank(q[p]), queued_rank(q[i])));
    }
    assert(p == i);
}

/// When every event ranks the same, the earliest one names the window and the
/// events keep their order.
pub proof fn a_tie_keeps_the_earliest_event_first(w: EventWindow, q: Seq<QueuedEvent>)
    requires
        is_window_of(w, q),
        forall|j: int| 0 <= j < q.len() ==> #[trigger] queued_rank(q[j]) == queued_rank(q[0]),
    ensures
        w.primary_trigger == q[0].trigger,
        w.events@ == q.map_values(|x: QueuedEvent| x.event),
{
    let p = choose|p: int| #[trigger] is_primary(q, p) && w.primary_trigger == q[p].trigger && w.priority
        == trigger_priority(q[p].trigger) && w.events@ == ordered_events(q, p) && is_min_time(q, w.start_time_ms)
        && is_max_time(q, w.end_time_ms) && is_min_wall(q, w.first_event_wall_ms) && is_max_wall(q, w.last_event_wall_ms);
    if p > 0 {
        assert(queued_rank(q[p]) == queued_rank(q[0]));
        assert(outranks(queued_rank(q[p]), queued_rank(q[0])));
    }
    assert(p == 0);
    assert(w.events@ =~= q.map_values(|x: QueuedEvent| x.event));
}

// ---------------------------------------------------------------------------
// Laws of persistence
// ---------------------------------------------------------------------------

proof fn lemma_appended_extends(stored: Seq<EventData>, new_events: Seq<EventData>)
    ensures
        appended(stored, new_events).len() >= stored.len(),
        forall|i: int| 0 <= i < stored.len() ==> #[trigger] appended(stored, new_events)[i] == stored[i],
    decreases new_events.len(),
{
    if new_events.len() > 0 {
        lemma_appended_extends(stored, new_events.drop_last());
    }
}

proof fn lemma_appended_stores_all(stored: Seq<EventData>, new_events: Seq<EventData>)
    ensures
        forall|i: int| 0 <= i < new_events.len() ==> already_stored(appended(stored, new_events), #[trigger] new_events[i]),
    decreases new_events.len(),
{
    if new_events.len() > 0 {
        let pre = new_events.drop_last();
        let s = appended(stored, pre);
        lemma_appended_stores_all(stored, pre);
        lemma_appended_extends(s, seq![new_events.last()]);
        let r = appended(stored, new_events);
        assert forall|i: int| 0 <= i < new_events.len() implies already_stored(r, #[trigger] new_events[i]) by {
            if i < new_events.len() - 1 {
                assert(pre[i] == new_events[i]);
                let j = choose|j: int| 0 <= j < s.len() && same_event(#[trigger] s[j], pre[i]);
                if already_stored(s, new_events.last()) {
                    assert(r == s);
                } else {
                    assert(r == s.push(new_events.last()));
                    assert(r[j] == s[j]);
                }
            } else {
                if !already_stored(s, new_events.last()) {
                    assert(r == s.push(new_events.last()));
                    assert(r[s.len() as int] == new_events.last());
                    assert(same_event(r[s.len() as int], new_events.last()));
                }
            }
        }
    }
}

proof fn lemma_appended_nothing_new(stored: Seq<EventData>, new_events: Seq<EventData>)
    requires
        forall|i: int| 0 <= i < new_events.len() ==> already_stored(stored, #[trigger] new_events[i]),
    ensures
        appended(stored, new_events) == stored,
    decreases new_events.len(),
{
    if new_events.len() > 0 {
        let pre = new_events.drop_last();
        assert forall|i: int| 0 <= i < pre.len() implies already_stored(stored, #[trigger] pre[i]) by {
            assert(pre[i] == new_events[i]);
        }
        lemma_appended_nothing_new(stored, pre);
        assert(already_stored(stored, new_events[new_events.len() - 1]));
    }
}

/// Storing a batch of events again adds nothing: a retried save cannot count an
/// event twice.
pub proof fn storing_events_twice_adds_nothing(stored: Seq<EventData>, new_events: Seq<EventData>)
    ensures
        appended(appended(stored, new_events), new_events) == appended(stored, new_events),
{
    lemma_appended_stores_all(stored, new_events);
    lemma_appended_nothing_new(appended(stored, new_events), new_events);
}

/// Storing events only appends: what was stored stays, in place.
pub proof fn storing_events_keeps_what_was_stored(stored: Seq<EventData>, new_events: Seq<EventData>)
    ensures
        appended(stored, new_events).len() >= stored.len(),
        forall|i: int| 0 <= i < stored.len() ==> #[trigger] appended(stored, new_events)[i] == stored[i],
{
    lemma_appended_extends(stored, new_events);
}

/// The merge queue never holds more than its capacity, and the newest event is
/// always kept, after the events that were already queued (minus the oldest ones
/// dropped for room).
pub proof fn the_queue_keeps_the_newest_event(old_queue: Seq<QueuedEvent>, q: QueuedEvent)
    ensures
        enqueued(old_queue, q).len() <= MAX_QUEUE_SIZE || enqueued(old_queue, q).len() == old_queue.len() + 1,
        enqueued(old_queue, q).last() == q,
        old_queue.len() < MAX_QUEUE_SIZE ==> enqueued(old_queue, q) == old_queue.push(q),
{
    assert(old_queue.skip(0) =~= old_queue);
}

/// The clip manager's session state: the game clips are filed under, the clips
/// saved in it, the player's record taken at game end, the merge queue, whether a
/// merge-window flush is pending, and whether the session's detached work was told
/// to stop.
pub struct ClipSession {
    pub game_id: Option<String>,
    pub saved_clips: usize,
    pub summary: Option<crate::lifecycle::PlayerSummary>,
    pub queue: VecDeque<QueuedEvent>,
    pub merge_flush_armed: bool,
    pub cancelled: bool,
}

impl ClipSession {
    /// No game yet.
    pub fn new() -> (s: Self)
        ensures
            s.game_id is None,
            s.saved_clips == 0,
            s.summary is None,
            s.queue@.len() == 0,
            !s.merge_flush_armed,
            !s.cancelled,
    {
        ClipSession {
            game_id: None,
            saved_clips: 0,
            summary: None,
            queue: VecDeque::new(),
            merge_flush_armed: false,
            cancelled: false,
        }
    }

    /// A new game starts a session: its clip count and any record left from the last
    /// game are cleared and detached work may run again. The end of a game stops the
    /// detached work and clears the queue; the clip count stays readable.
    pub fn set_current_game(&mut self, game_id: Option<String>)
        ensures
            final(self).game_id == game_id,
            final(self).merge_flush_armed == old(self).merge_flush_armed,
            game_id is Some ==> {
                &&& final(self).saved_clips == 0
                &&& final(self).summary is None
                &&& !final(self).cancelled
                &&& final(self).queue@ == old(self).queue@
            },
            game_id is None ==> {
                &&& final(self).saved_clips == old(self).saved_clips
                &&& final(self).summary == old(self).summary
                &&& final(self).cancelled
                &&& final(self).queue@.len() == 0
            },
    {
        let starting = game_id.is_some();
        self.game_id = game_id;
        if starting {
            self.saved_clips = 0;
            self.summary = None;
            self.cancelled = false;
        } else {
            self.cancelled = true;
            self.queue.clear();
        }
    }

    /// Counts a saved clip (saturating).
    pub fn record_saved_clip(&mut self)
        ensures
            final(self).saved_clips == (if old(self).saved_clips < usize::MAX {
                old(self).saved_clips + 1
            } else {
                old(self).saved_clips as int
            }),
            final(self).game_id == old(self).game_id,
            final(self).queue@ == old(self).queue@,
    {
        if self.saved_clips < usize::MAX {
            self.saved_clips = self.saved_clips + 1;
        }
    }

    /// Arms the flush of the open merge window; true only for the call that armed
    /// it, so that one flush is pending per window.
    pub fn arm_merge_flush(&mut self) -> (armed: bool)
        ensures
            armed == !old(self).merge_flush_armed,
            final(self).merge_flush_armed,
            final(self).queue@ == old(self).queue@,
            final(self).game_id == old(self).game_id,
    {
        let was = self.merge_flush_armed;
        self.merge_flush_armed = true;
        !was
    }

    /// The pending flush fired or was cancelled: a new window may arm one again.
    pub fn disarm_merge_flush(&mut self)
        ensures
            !final(self).merge_flush_armed,
            final(self).queue@ == old(self).queue@,
            final(self).game_id == old(self).game_id,
    {
        self.merge_flush_armed = false;
    }

    /// Takes every queued event out of the queue.
    pub fn drain_queue(&mut self) -> (events: Vec<QueuedEvent>)
        ensures
            events@ == old(self).queue@,
            final(self).queue@.len() == 0,
            final(self).game_id == old(self).game_id,
    {
        let mut taken: Vec<QueuedEvent> = Vec::new();
        let ghost all = self.queue@;
        while self.queue.len() > 0
            invariant
                taken@ + self.queue@ == all,
                self.game_id == old(self).game_id,
                all == old(self).queue@,
            decreases self.queue@.len(),
        {
            let ghost before = self.queue@;
            match self.queue.pop_front() {
                Some(e) => {
                    let ghost t = taken@;
                    taken.push(e);
                    proof {
                        assert(taken@ + self.queue@ =~= t + before);
                    }
                },
                None => {},
            }
        }
        proof {
            assert(taken@ =~= taken@ + self.queue@);
        }
        taken
    }

    /// Takes the player's record out (it is then gone).
    pub fn take_summary(&mut self) -> (s: Option<crate::lifecycle::PlayerSummary>)
        ensures
            s == old(self).summary,
            final(self).summary is None,
            final(self).game_id == old(self).game_id,
    {
        let mut taken: Option<crate::lifecycle::PlayerSummary> = None;
        std::mem::swap(&mut taken, &mut self.summary);
        taken
    }
}


/// The first timing with a key is the one `find_timing` gives for that key.
proof fn lemma_first_timing(timings: Seq<EventTiming>, key: Seq<char>, i: int)
    requires
        0 <= i < timings.len(),
        timings[i].key@ == key,
        forall|j: int| 0 <= j < i ==> (#[trigger] timings[j]).key@ != key,
    ensures
        find_timing(timings, key) == Some(
            ClipWindow { pre_duration: timings[i].pre_duration, post_duration: timings[i].post_duration },
        ),
    decreases i,
{
    if i > 0 {
        assert(timings[0].key@ != key);
        let rest = timings.drop_first();
        assert forall|j: int| 0 <= j < i - 1 implies (#[trigger] rest[j]).key@ != key by {
            assert(rest[j] == timings[j + 1]);
        }
        lemma_first_timing(rest, key, i - 1);
    }
}

/// Without a timing for a key, `find_timing` gives nothing.
proof fn lemma_no_timing(timings: Seq<EventTiming>, key: Seq<char>)
    requires
        forall|j: int| 0 <= j < timings.len() ==> (#[trigger] timings[j]).key@ != key,
    ensures
        find_timing(timings, key) is None,
    decreases timings.len(),
{
    if timings.len() > 0 {
        let rest = timings.drop_first();
        assert forall|j: int| 0 <= j < rest.len() implies (#[trigger] rest[j]).key@ != key by {
            assert(rest[j] == timings[j + 1]);
        }
        lemma_no_timing(rest, key);
    }
}

/// A trigger's clip uses the user's timing stored under the trigger's own settings
/// name (the first such entry): "kill" for kills, first blood, shutdowns and
/// trades; "multikill"; "steal"; "death" for deaths and first-blood deaths;
/// "assist"; "turret"; "outplay" for 1vX and low-health outplays; "dragon" for
/// dragons and the elder; "baron"; "herald"; "objective" for inhibitors, voidgrubs
/// and Atakhan; "ace"; "game_end". Without such an entry the trigger's own
/// lengths are used.
pub proof fn a_triggers_own_timing_is_used(t: EventTrigger, key: Seq<char>, timings: Seq<EventTiming>)
    requires
        (t == EventTrigger::ChampionKill || t == EventTrigger::FirstBlood || t == EventTrigger::Shutdown || t
            == EventTrigger::TradeKill) ==> key == "kill"@,
        t is Multikill ==> key == "multikill"@,
        t == EventTrigger::Steal ==> key == "steal"@,
        (t == EventTrigger::Death || t == EventTrigger::FirstBloodVictim) ==> key == "death"@,
        t == EventTrigger::Assist ==> key == "assist"@,
        t == EventTrigger::TurretKill ==> key == "turret"@,
        (t is Outplay1vX || t == EventTrigger::LowHpOutplay) ==> key == "outplay"@,
        (t == EventTrigger::DragonKill || t == EventTrigger::ElderDragonKill) ==> key == "dragon"@,
        t == EventTrigger::BaronKill ==> key == "baron"@,
        t == EventTrigger::HeraldKill ==> key == "herald"@,
        (t == EventTrigger::InhibitorKill || t == EventTrigger::VoidgrubsKill || t == EventTrigger::AtakhanKill)
            ==> key == "objective"@,
        t == EventTrigger::Ace ==> key == "ace"@,
        t == EventTrigger::GameEnd ==> key == "game_end"@,
    ensures
        forall|i: int|
            0 <= i < timings.len() && (#[trigger] timings[i]).key@ == key && (forall|j: int|
                0 <= j < i ==> (#[trigger] timings[j]).key@ != key) ==> clip_window_for(t, timings) == (ClipWindow {
                pre_duration: timings[i].pre_duration,
                post_duration: timings[i].post_duration,
            }),
        (forall|j: int| 0 <= j < timings.len() ==> (#[trigger] timings[j]).key@ != key) ==> clip_window_for(
            t,
            timings,
        ) == (ClipWindow {
            pre_duration: crate::live_events::trigger_pre_duration(t),
            post_duration: crate::live_events::trigger_post_duration(t),
        }),
{
    assert(timing_key(t) == key);
    assert forall|i: int|
        0 <= i < timings.len() && (#[trigger] timings[i]).key@ == key && (forall|j: int|
            0 <= j < i ==> (#[trigger] timings[j]).key@ != key) implies clip_window_for(t, timings) == (ClipWindow {
        pre_duration: timings[i].pre_duration,
        post_duration: timings[i].post_duration,
    }) by {
        lemma_first_timing(timings, key, i);
    }
    if forall|j: int| 0 <= j < timings.len() ==> (#[trigger] timings[j]).key@ != key {
        lemma_no_timing(timings, key);
    }
}

} // verus!
