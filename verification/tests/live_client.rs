use lolshorts::live_events::player_names;
use lolshorts::live_events::detect_replay_mode;
use lolshorts::clip_rules::clip_score;
use lolshorts::highlight::{HighlightKind, MomentContext, ScoreReason};
use lolshorts::detector::TriggerDetector;
use lolshorts::live_events::{
    infer_game_result, ActivePlayer, AllGameData, ChampionStats, CircuitBreaker, EventStreamConfig, EventTrigger,
    GameData, GameEvent, GameResult, GameStateCache, LiveSession, Player, Scores, DEFAULT_CONTEST_WINDOW_SECS,
    DEFAULT_KILL_RETENTION_SECS,
};

/// A fixed reading of the clocks (ms).
const NOW_MS: u64 = 1_700_000_000_000;

#[test]
fn test_starts_closed() {
    let cb = CircuitBreaker::new(3, 30_000);
    assert!(cb.should_allow_request(NOW_MS));
}

#[test]
fn test_opens_after_threshold() {
    let mut cb = CircuitBreaker::new(3, 30_000);
    cb.record_failure(NOW_MS);
    cb.record_failure(NOW_MS);
    cb.record_failure(NOW_MS);
    assert!(!cb.should_allow_request(NOW_MS));
}

#[test]
fn test_success_resets() {
    let mut cb = CircuitBreaker::new(3, 30_000);
    cb.record_failure(NOW_MS);
    cb.record_failure(NOW_MS);
    cb.record_success();
    assert!(cb.should_allow_request(NOW_MS));
    cb.record_failure(NOW_MS);
    cb.record_failure(NOW_MS);
    assert!(cb.should_allow_request(NOW_MS));
    cb.record_failure(NOW_MS);
    assert!(!cb.should_allow_request(NOW_MS));
}

#[test]
fn test_half_open_after_cooldown() {
    let mut cb = CircuitBreaker::new(1, 1);
    cb.record_failure(NOW_MS);
    assert!(!cb.should_allow_request(NOW_MS) || cb.should_allow_request(NOW_MS + 5));
    assert!(cb.should_allow_request(NOW_MS + 10));
}

#[test]
fn test_event_trigger_priority() {
    assert_eq!(EventTrigger::ChampionKill.priority(), 1);
    assert_eq!(EventTrigger::Multikill(2).priority(), 2);
    assert_eq!(EventTrigger::Multikill(5).priority(), 5);
    assert_eq!(EventTrigger::BaronKill.priority(), 3);
    assert_eq!(EventTrigger::Ace.priority(), 4);
}

#[test]
fn test_event_trigger_duration() {
    let trigger = EventTrigger::Multikill(3);
    assert_eq!(trigger.pre_duration(), 15);
    assert_eq!(trigger.post_duration(), 5);

    let trigger = EventTrigger::Steal;
    assert_eq!(trigger.pre_duration(), 20);
    assert_eq!(trigger.post_duration(), 3);
}

#[test]
fn test_infer_game_result_remake_under_300s() {
    assert_eq!(infer_game_result(0), GameResult::Remake);
    assert_eq!(infer_game_result(1_000), GameResult::Remake);
    assert_eq!(infer_game_result(299_900), GameResult::Remake);
}

#[test]
fn test_infer_game_result_early_surrender_300_to_1200s() {
    assert_eq!(infer_game_result(300_000), GameResult::EarlySurrender);
    assert_eq!(infer_game_result(600_000), GameResult::EarlySurrender);
    assert_eq!(infer_game_result(1_199_900), GameResult::EarlySurrender);
}

#[test]
fn test_infer_game_result_unknown_over_1200s() {
    assert_eq!(infer_game_result(1_200_000), GameResult::Unknown);
    assert_eq!(infer_game_result(2_400_000), GameResult::Unknown);
    assert_eq!(infer_game_result(3_600_000), GameResult::Unknown);
}

#[test]
fn test_game_result_equality() {
    assert_eq!(GameResult::Remake, GameResult::Remake);
    assert_eq!(GameResult::Victory, GameResult::Victory);
    assert_ne!(GameResult::Remake, GameResult::Unknown);
}

#[test]
fn test_event_trigger_priority_new_variants() {
    assert_eq!(EventTrigger::ElderDragonKill.priority(), 4);
    assert_eq!(EventTrigger::VoidgrubsKill.priority(), 2);
    assert_eq!(EventTrigger::AtakhanKill.priority(), 3);
    assert_eq!(EventTrigger::Shutdown.priority(), 3);
    assert_eq!(EventTrigger::Death.priority(), 1);
    assert_eq!(EventTrigger::Assist.priority(), 1);
    assert_eq!(EventTrigger::FirstBlood.priority(), 3);
    assert_eq!(EventTrigger::Steal.priority(), 4);
    assert_eq!(EventTrigger::GameEnd.priority(), 3);
    assert_eq!(EventTrigger::DragonKill.priority(), 2);
    assert_eq!(EventTrigger::HeraldKill.priority(), 2);
    assert_eq!(EventTrigger::TurretKill.priority(), 1);
    assert_eq!(EventTrigger::InhibitorKill.priority(), 2);
}

#[test]
fn test_event_trigger_pre_duration_new_variants() {
    assert_eq!(EventTrigger::ElderDragonKill.pre_duration(), 15);
    assert_eq!(EventTrigger::AtakhanKill.pre_duration(), 15);
    assert_eq!(EventTrigger::Shutdown.pre_duration(), 10);
    assert_eq!(EventTrigger::VoidgrubsKill.pre_duration(), 10);
    assert_eq!(EventTrigger::GameEnd.pre_duration(), 30);
    assert_eq!(EventTrigger::Death.pre_duration(), 8);
    assert_eq!(EventTrigger::Assist.pre_duration(), 8);
    assert_eq!(EventTrigger::ChampionKill.pre_duration(), 10);
}

#[test]
fn test_event_trigger_post_duration_new_variants() {
    assert_eq!(EventTrigger::ElderDragonKill.post_duration(), 5);
    assert_eq!(EventTrigger::AtakhanKill.post_duration(), 5);
    assert_eq!(EventTrigger::Shutdown.post_duration(), 5);
    assert_eq!(EventTrigger::VoidgrubsKill.post_duration(), 3);
    assert_eq!(EventTrigger::Ace.post_duration(), 10);
    assert_eq!(EventTrigger::GameEnd.post_duration(), 10);
    assert_eq!(EventTrigger::BaronKill.post_duration(), 5);
    assert_eq!(EventTrigger::ChampionKill.post_duration(), 3);
}

#[test]
fn test_event_trigger_multikill_priority_all_levels() {
    assert_eq!(EventTrigger::Multikill(2).priority(), 2);
    assert_eq!(EventTrigger::Multikill(3).priority(), 3);
    assert_eq!(EventTrigger::Multikill(4).priority(), 4);
    assert_eq!(EventTrigger::Multikill(5).priority(), 5);
    assert_eq!(EventTrigger::Multikill(1).priority(), 1);
}

#[test]
fn test_outplay_1v2_priority() {
    assert_eq!(EventTrigger::Outplay1vX(2).priority(), 4);
}

#[test]
fn test_outplay_1v3_or_more_priority() {
    assert_eq!(EventTrigger::Outplay1vX(3).priority(), 5);
    assert_eq!(EventTrigger::Outplay1vX(4).priority(), 5);
    assert_eq!(EventTrigger::Outplay1vX(5).priority(), 5);
}

#[test]
fn test_trade_kill_priority() {
    assert_eq!(EventTrigger::TradeKill.priority(), 2);
}

#[test]
fn test_low_hp_outplay_priority() {
    assert_eq!(EventTrigger::LowHpOutplay.priority(), 4);
}

#[test]
fn test_outplay_1vx_durations() {
    let trigger = EventTrigger::Outplay1vX(2);
    assert_eq!(trigger.pre_duration(), 15);
    assert_eq!(trigger.post_duration(), 5);
}

#[test]
fn test_trade_kill_durations() {
    let trigger = EventTrigger::TradeKill;
    assert_eq!(trigger.pre_duration(), 12);
    assert_eq!(trigger.post_duration(), 5);
}

#[test]
fn test_low_hp_outplay_durations() {
    let trigger = EventTrigger::LowHpOutplay;
    assert_eq!(trigger.pre_duration(), 12);
    assert_eq!(trigger.post_duration(), 5);
}

// ---- detection ----

fn scores() -> Scores {
    Scores { kills: 0, deaths: 0, assists: 0, creep_score: 0 }
}

fn player(name: &str, champion: &str, team: &str, health: u64, max_health: u64) -> Player {
    Player {
        champion_name: champion.to_string(),
        summoner_name: name.to_string(),
        team: team.to_string(),
        level: 10,
        scores: scores(),
        is_dead: false,
        champion_stats: ChampionStats { current_health: health, max_health },
    }
}

fn game(me: &str, players: Vec<Player>) -> AllGameData {
    AllGameData {
        active_player: ActivePlayer {
            champion_name: "Yasuo".to_string(),
            summoner_name: me.to_string(),
            level: 10,
            current_gold: 300_000,
        },
        all_players: players,
        events: Vec::new(),
        game_data: GameData {
            game_mode: "CLASSIC".to_string(),
            game_time_ms: 0,
            map_name: String::new(),
            map_number: 11,
        },
    }
}

fn make_kill_event(event_id: u32, event_time_ms: u64, killer: &str, victim: &str, assisters: Vec<String>) -> GameEvent {
    GameEvent {
        event_id,
        event_name: "ChampionKill".to_string(),
        event_time_ms,
        killer_name: Some(killer.to_string()),
        victim_name: Some(victim.to_string()),
        assisters: Some(assisters),
        dragon_type: None,
        result: None,
        moment: None,
    }
}

fn detector() -> TriggerDetector {
    TriggerDetector::new(DEFAULT_CONTEST_WINDOW_SECS, DEFAULT_KILL_RETENTION_SECS)
}

#[test]
fn test_detect_low_hp_outplay_with_low_hp() {
    let mut d = detector();
    let me = "TestPlayer";
    let data = Some(game(
        me,
        vec![
            player(me, "Yasuo", "ORDER", 15_000, 100_000),
            player("Enemy", "Zed", "CHAOS", 0, 0),
        ],
    ));
    let event = make_kill_event(1, 300_000, me, "Enemy", vec![]);
    assert_eq!(d.detect(&event, me, &data, NOW_MS), Some(EventTrigger::LowHpOutplay));
}

#[test]
fn test_detect_no_low_hp_outplay_with_high_hp() {
    let mut d = detector();
    let me = "TestPlayer";
    let data = Some(game(me, vec![player(me, "Yasuo", "ORDER", 80_000, 100_000)]));
    let event = make_kill_event(1, 300_000, me, "Enemy", vec![]);
    assert_eq!(d.detect(&event, me, &data, NOW_MS), Some(EventTrigger::ChampionKill));
}

#[test]
fn test_detect_1v2_outplay() {
    let mut d = detector();
    let me = "TestPlayer";
    let data = Some(game(me, vec![player(me, "", "ORDER", 80_000, 100_000)]));
    let event1 = make_kill_event(1, 300_000, me, "Enemy1", vec![]);
    assert_eq!(d.detect(&event1, me, &data, NOW_MS), Some(EventTrigger::ChampionKill));
    let event2 = make_kill_event(2, 305_000, me, "Enemy2", vec![]);
    assert_eq!(d.detect(&event2, me, &data, NOW_MS + 5_000), Some(EventTrigger::Outplay1vX(2)));
}

#[test]
fn test_detect_trade_kill_on_death() {
    let mut d = detector();
    let me = "TestPlayer";
    let data = Some(game(me, vec![player(me, "", "ORDER", 80_000, 100_000)]));
    let kill_event = make_kill_event(1, 300_000, me, "Enemy", vec![]);
    let _ = d.detect(&kill_event, me, &data, NOW_MS);
    let death_event = make_kill_event(2, 303_000, "Enemy2", me, vec![]);
    assert_eq!(d.detect(&death_event, me, &data, NOW_MS + 3_000), Some(EventTrigger::TradeKill));
}

#[test]
fn test_no_trade_kill_if_death_too_late() {
    let mut d = detector();
    let me = "TestPlayer";
    let data = Some(game(me, vec![player(me, "", "ORDER", 80_000, 100_000)]));
    let kill_event = make_kill_event(1, 300_000, me, "Enemy", vec![]);
    let _ = d.detect(&kill_event, me, &data, NOW_MS);
    let death_event = make_kill_event(2, 310_000, "Enemy2", me, vec![]);
    assert_eq!(d.detect(&death_event, me, &data, NOW_MS + 10_000), Some(EventTrigger::Death));
}

#[test]
fn test_champion_stats_default() {
    let stats = ChampionStats::default();
    assert_eq!(stats.current_health, 0);
    assert_eq!(stats.max_health, 0);
}

// ---- further cases ----

#[test]
fn a_breaker_lets_one_request_through_after_its_cooldown() {
    let mut cb = CircuitBreaker::new(2, 30_000);
    cb.record_failure(NOW_MS);
    assert!(cb.should_allow_request(NOW_MS));
    cb.record_failure(NOW_MS);
    assert!(!cb.should_allow_request(NOW_MS + 29_999));
    assert!(cb.should_allow_request(NOW_MS + 30_000));
}

#[test]
fn sub_situations_fall_back_to_their_parent() {
    let kill = make_kill_event(1, 1_000, "a", "b", vec![]);
    assert_eq!(EventTrigger::Shutdown.parent(&kill), Some(EventTrigger::ChampionKill));
    assert_eq!(EventTrigger::Multikill(3).parent(&kill), Some(EventTrigger::ChampionKill));
    assert_eq!(EventTrigger::TradeKill.parent(&kill), Some(EventTrigger::Death));
    assert_eq!(EventTrigger::ElderDragonKill.parent(&kill), Some(EventTrigger::DragonKill));
    assert_eq!(EventTrigger::ChampionKill.parent(&kill), None);
    let mut steal = make_kill_event(2, 1_000, "a", "b", vec![]);
    steal.event_name = "BaronKill".to_string();
    assert_eq!(EventTrigger::Steal.parent(&steal), Some(EventTrigger::BaronKill));
    steal.event_name = "DragonKill".to_string();
    steal.dragon_type = Some("Elder".to_string());
    assert_eq!(EventTrigger::Steal.parent(&steal), Some(EventTrigger::ElderDragonKill));
    steal.dragon_type = Some("Fire".to_string());
    assert_eq!(EventTrigger::Steal.parent(&steal), Some(EventTrigger::DragonKill));
}

#[test]
fn the_session_skips_events_already_in_the_game() {
    let mut data = game("Me", vec![]);
    data.events.push(make_kill_event(41, 1_000, "a", "b", vec![]));
    data.events.push(make_kill_event(42, 2_000, "a", "b", vec![]));
    let mut session = LiveSession::start();
    assert_eq!(session.last_event_id, 0);
    session.refresh(&data);
    assert_eq!(session.player_name.as_deref(), Some("Me"));
    assert_eq!(session.last_event_id, 42);
    // A connected session is left alone by later refreshes.
    data.events.push(make_kill_event(43, 3_000, "a", "b", vec![]));
    session.refresh(&data);
    assert_eq!(session.last_event_id, 42);
    let mut fresh = LiveSession::start();
    fresh.connect(&data);
    assert_eq!(fresh.last_event_id, 43);
}

#[test]
fn cached_game_data_expires() {
    let config = EventStreamConfig::default();
    let mut cache = GameStateCache::new(config.cache_ttl_ms);
    assert!(cache.get(NOW_MS).is_none());
    cache.update(game("Me", vec![]), NOW_MS);
    assert!(cache.is_valid(NOW_MS + 499));
    assert_eq!(cache.get(NOW_MS + 499).unwrap().active_player.summoner_name, "Me");
    assert!(cache.get(NOW_MS + 500).is_none());
}

#[test]
fn spectators_and_unknown_players_mean_a_replay() {
    let me = "TestPlayer";
    assert!(!detect_replay_mode(&game(me, vec![player(me, "Ahri", "ORDER", 1, 1)])));
    assert!(detect_replay_mode(&game(me, vec![player("someone", "Ahri", "ORDER", 1, 1)])));
    assert!(detect_replay_mode(&game("", vec![])));
    assert!(detect_replay_mode(&game("Spectator", vec![player("Spectator", "", "", 1, 1)])));
}

#[test]
fn a_saved_clip_is_scored_from_its_moment() {
    let mut event = make_kill_event(1, 600_000, "TestPlayer", "Enemy", vec![]);
    let plain = clip_score(&EventTrigger::ChampionKill, &event);
    assert_eq!(plain.value, HighlightKind::Kill.base());
    event.moment = Some(MomentContext { assist_count: Some(0), ..Default::default() });
    let solo = clip_score(&EventTrigger::ChampionKill, &event);
    assert_eq!(solo.reasons, vec![ScoreReason::Solo]);
    assert!(solo.value > plain.value);
}

#[test]
fn player_names_keep_the_clients_order() {
    let data = game("b", vec![player("b", "", "", 1, 1), player("a", "", "", 1, 1)]);
    assert_eq!(player_names(&data), vec!["b".to_string(), "a".to_string()]);
}
