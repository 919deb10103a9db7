use std::collections::VecDeque;
use lolshorts::clip_rules::{
    append_new_events, build_event_data, calculate_clip_window, clip_offsets, effective_post_duration_ms,
    enqueue_event, flush_pending_events, game_end_post_roll_ms, merge_events, merge_window_closed,
    merged_clip_id, merged_post_duration_ms, resolve_recordable_trigger, single_clip_id, trigger_enabled,
    trigger_to_event_type, ClipSession, EventFilterSettings, EventTiming, EventType, GameModeSettings, QueuedEvent,
};
use lolshorts::live_events::{EventTrigger, GameEvent};

fn create_test_event(event_name: &str, event_time_ms: u64) -> GameEvent {
    GameEvent {
        event_id: 1,
        event_name: event_name.to_string(),
        event_time_ms,
        killer_name: Some("TestPlayer".to_string()),
        victim_name: Some("Enemy".to_string()),
        assisters: Some(vec![]),
        dragon_type: None,
        result: None,
        moment: None,
    }
}

fn queued_at(trigger: EventTrigger, event_time_ms: u64, wall_ms: u64) -> QueuedEvent {
    QueuedEvent {
        trigger,
        event: create_test_event("ChampionKill", event_time_ms),
        received_ms: wall_ms,
        received_wall_ms: wall_ms,
    }
}

fn all_on(min_priority: u8) -> EventFilterSettings {
    EventFilterSettings {
        record_kills: true,
        record_deaths: true,
        record_assists: true,
        record_first_blood: true,
        record_first_blood_victim: true,
        record_multikills: true,
        record_dragon: true,
        record_baron: true,
        record_herald: true,
        record_turret: true,
        record_inhibitor: true,
        record_ace: true,
        record_steal: true,
        record_game_end: true,
        record_elder: true,
        record_voidgrubs: true,
        record_atakhan: true,
        record_shutdown: true,
        record_outplay: true,
        record_trade_kill: true,
        record_low_hp: true,
        min_priority,
        min_game_duration_secs: 0,
    }
}

fn every_mode() -> GameModeSettings {
    GameModeSettings {
        record_ranked_solo: true,
        record_ranked_flex: true,
        record_normal: true,
        record_quick_play: true,
        record_aram: true,
        record_special: true,
    }
}

fn resolve(trigger: EventTrigger, event: &GameEvent, filter: &EventFilterSettings) -> Option<EventTrigger> {
    resolve_recordable_trigger(&trigger, event, filter, &every_mode(), "CLASSIC", Some(420))
}

#[test]
fn test_merge_events() {
    let events = vec![
        queued_at(EventTrigger::ChampionKill, 100_000, 1_000_000),
        queued_at(EventTrigger::Multikill(2), 105_000, 1_005_000),
        queued_at(EventTrigger::Multikill(3), 108_000, 1_008_000),
    ];
    let window = merge_events(events).expect("a window for a non-empty list");
    assert_eq!(window.events.len(), 3);
    assert_eq!(window.start_time_ms, 100_000);
    assert_eq!(window.end_time_ms, 108_000);
    assert_eq!(window.priority, 3);
}

#[test]
fn test_event_filtering() {
    let event = create_test_event("ChampionKill", 100_000);
    assert_eq!(resolve(EventTrigger::ChampionKill, &event, &all_on(1)), Some(EventTrigger::ChampionKill));
}

#[test]
fn a_kill_merged_with_a_turret_stays_a_kill() {
    let window = merge_events(vec![
        queued_at(EventTrigger::ChampionKill, 433_000, 1_433_000),
        queued_at(EventTrigger::TurretKill, 445_000, 1_445_000),
    ])
    .expect("window");
    assert_eq!(window.primary_trigger, EventTrigger::ChampionKill);
    assert_eq!(window.events[0].event_time_ms, 433_000);
}

#[test]
fn a_kill_merged_with_a_death_stays_a_kill() {
    let window = merge_events(vec![
        queued_at(EventTrigger::ChampionKill, 645_000, 1_645_000),
        queued_at(EventTrigger::Death, 659_000, 1_659_000),
    ])
    .expect("window");
    assert_eq!(window.primary_trigger, EventTrigger::ChampionKill);
    assert_eq!(window.events[0].event_time_ms, 645_000);
}

#[test]
fn a_higher_priority_trigger_still_wins_over_a_higher_base_score() {
    let window = merge_events(vec![
        queued_at(EventTrigger::ChampionKill, 100_000, 1_100_000),
        queued_at(EventTrigger::Steal, 105_000, 1_105_000),
    ])
    .expect("window");
    assert_eq!(window.primary_trigger, EventTrigger::Steal);
    assert_eq!(window.events[0].event_time_ms, 105_000);
    assert_eq!(window.priority, 4);
}

#[test]
fn a_true_tie_keeps_the_earlier_event_as_primary() {
    let window = merge_events(vec![
        queued_at(EventTrigger::ChampionKill, 200_000, 1_200_000),
        queued_at(EventTrigger::ChampionKill, 205_000, 1_205_000),
    ])
    .expect("window");
    assert_eq!(window.events[0].event_time_ms, 200_000);
    assert_eq!(window.events.len(), 2);
}

#[test]
fn disabled_sub_situation_demotes_to_its_parent_instead_of_vanishing() {
    let mut filter = all_on(1);
    filter.record_shutdown = false;
    filter.record_multikills = false;
    let event = create_test_event("ChampionKill", 300_000);
    for trigger in [EventTrigger::Shutdown, EventTrigger::Multikill(3)] {
        assert_eq!(resolve(trigger, &event, &filter), Some(EventTrigger::ChampionKill), "{:?}", trigger);
    }
}

#[test]
fn demotion_stops_when_the_parent_is_also_disabled() {
    let mut filter = all_on(1);
    filter.record_kills = false;
    filter.record_shutdown = false;
    let event = create_test_event("ChampionKill", 300_000);
    assert_eq!(resolve(EventTrigger::Shutdown, &event, &filter), None);
}

#[test]
fn trade_kill_respects_the_death_toggle() {
    let mut filter = all_on(1);
    filter.record_deaths = false;
    filter.record_trade_kill = false;
    let event = create_test_event("ChampionKill", 300_000);
    assert_eq!(resolve(EventTrigger::TradeKill, &event, &filter), None);
}

#[test]
fn first_blood_victim_can_be_kept_while_deaths_are_off() {
    let mut filter = all_on(1);
    filter.record_deaths = false;
    filter.record_first_blood_victim = true;
    let event = create_test_event("ChampionKill", 90_000);
    assert_eq!(resolve(EventTrigger::FirstBloodVictim, &event, &filter), Some(EventTrigger::FirstBloodVictim));
    assert_eq!(resolve(EventTrigger::Death, &event, &filter), None);
}

#[test]
fn steal_demotes_along_the_objective_it_came_from() {
    let mut filter = all_on(1);
    filter.record_steal = false;
    filter.record_baron = true;
    filter.record_dragon = true;
    filter.record_elder = false;
    let baron = create_test_event("BaronKill", 1_200_000);
    assert_eq!(resolve(EventTrigger::Steal, &baron, &filter), Some(EventTrigger::BaronKill));
    let mut elder = create_test_event("DragonKill", 1_500_000);
    elder.dragon_type = Some("Elder".to_string());
    assert_eq!(resolve(EventTrigger::Steal, &elder, &filter), Some(EventTrigger::DragonKill));
}

#[test]
fn priority_threshold_is_not_bypassed_by_demotion() {
    let mut filter = all_on(3);
    filter.record_multikills = false;
    let event = create_test_event("ChampionKill", 300_000);
    assert_eq!(resolve(EventTrigger::Multikill(2), &event, &filter), None);
}

#[test]
fn merge_window_closes_on_its_own_without_a_second_event() {
    assert!(!merge_window_closed(1_000_000, 1_014_999, 15));
    assert!(merge_window_closed(1_000_000, 1_015_000, 15));
}

// ---- further cases ----

#[test]
fn short_games_get_no_end_of_game_clip_and_modes_can_be_excluded() {
    let mut filter = all_on(1);
    filter.min_game_duration_secs = 600;
    let early_end = create_test_event("GameEnd", 599_000);
    assert_eq!(resolve(EventTrigger::GameEnd, &early_end, &filter), None);
    let late_end = create_test_event("GameEnd", 600_000);
    assert_eq!(resolve(EventTrigger::GameEnd, &late_end, &filter), Some(EventTrigger::GameEnd));
    let mut modes = every_mode();
    modes.record_aram = false;
    let kill = create_test_event("ChampionKill", 1_000);
    assert_eq!(resolve_recordable_trigger(&EventTrigger::ChampionKill, &kill, &filter, &modes, "ARAM", None), None);
    assert!(trigger_enabled(&EventTrigger::Ace, &filter));
}

#[test]
fn the_queue_holds_at_most_a_thousand_events_and_keeps_the_newest() {
    let mut queue = VecDeque::new();
    for i in 0..1_005u64 {
        enqueue_event(&mut queue, queued_at(EventTrigger::ChampionKill, i * 1_000, i));
    }
    assert_eq!(queue.len(), 1_000);
    assert_eq!(queue.back().unwrap().received_wall_ms, 1_004);
    assert_eq!(queue[0].received_wall_ms, 5);
}

#[test]
fn clip_lengths_come_from_the_settings_or_the_trigger() {
    let timings = vec![EventTiming { key: "multikill".to_string(), pre_duration: 20, post_duration: 7 }];
    let w = calculate_clip_window(&EventTrigger::Multikill(4), &timings);
    assert_eq!((w.pre_duration, w.post_duration), (20, 7));
    let w = calculate_clip_window(&EventTrigger::BaronKill, &timings);
    assert_eq!((w.pre_duration, w.post_duration), (EventTrigger::BaronKill.pre_duration(), 5));
}

#[test]
fn merged_clips_cover_the_whole_fight_but_not_more_than_thirty_seconds() {
    assert_eq!(merged_post_duration_ms(1_000_000, 1_012_000, 5), 17_000);
    assert_eq!(merged_post_duration_ms(1_000_000, 1_100_000, 5), 35_000);
    assert_eq!(merged_post_duration_ms(1_000_000, 999_000, 3), 3_000);
    assert_eq!(effective_post_duration_ms(true, 5_000, 1_000, 1_001), 5_000);
    assert_eq!(effective_post_duration_ms(false, 5_000, 1_000, 3_500), 2_500);
    assert_eq!(effective_post_duration_ms(false, 5_000, 1_000, 900), 0);
}

#[test]
fn clip_ids_name_the_event_or_the_window() {
    let event = create_test_event("DragonKill", 754_900);
    assert_eq!(single_clip_id(&event), "DragonKill_754");
    let window = merge_events(vec![
        queued_at(EventTrigger::ChampionKill, 100_500, 1),
        queued_at(EventTrigger::ChampionKill, 108_999, 2),
    ])
    .unwrap();
    assert_eq!(merged_clip_id(&window), "merged_100_108");
}

#[test]
fn storing_events_twice_adds_nothing() {
    let event = create_test_event("ChampionKill", 42_000);
    let data = build_event_data(&EventTrigger::ChampionKill, &event, 1);
    assert_eq!(data.participants, vec!["TestPlayer".to_string()]);
    assert!(matches!(data.event_type, EventType::ChampionKill));
    let mut stored = Vec::new();
    assert_eq!(append_new_events(&mut stored, vec![data.clone()]), 1);
    assert_eq!(append_new_events(&mut stored, vec![data]), 0);
    assert_eq!(stored.len(), 1);
    assert!(matches!(trigger_to_event_type(&EventTrigger::BaronKill), EventType::BaronKill));
}

#[test]
fn thumbnails_stay_inside_the_clip() {
    let (thumb, offset) = clip_offsets(9_000, 10_000);
    assert!(thumb <= 10_000);
    assert_eq!(offset, Some(9_000));
    assert_eq!(clip_offsets(15_000, 10_000).1, Some(10_000));
    assert_eq!(clip_offsets(1_000, 0).1, None);
}

#[test]
fn the_game_end_post_roll_is_capped_at_three_seconds() {
    let mut queue = VecDeque::from(vec![queued_at(EventTrigger::ChampionKill, 1, 1_000)]);
    assert_eq!(game_end_post_roll_ms(&queue, 10, 1_000), 0);
    queue.push_back(queued_at(EventTrigger::GameEnd, 2, 2_000));
    assert_eq!(game_end_post_roll_ms(&queue, 10, 2_000), 3_000);
    assert_eq!(game_end_post_roll_ms(&queue, 10, 10_500), 1_500);
    assert_eq!(game_end_post_roll_ms(&queue, 10, 20_000), 0);
}

#[test]
fn the_game_end_flush_saves_only_in_merge_mode() {
    let pending = vec![queued_at(EventTrigger::ChampionKill, 1_000, 1)];
    assert!(flush_pending_events(pending, false).is_none());
    let pending = vec![queued_at(EventTrigger::ChampionKill, 1_000, 1)];
    assert_eq!(flush_pending_events(pending, true).unwrap().events.len(), 1);
    assert!(flush_pending_events(Vec::new(), true).is_none());
}

#[test]
fn a_clip_session_starts_clean_and_ends_drained() {
    let mut session = ClipSession::new();
    session.queue.push_back(queued_at(EventTrigger::ChampionKill, 1, 1));
    session.saved_clips = 4;
    session.set_current_game(Some("g1".to_string()));
    assert_eq!(session.saved_clips, 0);
    assert!(!session.cancelled);
    session.record_saved_clip();
    assert!(session.arm_merge_flush());
    assert!(!session.arm_merge_flush());
    session.disarm_merge_flush();
    assert!(session.arm_merge_flush());
    assert_eq!(session.drain_queue().len(), 1);
    session.queue.push_back(queued_at(EventTrigger::Ace, 2, 2));
    session.set_current_game(None);
    assert!(session.cancelled);
    assert!(session.queue.is_empty());
    assert_eq!(session.saved_clips, 1);
    assert!(session.take_summary().is_none());
}
