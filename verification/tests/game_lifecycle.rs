use lolshorts::game_monitor::GameMonitorState;
use lolshorts::game_monitor::{
    after_connect_failure, calculate_retry_delay, detect_game_mode, game_edge, live_client_mode_hint, observe_game,
    replay_target, reset_after_game, resolve_game_start, should_record, with_replay_target, GameEdge, GameMode,
    UnifiedGameStatus,
};
use lolshorts::lifecycle::{
    basic_info_from, build_game_id, build_game_metadata, finalize_game_metadata, non_empty, owns_event_monitoring,
    safe_id_part, start_failure_action, CaptureStartMode, GameResult, GameSessionContext, LiveClientBasicInfo,
    PlayerSummary, StartFailureAction, KDA,
};

fn live_info(game_mode: &str) -> LiveClientBasicInfo {
    LiveClientBasicInfo {
        summoner_name: "tester".to_string(),
        champion_name: "Ahri".to_string(),
        game_time_ms: 10_000,
        game_mode: game_mode.to_string(),
    }
}

#[test]
fn live_client_mode_hint_detects_tft_without_extra_probe() {
    assert_eq!(live_client_mode_hint(Some(&live_info("TFT"))), Some(GameMode::TFT));
    assert_eq!(live_client_mode_hint(Some(&live_info("TFT_DOUBLE_UP"))), Some(GameMode::TFT));
}

#[test]
fn live_client_mode_hint_leaves_non_tft_for_replay_detection() {
    assert_eq!(live_client_mode_hint(Some(&live_info("CLASSIC"))), None);
    assert_eq!(live_client_mode_hint(None), None);
}

/// 2026-05-09T01:02:03Z in seconds since the UNIX epoch.
const STARTED_AT_SECS: i64 = 1_778_288_523;

#[test]
fn game_id_is_valid_for_storage_commands() {
    let context = GameSessionContext {
        champion: Some("Kai'Sa / Void".to_string()),
        game_mode: Some("CLASSIC".to_string()),
    };
    let game_id = build_game_id(STARTED_AT_SECS, &context).expect("a representable time");
    assert_eq!(game_id, "auto_20260509T010203Z_KaiSaVoid_CLASSIC");
    assert!(game_id.chars().all(|c| c.is_ascii_alphanumeric() || c == '_'));
}

// ---- further cases ----

#[test]
fn unknown_names_are_written_as_unknown_in_the_id() {
    let context = GameSessionContext { champion: None, game_mode: None };
    assert_eq!(build_game_id(0, &context).unwrap(), "auto_19700101T000000Z_unknown_unknown");
    assert_eq!(safe_id_part("Nunu & Willump"), "NunuWillump");
    assert_eq!(safe_id_part("!!!"), "unknown");
    assert_eq!(safe_id_part("ABCDEFGHIJKLMNOPQRSTUVWXYZ"), "ABCDEFGHIJKLMNOPQRSTUVWX");
    assert!(build_game_id(i64::MAX, &context).is_none());
}

#[test]
fn session_names_come_from_the_live_client_when_present() {
    let c = GameSessionContext::from_live_client(Some(LiveClientBasicInfo {
        summoner_name: "me".to_string(),
        champion_name: "  ".to_string(),
        game_time_ms: 0,
        game_mode: " ARAM ".to_string(),
    }));
    assert_eq!(c.champion, None);
    assert_eq!(c.game_mode.as_deref(), Some("ARAM"));
    assert_eq!(non_empty(" x ".to_string()).as_deref(), Some("x"));
    let none = GameSessionContext::from_live_client(None);
    assert!(none.champion.is_none() && none.game_mode.is_none());
}

#[test]
fn finishing_fills_placeholders_and_keeps_what_is_known() {
    let context = GameSessionContext { champion: None, game_mode: Some("ARAM".to_string()) };
    let m = build_game_metadata("g1".to_string(), 1_000, &context);
    assert_eq!(m.champion, "Unknown");
    let summary = Some(PlayerSummary {
        champion: "Ahri".to_string(),
        kills: 3,
        deaths: 1,
        assists: 7,
        result: Some("Win".to_string()),
        game_mode: "CLASSIC".to_string(),
    });
    let done = finalize_game_metadata(m, &summary, 2_500);
    assert_eq!(done.champion, "Ahri");
    assert_eq!(done.game_mode, "ARAM");
    assert_eq!(done.end_time_secs, Some(2_500));
    assert_eq!(done.kda, Some(KDA { kills: 3, deaths: 1, assists: 7 }));
    assert_eq!(done.result, Some(GameResult::Win));
}

#[test]
fn a_short_game_without_a_result_is_a_remake() {
    let context = GameSessionContext { champion: None, game_mode: None };
    let m = build_game_metadata("g2".to_string(), 1_000, &context);
    let done = finalize_game_metadata(m, &None, 1_299);
    assert_eq!(done.result, Some(GameResult::Remake));
    let m = build_game_metadata("g3".to_string(), 1_000, &context);
    assert_eq!(finalize_game_metadata(m, &None, 1_300).result, None);
}

#[test]
fn a_failed_start_never_tears_down_a_running_capture() {
    assert_eq!(
        start_failure_action(CaptureStartMode::AutoDetect, true),
        StartFailureAction::ReportAlreadyRecording
    );
    assert_eq!(start_failure_action(CaptureStartMode::Manual, true), StartFailureAction::FailKeepingSession);
    assert_eq!(start_failure_action(CaptureStartMode::Manual, false), StartFailureAction::FailAndFinishSession);
    assert!(owns_event_monitoring(CaptureStartMode::Manual));
    assert!(!owns_event_monitoring(CaptureStartMode::AutoDetect));
}

#[test]
fn basic_info_needs_a_player_name() {
    let players = vec![("other".to_string(), Some("Zed".to_string())), ("me".to_string(), None)];
    assert!(basic_info_from(String::new(), &players, 0, None).is_none());
    let info = basic_info_from("me".to_string(), &players, 5_000, None).unwrap();
    assert_eq!(info.champion_name, "Unknown");
    assert_eq!(info.game_mode, "CLASSIC");
    let players = vec![("me".to_string(), Some("Ahri".to_string()))];
    let info = basic_info_from("me".to_string(), &players, 5_000, Some("ARAM".to_string())).unwrap();
    assert_eq!(info.champion_name, "Ahri");
    assert_eq!(info.game_mode, "ARAM");
}

#[test]
fn retries_back_off_exponentially_up_to_thirty_seconds() {
    assert_eq!(calculate_retry_delay(0), 2_000);
    assert_eq!(calculate_retry_delay(1), 4_000);
    assert_eq!(calculate_retry_delay(3), 16_000);
    assert_eq!(calculate_retry_delay(4), 30_000);
    assert_eq!(calculate_retry_delay(100), 30_000);
    assert_eq!(after_connect_failure(0), (4_000, 1));
    assert_eq!(after_connect_failure(4), (30_000, 0));
}

#[test]
fn game_modes_decide_what_is_recorded() {
    assert_eq!(detect_game_mode(Some(GameMode::TFT), Some(true)), GameMode::TFT);
    assert_eq!(detect_game_mode(None, Some(true)), GameMode::Replay(None));
    assert_eq!(detect_game_mode(None, None), GameMode::Live);
    assert!(should_record(&GameMode::Live));
    assert!(!should_record(&GameMode::TFT));
    assert!(!should_record(&GameMode::Replay(None)));
    let followed = with_replay_target(Some("Faker".to_string()));
    assert!(should_record(&followed));
    assert_eq!(replay_target(&followed).as_deref(), Some("Faker"));
    assert_eq!(replay_target(&GameMode::Live), None);
}

#[test]
fn games_start_and_end_once_each() {
    assert_eq!(game_edge(false, true), GameEdge::Started);
    assert_eq!(game_edge(true, false), GameEdge::Ended);
    assert_eq!(game_edge(true, true), GameEdge::Unchanged);
    let mut status = UnifiedGameStatus::new();
    observe_game(&mut status, true, Some(&live_info("CLASSIC")));
    assert_eq!(status.champion_name.as_deref(), Some("Ahri"));
    status.is_recording = true;
    reset_after_game(&mut status);
    assert!(!status.in_game && !status.is_recording && status.summoner_name.is_none());
    let adopted = resolve_game_start(false, true);
    assert!(adopted.adopt_manual_session && adopted.in_game);
    let retry = resolve_game_start(false, false);
    assert!(!retry.in_game && !retry.adopt_manual_session);
}

#[test]
fn the_monitor_state_composes_one_check() {
    let mut m = GameMonitorState::new();
    assert!(m.start());
    assert!(!m.start());
    assert!(m.status.is_monitoring);
    assert_eq!(m.connect_failed(), 4_000);
    assert_eq!(m.retry_count, 1);
    for _ in 0..3 {
        m.connect_failed();
    }
    assert_eq!(m.connect_failed(), 30_000);
    assert_eq!(m.retry_count, 0);
    assert_eq!(m.observe(true, true, Some(&live_info("CLASSIC"))), GameEdge::Started);
    let r = m.game_started(None, Some(false), true, false);
    assert!(r.in_game && !r.adopt_manual_session);
    assert_eq!(m.mode, GameMode::Live);
    assert!(m.status.is_recording && m.last_in_game);
    assert_eq!(m.observe(true, true, None), GameEdge::Unchanged);
    m.unchanged(true);
    assert_eq!(m.observe(true, false, None), GameEdge::Ended);
    m.game_ended();
    assert!(!m.last_in_game && !m.status.is_recording && m.status.summoner_name.is_none());
    assert_eq!(m.observe(false, true, Some(&live_info("TFT"))), GameEdge::Started);
    let r = m.game_started(Some(GameMode::TFT), None, false, false);
    assert!(!r.in_game);
    assert_eq!(m.mode, GameMode::TFT);
    assert!(!m.last_in_game);
    m.stop();
    assert!(!m.monitoring);
}
