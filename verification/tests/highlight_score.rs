use lolshorts::highlight::{score, HighlightKind, MomentContext, ScoreReason};
use lolshorts::ranking::{dedupe_by_moment, rank, Candidate};

fn ctx() -> MomentContext {
    MomentContext::default()
}

/// Health as basis points of the maximum (10 000 is full health).
fn health(bp: u32) -> MomentContext {
    MomentContext { my_health_bp: Some(bp), ..ctx() }
}

#[test]
fn zero_health_is_death_not_a_clutch() {
    let dead = health(0);
    for kind in [HighlightKind::Assist, HighlightKind::Kill, HighlightKind::ObjectiveSteal] {
        let scored = score(kind, &dead);
        assert!(
            !scored.reasons.iter().any(|r| matches!(r, ScoreReason::Clutch(_))),
            "{:?} got a clutch at zero health: {:?}",
            kind,
            scored.reasons
        );
    }
}

#[test]
fn the_end_of_the_game_never_counts_as_a_clutch() {
    for bp in [0u32, 500, 3_000, 9_000] {
        let moment = health(bp);
        for won in [true, false] {
            let scored = score(HighlightKind::GameEnd { won }, &moment);
            assert!(
                !scored.reasons.iter().any(|r| matches!(r, ScoreReason::Clutch(_))),
                "game end (won={}, health {}) got a clutch: {:?}",
                won,
                bp,
                scored.reasons
            );
        }
    }
}

#[test]
fn surviving_on_low_health_is_still_a_clutch() {
    let barely = health(500);
    let scored = score(HighlightKind::ObjectiveSteal, &barely);
    assert!(scored.reasons.contains(&ScoreReason::Clutch(5)), "no clutch: {:?}", scored.reasons);
    assert!(scored.value > HighlightKind::ObjectiveSteal.base());
}

#[test]
fn base_scores_are_ordered_by_how_watchable_the_event_is() {
    assert!(HighlightKind::Pentakill.base() > HighlightKind::Quadrakill.base());
    assert!(HighlightKind::Quadrakill.base() > HighlightKind::Triplekill.base());
    assert!(HighlightKind::Triplekill.base() > HighlightKind::Doublekill.base());
    assert!(HighlightKind::Doublekill.base() > HighlightKind::Kill.base());
    assert!(HighlightKind::Kill.base() > HighlightKind::Assist.base());
    assert!(HighlightKind::ObjectiveSteal.base() > HighlightKind::Baron.base());
    assert!(HighlightKind::Outplay(3).base() > HighlightKind::Outplay(2).base());
}

#[test]
fn winning_the_game_beats_losing_it() {
    assert!(HighlightKind::GameEnd { won: true }.base() > HighlightKind::GameEnd { won: false }.base());
}

#[test]
fn no_context_means_the_base_score_stands() {
    let s = score(HighlightKind::Kill, &ctx());
    assert_eq!(s.value, HighlightKind::Kill.base());
    assert!(s.reasons.is_empty());
}

#[test]
fn a_kill_at_eight_percent_health_outranks_a_comfortable_one() {
    let clutch = score(HighlightKind::Kill, &health(800));
    let safe = score(HighlightKind::Kill, &health(9_500));
    assert!(clutch.value > safe.value);
    assert_eq!(clutch.reasons, vec![ScoreReason::Clutch(8)]);
    assert!(safe.reasons.is_empty());
}

#[test]
fn deaths_are_not_treated_as_clutch_even_though_health_is_zero() {
    let s = score(HighlightKind::Death, &health(0));
    assert_eq!(s.value, HighlightKind::Death.base());
    assert!(s.reasons.is_empty());
}

#[test]
fn a_solo_kill_beats_the_same_kill_with_four_assists() {
    let solo = score(HighlightKind::Kill, &MomentContext { assist_count: Some(0), ..ctx() });
    let piled_on = score(HighlightKind::Kill, &MomentContext { assist_count: Some(4), ..ctx() });
    assert!(solo.value > piled_on.value);
    assert_eq!(solo.reasons, vec![ScoreReason::Solo]);
}

#[test]
fn being_outnumbered_raises_the_score_and_says_so() {
    let s = score(
        HighlightKind::Doublekill,
        &MomentContext { allies_alive: Some(1), enemies_alive: Some(3), ..ctx() },
    );
    assert!(s.value > HighlightKind::Doublekill.base());
    assert!(s.reasons.contains(&ScoreReason::Outnumbered(1, 3)));
}

#[test]
fn having_the_numbers_is_not_a_bonus() {
    let s = score(HighlightKind::Kill, &MomentContext { allies_alive: Some(4), enemies_alive: Some(1), ..ctx() });
    assert_eq!(s.value, HighlightKind::Kill.base());
}

#[test]
fn objective_kills_do_not_get_combat_modifiers() {
    let s = score(
        HighlightKind::Baron,
        &MomentContext { assist_count: Some(0), allies_alive: Some(1), enemies_alive: Some(4), ..ctx() },
    );
    assert_eq!(s.value, HighlightKind::Baron.base());
    assert!(s.reasons.is_empty());
}

#[test]
fn early_kills_are_discounted_but_first_blood_is_not() {
    let early_kill = score(HighlightKind::Kill, &MomentContext { game_time_ms: Some(120_000), ..ctx() });
    assert!(early_kill.value < HighlightKind::Kill.base());
    let fb = score(HighlightKind::FirstBlood, &MomentContext { game_time_ms: Some(120_000), ..ctx() });
    assert_eq!(fb.value, HighlightKind::FirstBlood.base());
}

#[test]
fn late_game_is_worth_more() {
    let late = score(HighlightKind::Kill, &MomentContext { game_time_ms: Some(25 * 60 * 1000), ..ctx() });
    assert!(late.value > HighlightKind::Kill.base());
    assert!(late.reasons.contains(&ScoreReason::LateGame));
}

#[test]
fn the_last_two_minutes_carry_a_bonus() {
    let s = score(HighlightKind::Ace, &MomentContext { ms_before_game_end: Some(45_000), ..ctx() });
    assert!(s.reasons.contains(&ScoreReason::MatchPoint));
    assert!(s.value > HighlightKind::Ace.base());
}

#[test]
fn modifiers_compound_so_a_great_moment_climbs_past_a_bigger_but_plain_one() {
    let heroic_double = score(
        HighlightKind::Doublekill,
        &MomentContext {
            my_health_bp: Some(600),
            assist_count: Some(0),
            allies_alive: Some(1),
            enemies_alive: Some(3),
            ..ctx()
        },
    );
    let plain_triple = score(HighlightKind::Triplekill, &ctx());
    assert!(heroic_double.value > plain_triple.value, "{} vs {}", heroic_double.value, plain_triple.value);
}

#[test]
fn a_plain_kill_never_climbs_past_a_pentakill() {
    let best_possible_kill = score(
        HighlightKind::Kill,
        &MomentContext {
            my_health_bp: Some(100),
            assist_count: Some(0),
            allies_alive: Some(1),
            enemies_alive: Some(5),
            game_time_ms: Some(30 * 60 * 1000),
            ms_before_game_end: Some(10_000),
        },
    );
    let plain_penta = score(HighlightKind::Pentakill, &ctx());
    assert!(best_possible_kill.value < plain_penta.value, "{} vs {}", best_possible_kill.value, plain_penta.value);
}

fn cand(kind: HighlightKind, at_ms: u64, hp_bp: Option<u32>) -> Candidate<&'static str> {
    let ctx = MomentContext { my_health_bp: hp_bp, ..Default::default() };
    Candidate { item: "clip", kind, at_ms, score: score(kind, &ctx) }
}

#[test]
fn one_teamfight_yields_one_clip_not_five() {
    let kept = dedupe_by_moment(
        vec![
            cand(HighlightKind::Kill, 600_000, None),
            cand(HighlightKind::Doublekill, 605_000, None),
            cand(HighlightKind::Kill, 612_000, None),
        ],
        15_000,
    );
    assert_eq!(kept.len(), 1);
    assert_eq!(kept[0].kind, HighlightKind::Doublekill);
}

#[test]
fn separate_fights_are_kept_separately() {
    let kept = dedupe_by_moment(
        vec![cand(HighlightKind::Kill, 600_000, None), cand(HighlightKind::Kill, 900_000, None)],
        15_000,
    );
    assert_eq!(kept.len(), 2);
}

#[test]
fn dedupe_walks_the_whole_chain_not_just_neighbours() {
    let kept = dedupe_by_moment(
        vec![
            cand(HighlightKind::Kill, 600_000, None),
            cand(HighlightKind::Kill, 605_000, None),
            cand(HighlightKind::Triplekill, 610_000, None),
            cand(HighlightKind::Kill, 615_000, None),
        ],
        15_000,
    );
    assert_eq!(kept.len(), 1);
    assert_eq!(kept[0].kind, HighlightKind::Triplekill);
}

#[test]
fn dedupe_handles_empty_and_single_inputs() {
    let empty: Vec<Candidate<&str>> = Vec::new();
    assert!(dedupe_by_moment(empty, 15_000).is_empty());
    assert_eq!(dedupe_by_moment(vec![cand(HighlightKind::Kill, 1_000, None)], 15_000).len(), 1);
}

#[test]
fn ranking_is_deterministic_when_scores_tie() {
    let mut a = vec![
        cand(HighlightKind::Kill, 900_000, None),
        cand(HighlightKind::Kill, 100_000, None),
        cand(HighlightKind::Kill, 500_000, None),
    ];
    let mut b = vec![
        cand(HighlightKind::Kill, 500_000, None),
        cand(HighlightKind::Kill, 900_000, None),
        cand(HighlightKind::Kill, 100_000, None),
    ];
    rank(&mut a);
    rank(&mut b);
    let at = |v: &Vec<Candidate<&str>>| v.iter().map(|c| c.at_ms).collect::<Vec<_>>();
    assert_eq!(at(&a), at(&b));
    assert_eq!(at(&a), vec![100_000, 500_000, 900_000]);
}

#[test]
fn ranking_puts_the_best_moment_first() {
    let mut v = vec![
        cand(HighlightKind::Kill, 100_000, None),
        cand(HighlightKind::Pentakill, 200_000, None),
        cand(HighlightKind::Doublekill, 300_000, None),
    ];
    rank(&mut v);
    assert_eq!(v[0].kind, HighlightKind::Pentakill);
    assert_eq!(v[2].kind, HighlightKind::Kill);
}
