//! Highlight score: how watchable a clip is.
//!
//! A clip's score is a base score decided by the kind of event, multiplied by
//! situational factors read from the game at the moment of the event (the
//! player's health, assists, players alive on each side, game time, time left).
//! Every factor is optional: a missing reading leaves the score untouched.
//!
//! Scores are exact fixed-point numbers. Each factor is a whole number of
//! hundredths (`150` is ×1.5) and a score is the base points multiplied by five
//! such factors, so one point is [`SCORE_POINT`] units and no rounding ever
//! happens.
use vstd::prelude::*;

verus! {

/// One point of highlight score, in the units of [`HighlightScore::value`].
pub const SCORE_POINT: u64 = 10_000_000_000;

/// Time thresholds, in milliseconds of game time.
pub const LATE_GAME_MS: u64 = 1_200_000;
pub const EARLY_GAME_MS: u64 = 300_000;
pub const MATCH_POINT_MS: u64 = 120_000;

/// The kind of event being scored.
#[derive(Clone, Copy, Debug, PartialEq, Eq, Structural)]
pub enum HighlightKind {
    Pentakill,
    Quadrakill,
    Triplekill,
    Doublekill,
    /// A 1vX outplay; the number is how many enemies were fought.
    Outplay(u8),
    ObjectiveSteal,
    Ace,
    Shutdown,
    FirstBlood,
    ElderDragon,
    Baron,
    Atakhan,
    Dragon,
    Herald,
    Voidgrubs,
    Inhibitor,
    Turret,
    Kill,
    TradeKill,
    Assist,
    /// The player was the first-blood victim.
    FirstBloodVictim,
    Death,
    /// End of the game; a won game's last scene is worth more.
    GameEnd { won: bool },
    /// Saved by the user by hand.
    ManualSave,
}

/// Base score of a kind, in whole points (0 to 100).
pub open spec fn base_points(kind: HighlightKind) -> nat {
    match kind {
        HighlightKind::Pentakill => 100,
        HighlightKind::Outplay(n) => if n >= 3 { 90 } else { 75 },
        HighlightKind::Quadrakill => 85,
        HighlightKind::ObjectiveSteal => 80,
        HighlightKind::Triplekill => 70,
        HighlightKind::Ace => 68,
        HighlightKind::ElderDragon => 60,
        HighlightKind::Shutdown => 55,
        HighlightKind::Baron => 55,
        HighlightKind::Doublekill => 50,
        HighlightKind::ManualSave => 50,
        HighlightKind::GameEnd { won } => if won { 48 } else { 25 },
        HighlightKind::FirstBlood => 45,
        HighlightKind::Atakhan => 45,
        HighlightKind::Dragon => 35,
        HighlightKind::Herald => 30,
        HighlightKind::Inhibitor => 30,
        HighlightKind::Kill => 25,
        HighlightKind::Voidgrubs => 22,
        HighlightKind::TradeKill => 20,
        HighlightKind::FirstBloodVictim => 18,
        HighlightKind::Turret => 15,
        HighlightKind::Assist => 12,
        HighlightKind::Death => 10,
    }
}

impl HighlightKind {
    /// Base score of this kind, in score units (`base_points * SCORE_POINT`).
    pub fn base(self) -> (b: u64)
        ensures
            b == base_points(self) * SCORE_POINT,
    {
        let points: u64 = match self {
            HighlightKind::Pentakill => 100,
            HighlightKind::Outplay(n) => if n >= 3 { 90 } else { 75 },
            HighlightKind::Quadrakill => 85,
            HighlightKind::ObjectiveSteal => 80,
            HighlightKind::Triplekill => 70,
            HighlightKind::Ace => 68,
            HighlightKind::ElderDragon => 60,
            HighlightKind::Shutdown => 55,
            HighlightKind::Baron => 55,
            HighlightKind::Doublekill => 50,
            HighlightKind::ManualSave => 50,
            HighlightKind::GameEnd { won } => if won { 48 } else { 25 },
            HighlightKind::FirstBlood => 45,
            HighlightKind::Atakhan => 45,
            HighlightKind::Dragon => 35,
            HighlightKind::Herald => 30,
            HighlightKind::Inhibitor => 30,
            HighlightKind::Kill => 25,
            HighlightKind::Voidgrubs => 22,
            HighlightKind::TradeKill => 20,
            HighlightKind::FirstBloodVictim => 18,
            HighlightKind::Turret => 15,
            HighlightKind::Assist => 12,
            HighlightKind::Death => 10,
        };
        points * SCORE_POINT
    }
}

/// The situation at the moment of the event. Every reading is optional.
#[derive(Clone, Copy, Debug)]
pub struct MomentContext {
    /// The player's health right after the event, in basis points of maximum
    /// health (10 000 is full health).
    pub my_health_bp: Option<u32>,
    /// Number of allies who assisted; 0 means alone.
    pub assist_count: Option<u32>,
    /// Allies alive at that moment (the player included).
    pub allies_alive: Option<u32>,
    /// Enemies alive at that moment.
    pub enemies_alive: Option<u32>,
    /// Game time of the event, in milliseconds.
    pub game_time_ms: Option<u64>,
    /// Time left until the game ended, in milliseconds (known only afterwards).
    pub ms_before_game_end: Option<u64>,
}

/// A context in which nothing was read.
pub open spec fn empty_moment() -> MomentContext {
    MomentContext {
        my_health_bp: None,
        assist_count: None,
        allies_alive: None,
        enemies_alive: None,
        game_time_ms: None,
        ms_before_game_end: None,
    }
}

impl Default for MomentContext {
    fn default() -> (m: Self)
        ensures
            m == empty_moment(),
    {
        MomentContext {
            my_health_bp: None,
            assist_count: None,
            allies_alive: None,
            enemies_alive: None,
            game_time_ms: None,
            ms_before_game_end: None,
        }
    }
}

/// A human-readable reason attached to a score.
#[derive(Clone, Copy, Debug, PartialEq, Eq, Structural)]
pub enum ScoreReason {
    /// Very low health; the value is the health percentage.
    Clutch(u8),
    /// Done without help.
    Solo,
    /// Outnumbered: (allies, enemies).
    Outnumbered(u32, u32),
    /// Late in the game.
    LateGame,
    /// Right before the game was decided.
    MatchPoint,
}

/// The final score of a clip and the reasons behind it.
#[derive(Clone, Debug)]
pub struct HighlightScore {
    /// Score in units of [`SCORE_POINT`].
    pub value: u64,
    pub reasons: Vec<ScoreReason>,
}

/// Health percentage shown in a clutch reason: the rounded percentage, at most 100.
pub open spec fn clutch_percent(bp: u32) -> u8 {
    if (bp + 50) / 100 > 100 {
        100u8
    } else {
        ((bp + 50) / 100) as u8
    }
}

/// Health factor: zero health is a death, not a clutch.
pub open spec fn clutch_effect(bp: u32) -> (int, Option<ScoreReason>) {
    if bp == 0 {
        (100, None)
    } else if bp <= 1000 {
        (150, Some(ScoreReason::Clutch(clutch_percent(bp))))
    } else if bp <= 2500 {
        (130, Some(ScoreReason::Clutch(clutch_percent(bp))))
    } else if bp <= 4000 {
        (115, Some(ScoreReason::Clutch(clutch_percent(bp))))
    } else {
        (100, None)
    }
}

/// Solo factor: a kill made by four players is not a highlight.
pub open spec fn solo_effect(assists: u32) -> (int, Option<ScoreReason>) {
    if assists == 0 {
        (125, Some(ScoreReason::Solo))
    } else if assists == 1 {
        (110, None)
    } else if assists == 2 {
        (100, None)
    } else {
        (90, None)
    }
}

/// Outnumbered factor.
pub open spec fn outnumbered_effect(allies: u32, enemies: u32) -> (int, Option<ScoreReason>) {
    if allies == 0 || enemies <= allies {
        (100, None)
    } else if enemies - allies == 1 {
        (112, Some(ScoreReason::Outnumbered(allies, enemies)))
    } else if enemies - allies == 2 {
        (125, Some(ScoreReason::Outnumbered(allies, enemies)))
    } else {
        (140, Some(ScoreReason::Outnumbered(allies, enemies)))
    }
}

/// First blood (taken or suffered) only happens early, so it is never discounted.
pub open spec fn is_first_blood_kind(kind: HighlightKind) -> bool {
    kind == HighlightKind::FirstBlood || kind == HighlightKind::FirstBloodVictim
}

/// Timing factor.
pub open spec fn timing_effect(kind: HighlightKind, ms: u64) -> (int, Option<ScoreReason>) {
    if ms >= LATE_GAME_MS {
        (115, Some(ScoreReason::LateGame))
    } else if ms < EARLY_GAME_MS && !is_first_blood_kind(kind) {
        (90, None)
    } else {
        (100, None)
    }
}

/// Kinds about who did the fighting: solo and outnumbered factors apply to them.
pub open spec fn is_combat_kind(kind: HighlightKind) -> bool {
    match kind {
        HighlightKind::Pentakill | HighlightKind::Quadrakill | HighlightKind::Triplekill
        | HighlightKind::Doublekill | HighlightKind::Outplay(_) | HighlightKind::Shutdown
        | HighlightKind::FirstBlood | HighlightKind::Kill | HighlightKind::TradeKill
        | HighlightKind::Assist => true,
        _ => false,
    }
}

/// Kinds whose moment can be a clutch: not deaths, and not the end of the game.
pub open spec fn clutch_eligible(kind: HighlightKind) -> bool {
    match kind {
        HighlightKind::Death | HighlightKind::FirstBloodVictim | HighlightKind::GameEnd { .. } => false,
        _ => true,
    }
}

pub open spec fn neutral() -> (int, Option<ScoreReason>) {
    (100, None)
}

pub open spec fn clutch_step(kind: HighlightKind, ctx: MomentContext) -> (int, Option<ScoreReason>) {
    match ctx.my_health_bp {
        Some(bp) => if clutch_eligible(kind) { clutch_effect(bp) } else { neutral() },
        None => neutral(),
    }
}

pub open spec fn solo_step(kind: HighlightKind, ctx: MomentContext) -> (int, Option<ScoreReason>) {
    match ctx.assist_count {
        Some(a) => if is_combat_kind(kind) { solo_effect(a) } else { neutral() },
        None => neutral(),
    }
}

pub open spec fn outnumbered_step(kind: HighlightKind, ctx: MomentContext) -> (int, Option<ScoreReason>) {
    match (ctx.allies_alive, ctx.enemies_alive) {
        (Some(a), Some(e)) => if is_combat_kind(kind) { outnumbered_effect(a, e) } else { neutral() },
        _ => neutral(),
    }
}

pub open spec fn timing_step(kind: HighlightKind, ctx: MomentContext) -> (int, Option<ScoreReason>) {
    match ctx.game_time_ms {
        Some(ms) => timing_effect(kind, ms),
        None => neutral(),
    }
}

pub open spec fn match_point_step(ctx: MomentContext) -> (int, Option<ScoreReason>) {
    match ctx.ms_before_game_end {
        Some(ms) => if ms <= MATCH_POINT_MS { (120, Some(ScoreReason::MatchPoint)) } else { neutral() },
        None => neutral(),
    }
}

pub open spec fn reason_seq(r: Option<ScoreReason>) -> Seq<ScoreReason> {
    match r {
        Some(x) => seq![x],
        None => Seq::empty(),
    }
}

/// The score value: base points times the five factors in hundredths.
pub open spec fn score_value(kind: HighlightKind, ctx: MomentContext) -> int {
    base_points(kind) * clutch_step(kind, ctx).0 * solo_step(kind, ctx).0
        * outnumbered_step(kind, ctx).0 * timing_step(kind, ctx).0 * match_point_step(ctx).0
}

/// The reasons, in the order health, solo, outnumbered, timing, match point.
pub open spec fn score_reasons(kind: HighlightKind, ctx: MomentContext) -> Seq<ScoreReason> {
    reason_seq(clutch_step(kind, ctx).1) + reason_seq(solo_step(kind, ctx).1)
        + reason_seq(outnumbered_step(kind, ctx).1) + reason_seq(timing_step(kind, ctx).1)
        + reason_seq(match_point_step(ctx).1)
}

fn clutch_multiplier(bp: u32) -> (r: (u64, Option<ScoreReason>))
    ensures
        r.0 == clutch_effect(bp).0,
        r.1 == clutch_effect(bp).1,
{
    if bp == 0 {
        return (100, None);
    }
    let rounded: u32 = if bp > u32::MAX - 50 { u32::MAX / 100 } else { (bp + 50) / 100 };
    let pct: u8 = if rounded > 100 { 100 } else { rounded as u8 };
    proof {
        if bp <= 4000 {
            assert(pct == clutch_percent(bp));
        }
    }
    if bp <= 1000 {
        (150, Some(ScoreReason::Clutch(pct)))
    } else if bp <= 2500 {
        (130, Some(ScoreReason::Clutch(pct)))
    } else if bp <= 4000 {
        (115, Some(ScoreReason::Clutch(pct)))
    } else {
        (100, None)
    }
}

fn solo_multiplier(assists: u32) -> (r: (u64, Option<ScoreReason>))
    ensures
        r.0 == solo_effect(assists).0,
        r.1 == solo_effect(assists).1,
{
    if assists == 0 {
        (125, Some(ScoreReason::Solo))
    } else if assists == 1 {
        (110, None)
    } else if assists == 2 {
        (100, None)
    } else {
        (90, None)
    }
}

fn outnumbered_multiplier(allies: u32, enemies: u32) -> (r: (u64, Option<ScoreReason>))
    ensures
        r.0 == outnumbered_effect(allies, enemies).0,
        r.1 == outnumbered_effect(allies, enemies).1,
{
    if allies == 0 || enemies <= allies {
        return (100, None);
    }
    let gap = enemies - allies;
    let m: u64 = if gap == 1 {
        112
    } else if gap == 2 {
        125
    } else {
        140
    };
    (m, Some(ScoreReason::Outnumbered(allies, enemies)))
}

fn timing_multiplier(kind: HighlightKind, ms: u64) -> (r: (u64, Option<ScoreReason>))
    ensures
        r.0 == timing_effect(kind, ms).0,
        r.1 == timing_effect(kind, ms).1,
{
    if ms >= LATE_GAME_MS {
        (115, Some(ScoreReason::LateGame))
    } else if ms < EARLY_GAME_MS && !(matches!(kind, HighlightKind::FirstBlood)
        || matches!(kind, HighlightKind::FirstBloodVictim)) {
        (90, None)
    } else {
        (100, None)
    }
}

/// Whether the kind is about fighting, so that solo and outnumbered factors apply.
pub fn kind_is_combat(kind: HighlightKind) -> (r: bool)
    ensures
        r == is_combat_kind(kind),
{
    match kind {
        HighlightKind::Pentakill | HighlightKind::Quadrakill | HighlightKind::Triplekill
        | HighlightKind::Doublekill | HighlightKind::Outplay(_) | HighlightKind::Shutdown
        | HighlightKind::FirstBlood | HighlightKind::Kill | HighlightKind::TradeKill
        | HighlightKind::Assist => true,
        _ => false,
    }
}

fn push_reason(reasons: &mut Vec<ScoreReason>, r: Option<ScoreReason>)
    ensures
        final(reasons)@ == old(reasons)@ + reason_seq(r),
{
    match r {
        Some(x) => {
            reasons.push(x);
        },
        None => {},
    }
    proof {
        assert(final(reasons)@ =~= old(reasons)@ + reason_seq(r));
    }
}

fn clutch_factor(kind: HighlightKind, ctx: &MomentContext) -> (r: (u64, Option<ScoreReason>))
    ensures
        r.0 == clutch_step(kind, *ctx).0,
        r.1 == clutch_step(kind, *ctx).1,
{
    match ctx.my_health_bp {
        Some(bp) => {
            let eligible = match kind {
                HighlightKind::Death | HighlightKind::FirstBloodVictim | HighlightKind::GameEnd { .. } => false,
                _ => true,
            };
            if eligible { clutch_multiplier(bp) } else { (100, None) }
        },
        None => (100, None),
    }
}

fn solo_factor(kind: HighlightKind, ctx: &MomentContext) -> (r: (u64, Option<ScoreReason>))
    ensures
        r.0 == solo_step(kind, *ctx).0,
        r.1 == solo_step(kind, *ctx).1,
{
    match ctx.assist_count {
        Some(a) => if kind_is_combat(kind) { solo_multiplier(a) } else { (100, None) },
        None => (100, None),
    }
}

fn outnumbered_factor(kind: HighlightKind, ctx: &MomentContext) -> (r: (u64, Option<ScoreReason>))
    ensures
        r.0 == outnumbered_step(kind, *ctx).0,
        r.1 == outnumbered_step(kind, *ctx).1,
{
    match (ctx.allies_alive, ctx.enemies_alive) {
        (Some(a), Some(e)) => if kind_is_combat(kind) { outnumbered_multiplier(a, e) } else { (100, None) },
        _ => (100, None),
    }
}

fn timing_factor(kind: HighlightKind, ctx: &MomentContext) -> (r: (u64, Option<ScoreReason>))
    ensures
        r.0 == timing_step(kind, *ctx).0,
        r.1 == timing_step(kind, *ctx).1,
{
    match ctx.game_time_ms {
        Some(ms) => timing_multiplier(kind, ms),
        None => (100, None),
    }
}

fn match_point_factor(ctx: &MomentContext) -> (r: (u64, Option<ScoreReason>))
    ensures
        r.0 == match_point_step(*ctx).0,
        r.1 == match_point_step(*ctx).1,
{
    match ctx.ms_before_game_end {
        Some(ms) => if ms <= MATCH_POINT_MS { (120, Some(ScoreReason::MatchPoint)) } else { (100, None) },
        None => (100, None),
    }
}

fn base_points_of(kind: HighlightKind) -> (p: u64)
    ensures
        p == base_points(kind),
        p <= 100,
{
    kind.base() / SCORE_POINT
}

fn multiply_factors(base: u64, c: u64, s: u64, o: u64, t: u64, m: u64) -> (v: u64)
    requires
        base <= 100,
        c <= 150,
        s <= 125,
        o <= 140,
        t <= 115,
        m <= 120,
    ensures
        v == base * c * s * o * t * m,
{
    assert(base * c <= 15_000) by (nonlinear_arith)
        requires base <= 100, c <= 150;
    let v1 = base * c;
    assert(v1 * s <= 1_875_000) by (nonlinear_arith)
        requires v1 <= 15_000, s <= 125;
    let v2 = v1 * s;
    assert(v2 * o <= 262_500_000) by (nonlinear_arith)
        requires v2 <= 1_875_000, o <= 140;
    let v3 = v2 * o;
    assert(v3 * t <= 30_187_500_000) by (nonlinear_arith)
        requires v3 <= 262_500_000, t <= 115;
    let v4 = v3 * t;
    assert(v4 * m <= 3_622_500_000_000) by (nonlinear_arith)
        requires v4 <= 30_187_500_000, m <= 120;
    v4 * m
}

/// Scores one clip.
///
/// The value has no upper cap: it is only used to rank clips.
pub fn score(kind: HighlightKind, ctx: &MomentContext) -> (s: HighlightScore)
    ensures
        s.value == score_value(kind, *ctx),
        s.reasons@ == score_reasons(kind, *ctx),
{
    let mut reasons: Vec<ScoreReason> = Vec::new();
    let clutch = clutch_factor(kind, ctx);
    push_reason(&mut reasons, clutch.1);
    let solo = solo_factor(kind, ctx);
    push_reason(&mut reasons, solo.1);
    let outnumbered = outnumbered_factor(kind, ctx);
    push_reason(&mut reasons, outnumbered.1);
    let timing = timing_factor(kind, ctx);
    push_reason(&mut reasons, timing.1);
    let match_point = match_point_factor(ctx);
    push_reason(&mut reasons, match_point.1);

    let value = multiply_factors(
        base_points_of(kind),
        clutch.0,
        solo.0,
        outnumbered.0,
        timing.0,
        match_point.0,
    );
    proof {
        assert(reasons@ =~= score_reasons(kind, *ctx));
    }
    HighlightScore { value, reasons }
}

// ---------------------------------------------------------------------------
// Laws
// ---------------------------------------------------------------------------

pub open spec fn has_clutch(reasons: Seq<ScoreReason>) -> bool {
    exists|i: int| 0 <= i < reasons.len() && #[trigger] reasons[i] is Clutch
}

pub open spec fn has_solo_or_outnumbered(reasons: Seq<ScoreReason>) -> bool {
    exists|i: int|
        0 <= i < reasons.len() && (#[trigger] reasons[i] is Solo || reasons[i] is Outnumbered)
}

proof fn lemma_reasons_layout(kind: HighlightKind, ctx: MomentContext)
    ensures
        has_clutch(score_reasons(kind, ctx)) ==> clutch_step(kind, ctx).1 is Some,
        has_solo_or_outnumbered(score_reasons(kind, ctx)) ==> (solo_step(kind, ctx).1 is Some
            || outnumbered_step(kind, ctx).1 is Some),
{
    let a = reason_seq(clutch_step(kind, ctx).1);
    let b = reason_seq(solo_step(kind, ctx).1);
    let c = reason_seq(outnumbered_step(kind, ctx).1);
    let d = reason_seq(timing_step(kind, ctx).1);
    let e = reason_seq(match_point_step(ctx).1);
    let r = score_reasons(kind, ctx);
    assert(r == a + b + c + d + e);
    if has_clutch(r) {
        let i = choose|i: int| 0 <= i < r.len() && #[trigger] r[i] is Clutch;
        if clutch_step(kind, ctx).1 is None {
            assert(a.len() == 0);
            assert(r[i] is Clutch);
        }
    }
    if has_solo_or_outnumbered(r) {
        let i = choose|i: int|
            0 <= i < r.len() && (#[trigger] r[i] is Solo || r[i] is Outnumbered);
        if solo_step(kind, ctx).1 is None && outnumbered_step(kind, ctx).1 is None {
            assert(b.len() == 0 && c.len() == 0);
        }
    }
}

/// A clutch reason is only ever given for a moment the player survived, on low
/// health, and never for a death or the end of the game.
pub proof fn clutch_needs_a_survived_low_health_moment(kind: HighlightKind, ctx: MomentContext)
    ensures
        has_clutch(score_reasons(kind, ctx)) ==> clutch_eligible(kind)
            && ctx.my_health_bp is Some && 0 < ctx.my_health_bp->0 <= 4000,
{
    lemma_reasons_layout(kind, ctx);
}

/// With nothing read about the moment, the base score stands and no reason is given.
pub proof fn no_context_keeps_the_base_score(kind: HighlightKind)
    ensures
        score_value(kind, empty_moment()) == base_points(kind) * SCORE_POINT,
        score_reasons(kind, empty_moment()) == Seq::<ScoreReason>::empty(),
{
    assert(score_reasons(kind, empty_moment()) =~= Seq::<ScoreReason>::empty());
}

/// Objectives, deaths and game ends are not about who fought: they never get
/// the solo or outnumbered factor.
pub proof fn only_fights_get_combat_factors(kind: HighlightKind, ctx: MomentContext)
    requires
        !is_combat_kind(kind),
    ensures
        solo_step(kind, ctx).0 == 100,
        outnumbered_step(kind, ctx).0 == 100,
        !has_solo_or_outnumbered(score_reasons(kind, ctx)),
{
    lemma_reasons_layout(kind, ctx);
}

/// Having the numbers is never a bonus, being outnumbered always is.
pub proof fn outnumbered_only_raises(kind: HighlightKind, ctx: MomentContext)
    ensures
        outnumbered_step(kind, ctx).0 >= 100,
        outnumbered_step(kind, ctx).1 is Some <==> (is_combat_kind(kind) && ctx.allies_alive is Some
            && ctx.enemies_alive is Some && ctx.allies_alive->0 > 0 && ctx.enemies_alive->0
            > ctx.allies_alive->0),
{
}

/// First blood happens early by nature, so it is never discounted as an early kill.
pub proof fn first_blood_is_never_discounted(ctx: MomentContext)
    ensures
        timing_step(HighlightKind::FirstBlood, ctx).0 >= 100,
        timing_step(HighlightKind::FirstBloodVictim, ctx).0 >= 100,
{
}

proof fn lemma_factor_ranges(kind: HighlightKind, ctx: MomentContext)
    ensures
        100 <= clutch_step(kind, ctx).0 <= 150,
        90 <= solo_step(kind, ctx).0 <= 125,
        100 <= outnumbered_step(kind, ctx).0 <= 140,
        90 <= timing_step(kind, ctx).0 <= 115,
        100 <= match_point_step(ctx).0 <= 120,
{
}

/// The factors together never move a score below 0.81 or above 3.6225 times its
/// base, so a kind keeps its grade: a plain kill can never overtake a pentakill.
pub proof fn score_stays_within_its_grade(kind: HighlightKind, ctx: MomentContext)
    ensures
        base_points(kind) * 8_100_000_000 <= score_value(kind, ctx),
        score_value(kind, ctx) <= base_points(kind) * 36_225_000_000,
{
    lemma_factor_ranges(kind, ctx);
    let b = base_points(kind) as int;
    let c = clutch_step(kind, ctx).0;
    let s = solo_step(kind, ctx).0;
    let o = outnumbered_step(kind, ctx).0;
    let t = timing_step(kind, ctx).0;
    let m = match_point_step(ctx).0;
    assert(b * 8_100_000_000 <= b * c * s * o * t * m <= b * 36_225_000_000) by (nonlinear_arith)
        requires
            b >= 0,
            100 <= c <= 150,
            90 <= s <= 125,
            100 <= o <= 140,
            90 <= t <= 115,
            100 <= m <= 120,
    ;
}

/// However good the moment, a kill scores below a pentakill with no context at all.
pub proof fn a_kill_never_overtakes_a_plain_pentakill(ctx: MomentContext)
    ensures
        score_value(HighlightKind::Kill, ctx) < score_value(HighlightKind::Pentakill, empty_moment()),
{
    score_stays_within_its_grade(HighlightKind::Kill, ctx);
    no_context_keeps_the_base_score(HighlightKind::Pentakill);
}

/// The lower the health a moment was survived on, the higher (or equal) its score.
pub proof fn lower_health_never_scores_lower(
    kind: HighlightKind,
    ctx: MomentContext,
    low: u32,
    high: u32,
)
    requires
        0 < low <= high,
    ensures
        score_value(kind, MomentContext { my_health_bp: Some(low), ..ctx }) >= score_value(
            kind,
            MomentContext { my_health_bp: Some(high), ..ctx },
        ),
{
    let lo = MomentContext { my_health_bp: Some(low), ..ctx };
    let hi = MomentContext { my_health_bp: Some(high), ..ctx };
    lemma_factor_ranges(kind, lo);
    let b = base_points(kind) as int;
    let c1 = clutch_step(kind, lo).0;
    let c2 = clutch_step(kind, hi).0;
    let rest = solo_step(kind, ctx).0 * outnumbered_step(kind, ctx).0 * timing_step(kind, ctx).0
        * match_point_step(ctx).0;
    assert(c1 >= c2);
    assert(solo_step(kind, ctx).0 * outnumbered_step(kind, ctx).0 >= 0) by (nonlinear_arith)
        requires solo_step(kind, ctx).0 >= 0, outnumbered_step(kind, ctx).0 >= 0;
    assert(rest >= 0) by (nonlinear_arith)
        requires
            solo_step(kind, ctx).0 >= 0,
            outnumbered_step(kind, ctx).0 >= 0,
            timing_step(kind, ctx).0 >= 0,
            match_point_step(ctx).0 >= 0,
            rest == solo_step(kind, ctx).0 * outnumbered_step(kind, ctx).0 * timing_step(kind, ctx).0
                * match_point_step(ctx).0,
    ;
    assert(score_value(kind, lo) == b * c1 * solo_step(kind, ctx).0 * outnumbered_step(kind, ctx).0
        * timing_step(kind, ctx).0 * match_point_step(ctx).0);
    assert(score_value(kind, hi) == b * c2 * solo_step(kind, ctx).0 * outnumbered_step(kind, ctx).0
        * timing_step(kind, ctx).0 * match_point_step(ctx).0);
    assert(b * c1 * solo_step(kind, ctx).0 * outnumbered_step(kind, ctx).0 * timing_step(kind, ctx).0
        * match_point_step(ctx).0 >= b * c2 * solo_step(kind, ctx).0 * outnumbered_step(kind, ctx).0
        * timing_step(kind, ctx).0 * match_point_step(ctx).0) by (nonlinear_arith)
        requires
            b >= 0,
            c1 >= c2,
            solo_step(kind, ctx).0 >= 0,
            outnumbered_step(kind, ctx).0 >= 0,
            timing_step(kind, ctx).0 >= 0,
            match_point_step(ctx).0 >= 0,
    ;
}

/// A fight won alone scores strictly higher than the same fight with assists.
pub proof fn solo_beats_assisted(kind: HighlightKind, ctx: MomentContext, assists: u32)
    requires
        is_combat_kind(kind),
        assists > 0,
    ensures
        score_value(kind, MomentContext { assist_count: Some(0), ..ctx }) > score_value(
            kind,
            MomentContext { assist_count: Some(assists), ..ctx },
        ),
{
    let solo = MomentContext { assist_count: Some(0), ..ctx };
    let helped = MomentContext { assist_count: Some(assists), ..ctx };
    lemma_factor_ranges(kind, ctx);
    let b = base_points(kind) as int;
    let c = clutch_step(kind, ctx).0;
    let o = outnumbered_step(kind, ctx).0;
    let t = timing_step(kind, ctx).0;
    let m = match_point_step(ctx).0;
    let s1 = solo_step(kind, solo).0;
    let s2 = solo_step(kind, helped).0;
    assert(s1 == 125 && s2 <= 110);
    assert(b >= 10);
    assert(score_value(kind, solo) == b * c * s1 * o * t * m);
    assert(score_value(kind, helped) == b * c * s2 * o * t * m);
    assert(b * c * s1 * o * t * m > b * c * s2 * o * t * m) by (nonlinear_arith)
        requires
            b >= 10,
            c >= 100,
            s1 > s2,
            o >= 100,
            t >= 90,
            m >= 100,
    ;
}


/// Base scores follow how watchable an event is, on a 0-100 scale where a plain
/// kill is 25, a double kill 50, a triple kill 70 and a pentakill 100: the order
/// runs pentakill, 1v3+ outplay, quadra kill, objective steal, 1v2 outplay, triple
/// kill, ace, elder dragon, shutdown and baron (equal), double kill and manual save
/// (equal), a won game's end, first blood and Atakhan (equal), dragon, herald and
/// inhibitor (equal), kill and a lost game's end (equal), voidgrubs, trade kill,
/// first-blood victim, turret, assist, death. So with nothing known of the moment
/// a baron clip outranks a kill, and a kill outranks a turret.
pub proof fn base_scores_follow_watchability(n3: u8, n2: u8)
    requires
        n3 >= 3,
        n2 < 3,
    ensures
        base_points(HighlightKind::Kill) == 25,
        base_points(HighlightKind::Doublekill) == 50,
        base_points(HighlightKind::Triplekill) == 70,
        base_points(HighlightKind::Pentakill) == 100,
        base_points(HighlightKind::Pentakill) > base_points(HighlightKind::Outplay(n3)),
        base_points(HighlightKind::Outplay(n3)) > base_points(HighlightKind::Quadrakill),
        base_points(HighlightKind::Quadrakill) > base_points(HighlightKind::ObjectiveSteal),
        base_points(HighlightKind::ObjectiveSteal) > base_points(HighlightKind::Outplay(n2)),
        base_points(HighlightKind::Outplay(n2)) > base_points(HighlightKind::Triplekill),
        base_points(HighlightKind::Triplekill) > base_points(HighlightKind::Ace),
        base_points(HighlightKind::Ace) > base_points(HighlightKind::ElderDragon),
        base_points(HighlightKind::ElderDragon) > base_points(HighlightKind::Shutdown),
        base_points(HighlightKind::Shutdown) == base_points(HighlightKind::Baron),
        base_points(HighlightKind::Baron) > base_points(HighlightKind::Doublekill),
        base_points(HighlightKind::Doublekill) == base_points(HighlightKind::ManualSave),
        base_points(HighlightKind::ManualSave) > base_points(HighlightKind::GameEnd { won: true }),
        base_points(HighlightKind::GameEnd { won: true }) > base_points(HighlightKind::FirstBlood),
        base_points(HighlightKind::FirstBlood) == base_points(HighlightKind::Atakhan),
        base_points(HighlightKind::Atakhan) > base_points(HighlightKind::Dragon),
        base_points(HighlightKind::Dragon) > base_points(HighlightKind::Herald),
        base_points(HighlightKind::Herald) == base_points(HighlightKind::Inhibitor),
        base_points(HighlightKind::Inhibitor) > base_points(HighlightKind::Kill),
        base_points(HighlightKind::Kill) == base_points(HighlightKind::GameEnd { won: false }),
        base_points(HighlightKind::GameEnd { won: false }) > base_points(HighlightKind::Voidgrubs),
        base_points(HighlightKind::Voidgrubs) > base_points(HighlightKind::TradeKill),
        base_points(HighlightKind::TradeKill) > base_points(HighlightKind::FirstBloodVictim),
        base_points(HighlightKind::FirstBloodVictim) > base_points(HighlightKind::Turret),
        base_points(HighlightKind::Turret) > base_points(HighlightKind::Assist),
        base_points(HighlightKind::Assist) > base_points(HighlightKind::Death),
        base_points(HighlightKind::Death) > 0,
        score_value(HighlightKind::Baron, empty_moment()) > score_value(HighlightKind::Kill, empty_moment()),
        score_value(HighlightKind::Kill, empty_moment()) > score_value(HighlightKind::Turret, empty_moment()),
{
    no_context_keeps_the_base_score(HighlightKind::Baron);
    no_context_keeps_the_base_score(HighlightKind::Kill);
    no_context_keeps_the_base_score(HighlightKind::Turret);
}

} // verus!
