//! The weekly turn: validation of the submitted actions and the fixed
//! pipeline that resolves them.
use crate::actions::resolve_action;
use crate::actions::resolves;
use crate::actions::Action;
use crate::actions::ActionResult;
use crate::actions::ActionRoll;
use crate::chance::GameRng;
use crate::chance::Trial;
use crate::compounding::apply_compounding_bonuses;
use crate::compounding::check_compounding_effects;
use crate::compounding::earned_effects;
use crate::compounding::CompoundingBonus;
use crate::compounding::EFFECT_COUNT;
use crate::economy::apply_churn;
use crate::economy::mrr_after_churn;
use crate::economy::nps_after_drift;
use crate::economy::nps_target;
use crate::economy::update_nps;
use crate::events_enhanced::burnout_chance;
use crate::events_enhanced::candidates;
use crate::events_enhanced::cap_fits;
use crate::events_enhanced::check_for_events;
use crate::events_enhanced::emits;
use crate::events_enhanced::EnhancedEventType;
use crate::events_enhanced::EventDraw;
use crate::events_enhanced::GameEvent;
use crate::events_enhanced::EVENT_COUNT;
use crate::events_enhanced::WEEKLY_EVENT_CAP;
use crate::fixed::bounded;
use crate::insights::baseline_in;
use crate::insights::first_few;
use crate::insights::insights_since;
use crate::insights::ranked_insights;
use crate::insights::take_baseline;
use crate::insights::Baseline;
use crate::insights::WeeklyInsight;
use crate::insights::INSIGHT_LIMIT;
use crate::warnings::check_failure_warnings;
use crate::warnings::ranked_risks;
use crate::warnings::FailureWarning;
use crate::market_conditions::aged;
use crate::market_conditions::composed_effectiveness;
use crate::market_conditions::generate_market_condition;
use crate::market_conditions::get_action_effectiveness_modifier;
use crate::market_conditions::get_active_conditions;
use crate::market_conditions::same_condition;
use crate::market_conditions::update_market_conditions;
use crate::market_conditions::MarketCondition;
use crate::market_conditions::MarketEvent;
use crate::market_conditions::AMBIENT_EVENTS;
use crate::market_conditions::DURATION_MAX;
use crate::market_conditions::DURATION_MIN;
use crate::market_conditions::EFFECTIVENESS_MAX;
use crate::market_conditions::EFFECTIVENESS_MIN;
use crate::progression::check_milestone_events;
use crate::progression::check_unlocks;
use crate::progression::milestone_of;
use crate::progression::newly_unlocked;
use crate::progression::unlock_actions;
use crate::progression::with_kinds;
use crate::progression::MilestoneEvent;
use crate::progression::UNLOCKABLE_COUNT;
use crate::state::trimmed_log;
use crate::state::with_snapshot;
use crate::state::GameState;
use crate::state::ACTION_LOG_WEEKS;
use crate::state::HISTORY_WEEKS;
use crate::synergies::apply_synergy_bonuses;
use crate::synergies::check_action_synergies;
use crate::synergies::detect_specialization_path;
use crate::synergies::firing;
use crate::synergies::get_action_type;
use crate::synergies::specialization_of;
use crate::synergies::ActionSynergy;
use crate::synergies::ActionType;
use crate::synergies::SpecializationPath;
use crate::synergies::SYNERGY_COUNT;
use crate::victory::update_escape_velocity_progress;
use vstd::prelude::*;

verus! {

/// Weeks of history that compounding bonuses look back on.
pub const COMPOUNDING_LOOKBACK: usize = 12;

/// Tech debt above which an incident may strike, 80.
pub const INCIDENT_DEBT: i64 = 80_000;

/// Chance, per mille, of an incident in a week of high tech debt.
pub const INCIDENT_CHANCE: i64 = 100;

/// Why a turn was rejected.
#[derive(Debug, Clone, Copy, PartialEq, Eq, Structural)]
pub enum TurnRejection {
    /// The actions cost more focus than there are slots. `required` stops at
    /// the largest `u64`.
    FocusExceeded { required: u64, available: u8 },
    /// An action of a kind that is not unlocked was submitted.
    ActionLocked { kind: ActionType },
    /// The option picked for a dilemma does not exist.
    InvalidChoice { index: usize, options: usize },
    /// The event applies by itself and offers no choice.
    NotADilemma,
}

/// What a resolved turn reports besides the new state.
#[derive(Debug, Clone)]
pub struct TurnOutcome {
    /// What each action did, in the order of the actions.
    pub results: Vec<ActionResult>,
    pub synergies: Vec<ActionSynergy>,
    pub specialization: Option<SpecializationPath>,
    pub compounding_bonuses: Vec<CompoundingBonus>,
    /// The conditions under which the actions were resolved.
    pub active_conditions: Vec<MarketCondition>,
    pub milestone: Option<MilestoneEvent>,
    pub newly_unlocked: Vec<Action>,
    /// What the step from last week to this one is worth pointing out.
    pub insights: Vec<WeeklyInsight>,
    /// The risks that the state shows at the end of the week.
    pub warnings: Vec<FailureWarning>,
    /// The events for the coming week.
    pub candidate_events: Vec<GameEvent>,
}

/// Sum of the focus costs of the actions.
pub open spec fn total_focus(actions: Seq<Action>) -> nat
    decreases actions.len(),
{
    if actions.len() == 0 {
        0
    } else {
        total_focus(actions.drop_last()) + actions.last().cost() as nat
    }
}

/// Whether every action among the first `n` is of an unlocked kind.
pub open spec fn all_unlocked(state: GameState, actions: Seq<Action>, n: int) -> bool {
    forall|i: int| 0 <= i < n ==> state.unlocked().contains((#[trigger] actions[i]).kind())
}

/// The focus that the actions cost.
pub fn focus_needed(actions: &Vec<Action>) -> (total: u128)
    ensures
        total == total_focus(actions@),
{
    let mut total: u128 = 0;
    let mut i: usize = 0;
    while i < actions.len()
        invariant
            i <= actions.len(),
            total == total_focus(actions@.take(i as int)),
            total <= 2 * i,
        decreases actions.len() - i,
    {
        assert(actions@.take(i + 1).drop_last() =~= actions@.take(i as int));
        assert(actions@.take(i + 1).last() == actions@[i as int]);
        total = total + actions[i].focus_cost() as u128;
        i = i + 1;
    }
    assert(actions@.take(i as int) =~= actions@);
    total
}

/// Checks a turn before anything is applied: every action must be of an
/// unlocked kind, and the actions together must not cost more focus than
/// there are slots.
pub fn validate_turn(
    state: &GameState,
    actions: &Vec<Action>,
) -> (verdict: Result<(), TurnRejection>)
    ensures
        verdict.is_ok() <==> all_unlocked(*state, actions@, actions@.len() as int) && total_focus(
            actions@,
        ) <= state.focus_slots,
        verdict matches Err(TurnRejection::ActionLocked { kind }) ==> exists|i: int|
            0 <= i < actions@.len() && #[trigger] actions@[i].kind() == kind
                && !state.unlocked().contains(kind) && all_unlocked(*state, actions@, i),
        verdict matches Err(TurnRejection::FocusExceeded { required, available }) ==> all_unlocked(
            *state,
            actions@,
            actions@.len() as int,
        ) && available == state.focus_slots && required == if total_focus(actions@) > u64::MAX {
            u64::MAX
        } else {
            total_focus(actions@) as u64
        },
        verdict matches Err(e) ==> e is ActionLocked || e is FocusExceeded,
{
    let mut i: usize = 0;
    while i < actions.len()
        invariant
            i <= actions.len(),
            all_unlocked(*state, actions@, i as int),
        decreases actions.len() - i,
    {
        if !state.is_action_unlocked(&actions[i]) {
            return Err(TurnRejection::ActionLocked { kind: get_action_type(&actions[i]) });
        }
        i = i + 1;
    }
    let total = focus_needed(actions);
    if total > state.focus_slots as u128 {
        let required: u64 = if total > u64::MAX as u128 {
            u64::MAX
        } else {
            total as u64
        };
        return Err(TurnRejection::FocusExceeded { required, available: state.focus_slots });
    }
    Ok(())
}

/// The effectiveness of an action under the conditions of a state.
pub open spec fn effectiveness_in(state: GameState, action: Action) -> i64 {
    bounded(
        composed_effectiveness(action.kind(), state.active_market_conditions@),
        EFFECTIVENESS_MIN,
        EFFECTIVENESS_MAX,
    )
}

/// What it means that the actions, resolved one after the other under the
/// market conditions of the moment, took the state from `before` to `after`
/// with the given results: each action was resolved, with draws that fit it,
/// in the state that its predecessor left.
pub open spec fn steps(
    before: GameState,
    actions: Seq<Action>,
    after: GameState,
    results: Seq<ActionResult>,
) -> bool
    decreases actions.len(),
{
    if actions.len() == 0 {
        after == before && results.len() == 0
    } else {
        &&& results.len() == actions.len()
        &&& exists|mid: GameState, roll: ActionRoll|
            steps(before, actions.drop_last(), mid, results.drop_last()) && roll.fits(
                actions.last(),
                mid,
            ) && roll.greets(actions.last(), mid, effectiveness_in(mid, actions.last()))
                && #[trigger] resolves(
                mid,
                actions.last(),
                roll,
                effectiveness_in(mid, actions.last()),
                after,
                results.last(),
            )
    }
}

/// Resolves the actions in order, each under the market conditions that are
/// active.
pub fn resolve_actions(
    state: &mut GameState,
    actions: &Vec<Action>,
    rng: &mut GameRng,
) -> (results: Vec<ActionResult>)
    ensures
        steps(*old(state), actions@, *final(state), results@),
        results@.len() == actions@.len(),
        old(state).keeps_calendar(*final(state)),
        final(state).action_history == old(state).action_history,
{
    let mut results: Vec<ActionResult> = Vec::new();
    let mut i: usize = 0;
    while i < actions.len()
        invariant
            i <= actions.len(),
            results@.len() == i,
            steps(*old(state), actions@.take(i as int), *state, results@),
            old(state).keeps_calendar(*state),
            state.action_history == old(state).action_history,
        decreases actions.len() - i,
    {
        let ghost mid = *state;
        let ghost earlier = results@;
        let effectiveness = get_action_effectiveness_modifier(
            &actions[i],
            &state.active_market_conditions,
        );
        let result = resolve_action(state, &actions[i], effectiveness, rng);
        results.push(result);
        proof {
            let done = actions@.take(i + 1);
            assert(done.drop_last() =~= actions@.take(i as int));
            assert(done.last() == actions@[i as int]);
            assert(results@.drop_last() =~= earlier);
            let roll = choose|roll: ActionRoll|
                roll.fits(actions@[i as int], mid) && roll.greets(
                    actions@[i as int],
                    mid,
                    effectiveness,
                ) && #[trigger] resolves(
                    mid,
                    actions@[i as int],
                    roll,
                    effectiveness,
                    *state,
                    result,
                );
            assert(steps(*old(state), done.drop_last(), mid, results@.drop_last()) && roll.fits(
                done.last(),
                mid,
            ) && roll.greets(done.last(), mid, effectiveness_in(mid, done.last())) && resolves(
                mid,
                done.last(),
                roll,
                effectiveness_in(mid, done.last()),
                *state,
                results@.last(),
            ));
        }
        i = i + 1;
    }
    assert(actions@.take(i as int) =~= actions@);
    results
}

/// What it means that the turn's actions were entered in the log: the
/// specialization is the one that the log and the turn show, and the turn is
/// the last entry of the log, under the current week.
pub open spec fn logged(before: GameState, actions: Seq<Action>, after: GameState) -> bool {
    &&& after.specialization_path == specialization_of(before.action_history@, actions)
    &&& after.action_history@.len() == before.action_history@.len() + 1
    &&& after.action_history@.drop_last() == before.action_history@
    &&& after.action_history@.last().0 == before.week
    &&& after.action_history@.last().1@ == actions
    &&& after == (GameState {
        specialization_path: after.specialization_path,
        action_history: after.action_history,
        ..before
    })
}

/// Detects the specialization from the log and the turn, and then enters
/// the turn in the log.
pub fn log_actions(
    state: &mut GameState,
    actions: &Vec<Action>,
) -> (path: Option<SpecializationPath>)
    ensures
        logged(*old(state), actions@, *final(state)),
        path == final(state).specialization_path,
{
    let path = detect_specialization_path(&state.action_history, actions);
    state.specialization_path = path;
    let mut copy: Vec<Action> = Vec::new();
    let mut i: usize = 0;
    while i < actions.len()
        invariant
            i <= actions.len(),
            copy@ == actions@.take(i as int),
        decreases actions.len() - i,
    {
        copy.push(actions[i]);
        assert(actions@.take(i + 1) =~= actions@.take(i as int).push(actions@[i as int]));
        i = i + 1;
    }
    assert(actions@.take(i as int) =~= actions@);
    state.action_history.push((state.week, copy));
    assert(state.action_history@.drop_last() =~= old(state).action_history@);
    path
}

/// The scalar stats after the weekly economy: churn takes its share of the
/// revenue, the net promoter score drifts toward its target, and the gates
/// and the streak are evaluated.
pub open spec fn after_economy(before: GameState) -> GameState {
    let churned = GameState { mrr: mrr_after_churn(before.mrr, before.churn_rate), ..before };
    let drifted = GameState {
        nps: nps_after_drift(churned.nps, nps_target(churned.tech_debt, churned.velocity)),
        ..churned
    };
    GameState { escape_velocity_progress: drifted.progress_after_week(), ..drifted }
}

/// Applies churn, lets the net promoter score drift and evaluates the gates
/// of escape velocity.
pub fn settle_economy(state: &mut GameState)
    ensures
        *final(state) == after_economy(*old(state)),
{
    apply_churn(state);
    update_nps(state);
    update_escape_velocity_progress(state);
}

/// Whether the condition is one that a week can bring by itself: of an
/// ambient kind, lasting four to eight weeks, with the modifiers of its kind
/// (which for a competitor's launch may be weighted).
pub open spec fn is_ambient(c: MarketCondition) -> bool {
    &&& exists|i: int| 0 <= i < AMBIENT_EVENTS && c.id == MarketEvent::at(i)
    &&& DURATION_MIN <= c.duration_weeks <= DURATION_MAX
    &&& c.modifiers@.len() == c.id.modifiers().len()
    &&& c.id != MarketEvent::CompetitorLaunch ==> c.modifiers@ == c.id.modifiers()
}

/// What it means that the market moved on by a week: the conditions aged,
/// and at most one new ambient condition joined them at the end.
pub open spec fn market_moved(before: GameState, after: GameState) -> bool {
    let conditions = after.active_market_conditions@;
    &&& after == (GameState { active_market_conditions: after.active_market_conditions, ..before })
    &&& {
        ||| conditions == aged(before.active_market_conditions@)
        ||| conditions.len() > 0 && conditions.drop_last() == aged(
            before.active_market_conditions@,
        ) && is_ambient(conditions.last())
    }
}

/// Ages the active conditions and, with the weekly chance, adds a new one.
pub fn move_market(state: &mut GameState, rng: &mut GameRng)
    ensures
        market_moved(*old(state), *final(state)),
{
    update_market_conditions(state);
    let week = state.week;
    match generate_market_condition(state, week, rng) {
        Some(condition) => {
            let ghost aged_conditions = state.active_market_conditions@;
            state.active_market_conditions.push(condition);
            assert(state.active_market_conditions@.drop_last() =~= aged_conditions);
        },
        None => {},
    }
}

/// What it means for the market that one turn has passed: the conditions
/// have aged by one week, once, and at most one new ambient condition has
/// joined them at the end.
pub open spec fn market_aged_once(before: GameState, after: GameState) -> bool {
    let conditions = after.active_market_conditions@;
    ||| conditions == aged(before.active_market_conditions@)
    ||| conditions.len() > 0 && conditions.drop_last() == aged(before.active_market_conditions@)
        && is_ambient(conditions.last())
}

/// What it means that the week's unlocks were recorded.
pub open spec fn unlocked_step(before: GameState, after: GameState, unlocked: Seq<Action>) -> bool {
    &&& unlocked == newly_unlocked(before, UNLOCKABLE_COUNT as int)
    &&& after.unlocked_actions@ == with_kinds(before.unlocked_actions@, unlocked)
    &&& after == (GameState { unlocked_actions: after.unlocked_actions, ..before })
}

/// What it means that the week's incident trial was held: only with tech
/// debt above 80 can the count of incidents go up, and then by one.
pub open spec fn incident_step(before: GameState, after: GameState) -> bool {
    &&& after == (GameState { incident_count: after.incident_count, ..before })
    &&& {
        ||| after.incident_count == before.incident_count
        ||| before.tech_debt > INCIDENT_DEBT && before.incident_count < u32::MAX
            && after.incident_count == before.incident_count + 1
    }
}

/// Holds the week's incident trial: with tech debt above 80, one trial at
/// the chance of an incident; otherwise none.
pub fn roll_incident(state: &mut GameState, rng: &mut GameRng)
    ensures
        old(state).tech_debt <= INCIDENT_DEBT ==> *final(state) == *old(state),
        old(state).tech_debt > INCIDENT_DEBT ==> exists|held: Trial|
            held.is_held_at(INCIDENT_CHANCE as int) && *final(state) == #[trigger] after_incident(
                *old(state),
                held.hit,
            ),
        incident_step(*old(state), *final(state)),
{
    if state.tech_debt > INCIDENT_DEBT {
        let held = rng.trial(INCIDENT_CHANCE);
        record_incident(state, held.hit);
        assert(held.is_held_at(INCIDENT_CHANCE as int) && *state == after_incident(
            *old(state),
            held.hit,
        ));
    }
}

/// The state after the week's incident trial: one more incident when one
/// occurred, until the count is full.
pub open spec fn after_incident(before: GameState, occurred: bool) -> GameState {
    if occurred && before.incident_count < u32::MAX {
        GameState { incident_count: (before.incident_count + 1) as u32, ..before }
    } else {
        before
    }
}

/// Counts the incident of the week, if one occurred.
pub fn record_incident(state: &mut GameState, occurred: bool)
    ensures
        *final(state) == after_incident(*old(state), occurred),
{
    if occurred && state.incident_count < u32::MAX {
        state.incident_count = state.incident_count + 1;
    }
}

/// What it means that the week was advanced.
pub open spec fn week_step(before: GameState, after: GameState) -> bool {
    &&& after.history@ == with_snapshot(before.history@, before.week_advanced().snapshot())
    &&& after.action_history@ == trimmed_log(before.action_history@)
    &&& after == (GameState {
        history: after.history,
        action_history: after.action_history,
        ..before.week_advanced()
    })
}

/// What it means that the events for the coming week were drawn.
pub open spec fn events_step(before: GameState, after: GameState, events: Seq<GameEvent>) -> bool {
    exists|draw: EventDraw, first: int, second: int|
        draw.fits(before) && cap_fits(
            candidates(before, draw, EVENT_COUNT as int).len() as int,
            first,
            second,
        ) && #[trigger] emits(before, draw, first, second, after, events)
}

/// The states between the stages of a turn.
pub struct TurnTrace {
    pub after_actions: GameState,
    pub after_log: GameState,
    pub after_synergies: GameState,
    pub after_compounding: GameState,
    pub after_economy: GameState,
    pub after_market: GameState,
    pub after_unlocks: GameState,
    pub after_week: GameState,
    pub after_incident: GameState,
}

/// Whether the synergies are the ones that the actions set off.
pub open spec fn synergies_found(actions: Seq<Action>, found: Seq<ActionSynergy>) -> bool {
    &&& found.len() == firing(actions, SYNERGY_COUNT as int).len()
    &&& forall|i: int|
        0 <= i < found.len() ==> (#[trigger] found[i]).id == firing(actions, SYNERGY_COUNT as int)[i]
            && found[i].matches_catalog()
}

/// Whether the bonuses are the ones that the state has earned.
pub open spec fn bonuses_found(state: GameState, bonuses: Seq<CompoundingBonus>) -> bool {
    &&& bonuses.len() == earned_effects(state, COMPOUNDING_LOOKBACK as nat, EFFECT_COUNT as int).len()
    &&& forall|i: int|
        0 <= i < bonuses.len() ==> (#[trigger] bonuses[i]).effect_id == earned_effects(
            state,
            COMPOUNDING_LOOKBACK as nat,
            EFFECT_COUNT as int,
        )[i] && bonuses[i].is_earned_in(state, COMPOUNDING_LOOKBACK as nat)
}

/// Whether the warnings are the ones that the state gives.
pub open spec fn warnings_found(state: GameState, warnings: Seq<FailureWarning>) -> bool {
    &&& warnings.len() == ranked_risks(state).len()
    &&& forall|i: int|
        0 <= i < warnings.len() ==> (#[trigger] warnings[i]).describes(ranked_risks(state)[i], state)
}

/// Whether the conditions are copies of those active in the state.
pub open spec fn conditions_copied(state: GameState, conditions: Seq<MarketCondition>) -> bool {
    &&& conditions.len() == state.active_market_conditions@.len()
    &&& forall|i: int|
        0 <= i < conditions.len() ==> same_condition(
            #[trigger] conditions[i],
            state.active_market_conditions@[i],
        )
}

/// What it means that a turn ran through the pipeline: the stages follow
/// one another in the fixed order, each starting from the state that its
/// predecessor left.
pub open spec fn follows_pipeline(
    before: GameState,
    actions: Seq<Action>,
    trace: TurnTrace,
    after: GameState,
    outcome: TurnOutcome,
) -> bool {
    &&& conditions_copied(before, outcome.active_conditions@)
    &&& steps(before, actions, trace.after_actions, outcome.results@)
    &&& logged(trace.after_actions, actions, trace.after_log)
    &&& outcome.specialization == trace.after_log.specialization_path
    &&& synergies_found(actions, outcome.synergies@)
    &&& trace.after_synergies == trace.after_log.synergized(outcome.synergies@).derived()
    &&& bonuses_found(trace.after_synergies, outcome.compounding_bonuses@)
    &&& trace.after_compounding == trace.after_synergies.compounded_all(
        outcome.compounding_bonuses@,
    ).derived()
    &&& trace.after_economy == after_economy(trace.after_compounding)
    &&& market_moved(trace.after_economy, trace.after_market)
    &&& outcome.milestone == milestone_of(trace.after_market.week)
    &&& unlocked_step(trace.after_market, trace.after_unlocks, outcome.newly_unlocked@)
    &&& week_step(trace.after_unlocks, trace.after_week)
    &&& incident_step(trace.after_week, trace.after_incident)
    &&& outcome.insights@ == first_few(
        ranked_insights(baseline_in(before), trace.after_incident),
        INSIGHT_LIMIT as int,
    )
    &&& warnings_found(trace.after_incident, outcome.warnings@)
    &&& events_step(trace.after_incident, after, outcome.candidate_events@)
}

/// The first half of the pipeline: the actions, the log, the synergies and
/// the compounding bonuses.
fn play_actions(state: &mut GameState, actions: &Vec<Action>, rng: &mut GameRng) -> (played: (
    Vec<ActionResult>,
    Option<SpecializationPath>,
    Vec<ActionSynergy>,
    Vec<CompoundingBonus>,
    Ghost<TurnTrace>,
))
    ensures
        steps(*old(state), actions@, played.4@.after_actions, played.0@),
        logged(played.4@.after_actions, actions@, played.4@.after_log),
        played.1 == played.4@.after_log.specialization_path,
        synergies_found(actions@, played.2@),
        played.4@.after_synergies == played.4@.after_log.synergized(played.2@).derived(),
        bonuses_found(played.4@.after_synergies, played.3@),
        played.4@.after_compounding == played.4@.after_synergies.compounded_all(played.3@).derived(),
        *final(state) == played.4@.after_compounding,
        final(state).stats_in_range(),
        old(state).keeps_calendar(*final(state)),
        played.0@.len() == actions@.len(),
        final(state).action_history@.len() == old(state).action_history@.len() + 1,
{
    let results = resolve_actions(state, actions, rng);
    let ghost after_actions = *state;
    let path = log_actions(state, actions);
    let ghost after_log = *state;
    let synergies = check_action_synergies(actions);
    apply_synergy_bonuses(state, &synergies);
    let ghost after_synergies = *state;
    let bonuses = check_compounding_effects(state, COMPOUNDING_LOOKBACK);
    apply_compounding_bonuses(state, &bonuses);
    let ghost after_compounding = *state;
    let ghost trace = TurnTrace {
        after_actions,
        after_log,
        after_synergies,
        after_compounding,
        after_economy: after_compounding,
        after_market: after_compounding,
        after_unlocks: after_compounding,
        after_week: after_compounding,
        after_incident: after_compounding,
    };
    (results, path, synergies, bonuses, Ghost(trace))
}

/// What the second half of the pipeline reports.
struct WeekClose {
    milestone: Option<MilestoneEvent>,
    newly_unlocked: Vec<Action>,
    insights: Vec<WeeklyInsight>,
    warnings: Vec<FailureWarning>,
    candidate_events: Vec<GameEvent>,
}

/// The second half of the pipeline: the economy, the market, milestones and
/// unlocks, the advance of the week, the incident trial, the insights and
/// warnings, and the events of the coming week.
fn close_week(state: &mut GameState, baseline: &Baseline, rng: &mut GameRng) -> (closed: (
    WeekClose,
    Ghost<TurnTrace>,
))
    ensures
        closed.1@.after_compounding == *old(state),
        closed.1@.after_economy == after_economy(*old(state)),
        market_moved(closed.1@.after_economy, closed.1@.after_market),
        closed.0.milestone == milestone_of(closed.1@.after_market.week),
        unlocked_step(closed.1@.after_market, closed.1@.after_unlocks, closed.0.newly_unlocked@),
        week_step(closed.1@.after_unlocks, closed.1@.after_week),
        incident_step(closed.1@.after_week, closed.1@.after_incident),
        closed.0.insights@ == first_few(
            ranked_insights(*baseline, closed.1@.after_incident),
            INSIGHT_LIMIT as int,
        ),
        warnings_found(closed.1@.after_incident, closed.0.warnings@),
        events_step(closed.1@.after_incident, *final(state), closed.0.candidate_events@),
        final(state).stats_in_range(),
        final(state).runway_months == GameState::runway_of(final(state).bank, final(state).burn),
        closed.0.candidate_events@.len() <= WEEKLY_EVENT_CAP,
        old(state).history@.len() <= HISTORY_WEEKS ==> final(state).history@.len() <= HISTORY_WEEKS,
        old(state).action_history@.len() <= ACTION_LOG_WEEKS + 1
            ==> final(state).action_history@.len() <= ACTION_LOG_WEEKS,
        final(state).week == GameState::next_week(old(state).week),
        market_aged_once(*old(state), *final(state)),
        final(state).escape_velocity_progress == after_economy(*old(state)).escape_velocity_progress,
        forall|i: int|
            0 <= i < closed.0.candidate_events@.len() ==> old(state).event_cooldowns.remaining(
                (#[trigger] closed.0.candidate_events@[i]).id,
            ) == 0,
{
    let ghost start = *state;
    settle_economy(state);
    let ghost settled = *state;
    move_market(state, rng);
    let ghost moved = *state;
    let milestone = check_milestone_events(state);
    let unlocked = check_unlocks(state);
    unlock_actions(state, &unlocked);
    let ghost opened = *state;
    state.advance_week();
    let ghost advanced = *state;
    roll_incident(state, rng);
    let ghost rolled = *state;
    let insights = insights_since(baseline, state);
    let warnings = check_failure_warnings(state);
    let events = check_for_events(state, rng);
    proof {
        lemma_events_keep_the_week(rolled, *state, events@);
    }
    let ghost trace = TurnTrace {
        after_actions: start,
        after_log: start,
        after_synergies: start,
        after_compounding: start,
        after_economy: settled,
        after_market: moved,
        after_unlocks: opened,
        after_week: advanced,
        after_incident: rolled,
    };
    (
        WeekClose {
            milestone,
            newly_unlocked: unlocked,
            insights,
            warnings,
            candidate_events: events,
        },
        Ghost(trace),
    )
}

/// The weekly pass over the events leaves a consistent state consistent,
/// and touches neither the week, the history, the action log nor the
/// progress.
pub proof fn lemma_events_keep_the_week(before: GameState, after: GameState, events: Seq<GameEvent>)
    requires
        events_step(before, after, events),
        before.stats_in_range(),
        before.runway_months == GameState::runway_of(before.bank, before.burn),
    ensures
        after.stats_in_range(),
        after.runway_months == GameState::runway_of(after.bank, after.burn),
        after.week == before.week,
        after.history == before.history,
        after.action_history == before.action_history,
        after.active_market_conditions == before.active_market_conditions,
        after.escape_velocity_progress == before.escape_velocity_progress,
{
    let (draw, first, second) = choose|draw: EventDraw, first: int, second: int|
        draw.fits(before) && cap_fits(
            candidates(before, draw, EVENT_COUNT as int).len() as int,
            first,
            second,
        ) && #[trigger] emits(before, draw, first, second, after, events);
    let ctx = crate::events_enhanced::context_of(before, draw.picks, draw.deal_size);
    let chosen = crate::events_enhanced::emitted(
        candidates(before, draw, EVENT_COUNT as int),
        first,
        second,
    );
    lemma_automatic_keeps_the_week(before, chosen, ctx);
}

/// Effects of events change the values of stats only.
pub proof fn lemma_effects_change_stats_only(
    state: GameState,
    effects: Seq<crate::events_enhanced::EventEffect>,
    unlucky: bool,
)
    ensures
        state.differs_in_stats_only(state.affected_by(effects, unlucky)),
    decreases effects.len(),
{
    if effects.len() > 0 {
        lemma_effects_change_stats_only(state, effects.drop_last(), unlucky);
        reveal(GameState::affected);
    }
}

/// Applying automatic events leaves a consistent state consistent, and
/// touches neither the week, the history, the action log nor the progress.
pub proof fn lemma_automatic_keeps_the_week(
    state: GameState,
    chosen: Seq<crate::events_enhanced::EventId>,
    ctx: crate::events_enhanced::EventContext,
)
    requires
        state.stats_in_range(),
        state.runway_months == GameState::runway_of(state.bank, state.burn),
    ensures
        state.after_automatic(chosen, ctx).stats_in_range(),
        state.after_automatic(chosen, ctx).runway_months == GameState::runway_of(
            state.after_automatic(chosen, ctx).bank,
            state.after_automatic(chosen, ctx).burn,
        ),
        state.after_automatic(chosen, ctx).week == state.week,
        state.after_automatic(chosen, ctx).history == state.history,
        state.after_automatic(chosen, ctx).action_history == state.action_history,
        state.after_automatic(chosen, ctx).active_market_conditions
            == state.active_market_conditions,
        state.after_automatic(chosen, ctx).escape_velocity_progress
            == state.escape_velocity_progress,
    decreases chosen.len(),
{
    if chosen.len() > 0 {
        lemma_automatic_keeps_the_week(state, chosen.drop_last(), ctx);
        let before = state.after_automatic(chosen.drop_last(), ctx);
        if !chosen.last().is_dilemma() {
            lemma_effects_change_stats_only(before, chosen.last().effects_of(0, ctx), false);
        }
    }
}

/// Resolves one weekly turn.
///
/// The turn is rejected, and the state left exactly as it was, when an
/// action of a locked kind is submitted or when the actions together cost
/// more focus than there are slots. Otherwise the turn runs through the
/// pipeline in its fixed order: the actions are resolved one by one under
/// the active market conditions; the turn is entered in the action log and
/// the specialization detected; synergies are found and applied; compounding
/// bonuses are computed from the history and applied; churn, the drift of the
/// net promoter score and the gates of escape velocity follow; the market
/// conditions age and a new one may arise; milestones and unlocks are
/// checked; the week is advanced and the incident trial held; insights and
/// warnings are drawn from the state before and after; and the events for
/// the coming week are drawn, with every cooldown counting down once.
pub fn resolve_turn(
    state: &mut GameState,
    actions: &Vec<Action>,
    rng: &mut GameRng,
) -> (turn: Result<TurnOutcome, TurnRejection>)
    ensures
        turn.is_ok() <==> all_unlocked(*old(state), actions@, actions@.len() as int) && total_focus(
            actions@,
        ) <= old(state).focus_slots,
        turn.is_err() ==> *final(state) == *old(state),
        turn matches Err(TurnRejection::ActionLocked { kind }) ==> exists|i: int|
            0 <= i < actions@.len() && #[trigger] actions@[i].kind() == kind
                && !old(state).unlocked().contains(kind) && all_unlocked(*old(state), actions@, i),
        turn matches Err(TurnRejection::FocusExceeded { required, available }) ==> all_unlocked(
            *old(state),
            actions@,
            actions@.len() as int,
        ) && available == old(state).focus_slots && required == if total_focus(actions@)
            > u64::MAX {
            u64::MAX
        } else {
            total_focus(actions@) as u64
        },
        turn matches Err(e) ==> e is ActionLocked || e is FocusExceeded,
        turn matches Ok(outcome) ==> {
            &&& exists|trace: TurnTrace| #[trigger]
                follows_pipeline(*old(state), actions@, trace, *final(state), outcome)
            &&& final(state).stats_in_range()
            &&& old(state).is_consistent() ==> final(state).is_consistent()
            &&& final(state).week == GameState::next_week(old(state).week)
            &&& market_aged_once(*old(state), *final(state))
            &&& outcome.results@.len() == actions@.len()
            &&& outcome.candidate_events@.len() <= WEEKLY_EVENT_CAP
            &&& outcome.insights@.len() <= INSIGHT_LIMIT
            &&& old(state).history@.len() <= HISTORY_WEEKS ==> final(state).history@.len()
                <= HISTORY_WEEKS
            &&& !final(state).escape_velocity_progress.all_met()
                ==> final(state).escape_velocity_progress.streak_weeks == 0
            &&& forall|i: int|
                0 <= i < outcome.candidate_events@.len() ==> old(state).event_cooldowns.remaining(
                    (#[trigger] outcome.candidate_events@[i]).id,
                ) == 0
        },
{
    match validate_turn(state, actions) {
        Err(rejection) => {
            return Err(rejection);
        },
        Ok(_) => {},
    }
    let active_conditions = get_active_conditions(state);
    let baseline = take_baseline(state);
    let played = play_actions(state, actions, rng);
    let closed = close_week(state, &baseline, rng);
    let week = closed.0;
    let outcome = TurnOutcome {
        results: played.0,
        synergies: played.2,
        specialization: played.1,
        compounding_bonuses: played.3,
        active_conditions,
        milestone: week.milestone,
        newly_unlocked: week.newly_unlocked,
        insights: week.insights,
        warnings: week.warnings,
        candidate_events: week.candidate_events,
    };
    proof {
        let first = played.4@;
        let second = closed.1@;
        let trace = TurnTrace {
            after_actions: first.after_actions,
            after_log: first.after_log,
            after_synergies: first.after_synergies,
            after_compounding: first.after_compounding,
            after_economy: second.after_economy,
            after_market: second.after_market,
            after_unlocks: second.after_unlocks,
            after_week: second.after_week,
            after_incident: second.after_incident,
        };
        assert(follows_pipeline(*old(state), actions@, trace, *state, outcome));
    }
    Ok(outcome)
}

/// Resolves a dilemma: applies the option at `choice_index`. The request is
/// rejected, and the state left as it was, when the event is no dilemma or
/// has no option at that index.
pub fn apply_choice(
    state: &mut GameState,
    event: &GameEvent,
    choice_index: usize,
    rng: &mut GameRng,
) -> (applied: Result<(), TurnRejection>)
    ensures
        match event.event_type {
            EnhancedEventType::Automatic { .. } => applied == Err::<(), TurnRejection>(
                TurnRejection::NotADilemma,
            ),
            EnhancedEventType::Dilemma { choices } => if choice_index < choices@.len() {
                &&& applied.is_ok()
                &&& exists|unlucky: bool|
                    (burnout_chance(choices@[choice_index as int].effects@) <= 0 ==> !unlucky) && (
                    burnout_chance(choices@[choice_index as int].effects@) >= 1_000 ==> unlucky)
                        && *final(state) == #[trigger] old(state).affected_by(
                        choices@[choice_index as int].effects@,
                        unlucky,
                    ).derived()
                &&& final(state).stats_in_range()
            } else {
                applied == Err::<(), TurnRejection>(
                    TurnRejection::InvalidChoice { index: choice_index, options: choices@.len() as usize },
                )
            },
        },
        applied.is_err() ==> *final(state) == *old(state),
{
    match &event.event_type {
        EnhancedEventType::Dilemma { choices } => {
            if choice_index >= choices.len() {
                return Err(
                    TurnRejection::InvalidChoice { index: choice_index, options: choices.len() },
                );
            }
            crate::events_enhanced::apply_event_choice(state, &choices[choice_index], rng);
            Ok(())
        },
        EnhancedEventType::Automatic { .. } => Err(TurnRejection::NotADilemma),
    }
}

impl TurnRejection {
    /// The reason for the rejection in a few words.
    pub fn reason(&self) -> (text: String)
        ensures
            text@ == match *self {
                TurnRejection::FocusExceeded { .. } => "Not enough focus slots"@,
                TurnRejection::ActionLocked { .. } => "Action is not unlocked yet"@,
                TurnRejection::InvalidChoice { .. } => "Invalid choice index"@,
                TurnRejection::NotADilemma => "Event does not require a choice"@,
            },
    {
        match self {
            TurnRejection::FocusExceeded { .. } => "Not enough focus slots".to_string(),
            TurnRejection::ActionLocked { .. } => "Action is not unlocked yet".to_string(),
            TurnRejection::InvalidChoice { .. } => "Invalid choice index".to_string(),
            TurnRejection::NotADilemma => "Event does not require a choice".to_string(),
        }
    }
}

/// Morale at the end of a week in which a break was the only action, no
/// market condition was active and no bonus was earned, for a morale of
/// `morale` at its start: 15 more, kept within the range, and then the weekly
/// decay of 0.5 less.
pub open spec fn morale_after_break(morale: i64) -> i64 {
    bounded(
        crate::fixed::capped(
            bounded(crate::fixed::capped(morale + 15_000) as int, 0, crate::fixed::HUNDRED) - 500,
        ) as int,
        0,
        crate::fixed::HUNDRED,
    )
}

/// A break alone, resolved in a calm market, leaves the state with 15 more
/// morale and 2 points less growth.
pub proof fn lemma_break_alone(before: GameState, after: GameState, results: Seq<ActionResult>)
    requires
        steps(before, seq![Action::TakeBreak], after, results),
        before.active_market_conditions@.len() == 0,
    ensures
        after.morale == crate::fixed::capped(before.morale + 15_000),
        after.tech_debt == before.tech_debt,
        after.velocity == before.velocity,
{
    let actions = seq![Action::TakeBreak];
    assert(actions.drop_last() =~= Seq::<Action>::empty());
    assert(actions.last() == Action::TakeBreak);
    let (mid, roll) = choose|mid: GameState, roll: ActionRoll|
        steps(before, actions.drop_last(), mid, results.drop_last()) && roll.fits(
            actions.last(),
            mid,
        ) && roll.greets(actions.last(), mid, effectiveness_in(mid, actions.last()))
            && #[trigger] resolves(
            mid,
            actions.last(),
            roll,
            effectiveness_in(mid, actions.last()),
            after,
            results.last(),
        );
    assert(mid == before);
    assert(before.active_market_conditions@ =~= Seq::<MarketCondition>::empty());
    crate::market_conditions::lemma_calm_market_is_neutral(ActionType::TakeBreak);
    assert(effectiveness_in(before, Action::TakeBreak) == crate::actions::NEUTRAL);
    crate::actions::lemma_break_restores_morale(before, roll);
}

/// A week in which a break is the only action, no market condition is
/// active and neither a synergy nor a compounding bonus is earned ends with
/// the morale of [`morale_after_break`], and the snapshot of the week shows
/// it: a morale of 80 ends the week at 94.5.
pub proof fn lemma_lone_break(
    before: GameState,
    trace: TurnTrace,
    after: GameState,
    outcome: TurnOutcome,
)
    requires
        follows_pipeline(before, seq![Action::TakeBreak], trace, after, outcome),
        before.active_market_conditions@.len() == 0,
        outcome.synergies@.len() == 0,
        outcome.compounding_bonuses@.len() == 0,
    ensures
        trace.after_week.morale == morale_after_break(before.morale),
        trace.after_week.history@.len() > 0,
        trace.after_week.history@.last().morale == morale_after_break(before.morale),
        before.morale == 80_000 ==> trace.after_week.morale == 94_500,
{
    lemma_break_alone(before, trace.after_actions, outcome.results@);
    assert(trace.after_log.morale == trace.after_actions.morale);
    assert(outcome.synergies@ =~= Seq::<ActionSynergy>::empty());
    assert(trace.after_log.synergized(outcome.synergies@) == trace.after_log);
    assert(outcome.compounding_bonuses@ =~= Seq::<CompoundingBonus>::empty());
    assert(trace.after_synergies.compounded_all(outcome.compounding_bonuses@)
        == trace.after_synergies);
    assert(trace.after_compounding.morale == bounded(
        crate::fixed::capped(before.morale + 15_000) as int,
        0,
        crate::fixed::HUNDRED,
    ));
    assert(trace.after_economy.morale == trace.after_compounding.morale);
    assert(trace.after_market.morale == trace.after_compounding.morale);
    assert(trace.after_unlocks.morale == trace.after_compounding.morale);
    let advanced = trace.after_unlocks.week_advanced();
    assert(advanced.morale == morale_after_break(before.morale));
    assert(trace.after_week.history@.last() == advanced.snapshot());
}

} // verus!
