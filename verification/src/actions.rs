//! The actions a founder may commit to in a week and how each one changes the
//! company.
//!
//! Resolving an action is split in two: [`roll_action`] draws every random
//! quantity the action needs, and [`apply_action`] turns state, action and
//! draws into the new state. [`resolve_action`] is the two in sequence.
use crate::chance::GameRng;
use crate::chance::Trial;
use crate::customers::Customer;
use crate::customers::CustomerLifecycle;
use crate::customers::CustomerSegment;
use crate::fixed::bounded;
use crate::fixed::capped;
use crate::fixed::clamp;
use crate::fixed::diff;
use crate::fixed::grow_to_nearest;
use crate::fixed::grown_to_nearest;
use crate::fixed::HUNDRED;
use crate::fixed::scale;
use crate::fixed::scaled;
use crate::fixed::sum;
use crate::state::GameState;
use vstd::prelude::*;

verus! {

/// Quality level of a shipped feature.
#[derive(Debug, Clone, Copy, PartialEq, Eq, Structural)]
pub enum Quality {
    /// Ship fast: more growth, more tech debt.
    Quick,
    /// The ordinary trade-off.
    Balanced,
    /// Ship slowly: less growth, pays tech debt down.
    Polish,
}

/// Depth of a refactoring.
#[derive(Debug, Clone, Copy, PartialEq, Eq, Structural)]
pub enum RefactorDepth {
    Surface,
    Medium,
    Deep,
}

/// What an experiment probes.
#[derive(Debug, Clone, Copy, PartialEq, Eq, Structural)]
pub enum ExperimentType {
    Pricing,
    Onboarding,
    Channel,
}

/// Kind of content that is launched.
#[derive(Debug, Clone, Copy, PartialEq, Eq, Structural)]
pub enum ContentType {
    BlogPost,
    Tutorial,
    CaseStudy,
    Video,
}

/// Developer-relations events.
#[derive(Debug, Clone, Copy, PartialEq, Eq, Structural)]
pub enum DevRelEvent {
    Conference,
    Podcast,
    OpenSource,
    Workshop,
}

/// Advertising channels.
#[derive(Debug, Clone, Copy, PartialEq, Eq, Structural)]
pub enum AdChannel {
    Google,
    Social,
    Display,
    Influencer,
}

/// What a coaching session concentrates on.
#[derive(Debug, Clone, Copy, PartialEq, Eq, Structural)]
pub enum CoachingFocus {
    Skills,
    Morale,
    Alignment,
    Performance,
}

/// Why somebody is let go.
#[derive(Debug, Clone, Copy, PartialEq, Eq, Structural)]
pub enum FiringReason {
    Performance,
    Culture,
    Budget,
}

/// A player action. Money is in thousandths of a dollar.
#[derive(Debug, Clone, Copy, PartialEq, Eq, Structural)]
pub enum Action {
    ShipFeature { quality: Quality },
    RefactorCode { depth: RefactorDepth },
    RunExperiment { category: ExperimentType },
    FounderLedSales { call_count: u8 },
    ContentLaunch { content_type: ContentType },
    DevRel { event_type: DevRelEvent },
    PaidAds { budget: i64, channel: AdChannel },
    Hire,
    Coach { focus: CoachingFocus },
    Fire { reason: FiringReason },
    ComplianceWork { hours: u8 },
    IncidentResponse,
    ProcessImprovement,
    Fundraise { target: i64 },
    TakeBreak,
}

/// The quantities of the company that actions, events and bonuses act on.
#[derive(Debug, Clone, Copy, PartialEq, Eq, Structural)]
pub enum Stat {
    Morale,
    Reputation,
    TechDebt,
    Velocity,
    Wau,
    WauGrowth,
    Mrr,
    Burn,
    Bank,
    FounderEquity,
    ChurnRate,
    Focus,
    ComplianceRisk,
    Nps,
    /// Accepting an exit: ends the game as a win.
    GameEnd,
    /// A chance, in percent, of immediate founder burnout.
    BurnoutRisk,
    /// A reduction of the weekly morale decay.
    MoraleDecay,
}

/// One stat change made by an action, in thousandths.
#[derive(Debug, Clone, Copy, PartialEq, Eq, Structural)]
pub struct StatEffect {
    pub stat: Stat,
    pub old_value: i64,
    pub new_value: i64,
    pub delta: i64,
}

/// What resolving one action did.
#[derive(Debug, Clone)]
pub struct ActionResult {
    pub success: bool,
    /// The outcome in a few words; the numbers are in `effects`.
    pub message: String,
    pub effects: Vec<StatEffect>,
}

impl Action {
    /// Focus slots that the action takes.
    pub open spec fn cost(self) -> u8 {
        match self {
            Action::RefactorCode { depth: RefactorDepth::Deep } => 2,
            Action::DevRel { .. } => 2,
            Action::Hire => 2,
            Action::IncidentResponse => 2,
            Action::Fundraise { .. } => 2,
            _ => 1,
        }
    }

    /// Focus slots that the action takes: two for a deep refactoring, a
    /// developer-relations event, a hire, an incident response and a
    /// fundraise, one for everything else.
    pub fn focus_cost(&self) -> (slots: u8)
        ensures
            slots == self.cost(),
            1 <= slots <= 2,
    {
        match self {
            Action::ShipFeature { .. } => 1,
            Action::RefactorCode { depth } => match depth {
                RefactorDepth::Surface => 1,
                RefactorDepth::Medium => 1,
                RefactorDepth::Deep => 2,
            },
            Action::RunExperiment { .. } => 1,
            Action::FounderLedSales { .. } => 1,
            Action::ContentLaunch { .. } => 1,
            Action::DevRel { .. } => 2,
            Action::PaidAds { .. } => 1,
            Action::Hire => 2,
            Action::Coach { .. } => 1,
            Action::Fire { .. } => 1,
            Action::ComplianceWork { .. } => 1,
            Action::IncidentResponse => 2,
            Action::ProcessImprovement => 1,
            Action::Fundraise { .. } => 2,
            Action::TakeBreak => 1,
        }
    }
}

/// How the amount of a change acts on its stat.
#[derive(Debug, Clone, Copy, PartialEq, Eq, Structural)]
pub enum ChangeKind {
    /// The amount is added.
    Increase,
    /// The stat grows by the amount taken as a percentage.
    Grow,
    /// The stat takes the amount as its new value.
    Assign,
}

/// One change that an action makes to one stat.
#[derive(Debug, Clone, Copy, PartialEq, Eq, Structural)]
pub struct Change {
    pub stat: Stat,
    pub kind: ChangeKind,
    pub amount: i64,
}

/// A closed deal: its monthly revenue and the satisfaction the customer
/// starts with.
#[derive(Debug, Clone, Copy, PartialEq, Eq, Structural)]
pub struct Deal {
    pub size: i64,
    pub satisfaction: i64,
}

/// What is drawn for one customer whom a feature, content, developer
/// relations or advertising wins.
#[derive(Debug, Clone, Copy, PartialEq, Eq, Structural)]
pub struct Welcome {
    /// The chance, per mille, at which the customer's segment was tried.
    pub chance: i64,
    /// Whether the customer is self-serve; a small business otherwise.
    pub self_serve: bool,
    pub satisfaction: i64,
}

/// Every random quantity that resolving one action needs.
///
/// `success` is the outcome of the action's Bernoulli trial (an experiment,
/// a fundraise). `first`, `second` and `third` are the action's jittered
/// magnitudes or jitter factors. `deals` holds one entry for each sales call
/// that converted, `welcomes` one for each customer that another action
/// wins.
#[derive(Debug, Clone)]
pub struct ActionRoll {
    /// The chance, per mille, at which the action's trial was held; for
    /// sales calls, the chance of each call.
    pub chance: i64,
    pub success: bool,
    pub first: i64,
    pub second: i64,
    pub third: i64,
    pub deals: Vec<Deal>,
    pub welcomes: Vec<Welcome>,
}

/// Outcome of an experiment: whether it succeeded and the changes it makes.
#[derive(Debug, Clone)]
pub struct ExperimentResult {
    pub success: bool,
    pub changes: Vec<Change>,
}

/// Chance, per mille, that an experiment succeeds.
pub const EXPERIMENT_CHANCE: i64 = 600;

/// Neutral effectiveness: magnitudes are taken as they are.
pub const NEUTRAL: i64 = 1_000;

/// A magnitude under a market effectiveness (thousandths).
pub open spec fn tuned(amount: int, effectiveness: i64) -> i64 {
    scaled(amount, effectiveness as int, 1_000)
}

/// `amount * factor` for a jitter factor in thousandths.
pub open spec fn jittered(amount: int, factor: i64) -> i64 {
    scaled(amount, factor as int, 1_000)
}

/// `-x`, capped.
pub open spec fn negated(x: i64) -> i64 {
    capped(-x)
}

pub open spec fn added(stat: Stat, amount: i64) -> Change {
    Change { stat, kind: ChangeKind::Increase, amount }
}

pub open spec fn within(x: i64, low: int, high: int) -> bool {
    low <= x <= high
}

/// Probability, per mille, that one sales call converts:
/// `0.05 + reputation / 200`.
pub open spec fn conversion_chance(reputation: i64) -> i64 {
    capped(50 + scaled(reputation as int, 1, 200))
}

/// Probability, per mille, that a fundraise succeeds, before it is limited:
/// `0.3 + reputation / 200 + momentum / 100`.
pub open spec fn fundraise_chance_raw(reputation: i64, momentum: i64) -> i64 {
    capped(capped(300 + scaled(reputation as int, 1, 200)) + scaled(momentum as int, 1, 100))
}

/// Probability, per mille, that a fundraise succeeds: the raw chance kept
/// within `[0, 0.8]`.
pub open spec fn fundraise_chance(reputation: i64, momentum: i64) -> i64 {
    bounded(fundraise_chance_raw(reputation, momentum) as int, 0, 800)
}

/// Founder equity, in percent, that raising `target` costs:
/// `target / 5,000,000 * 20`.
pub open spec fn dilution(target: i64) -> i64 {
    scaled(target as int, 1, 250_000)
}

/// Tech debt paid down and velocity gained by a refactoring, for jitter
/// factors `debt_jitter` and `velocity_jitter`. The base reduction is 10, 20
/// or 35 by depth, a fifth more when debt is above 50; the base gain is 0.05,
/// 0.12 or 0.2.
pub open spec fn refactor_impact(
    depth: RefactorDepth,
    current_debt: i64,
    debt_jitter: i64,
    velocity_jitter: i64,
) -> (i64, i64) {
    let base: int = match depth {
        RefactorDepth::Surface => 10_000,
        RefactorDepth::Medium => 20_000,
        RefactorDepth::Deep => 35_000,
    };
    let by_debt: int = if current_debt > 50_000 {
        1_200
    } else {
        1_000
    };
    let gain: int = match depth {
        RefactorDepth::Surface => 50,
        RefactorDepth::Medium => 120,
        RefactorDepth::Deep => 200,
    };
    (jittered(scaled(base, by_debt, 1_000) as int, debt_jitter), jittered(gain, velocity_jitter))
}

/// Morale that a refactoring costs before jitter: 2, 5 or 10.
pub open spec fn refactor_effort(depth: RefactorDepth) -> int {
    match depth {
        RefactorDepth::Surface => 2_000,
        RefactorDepth::Medium => 5_000,
        RefactorDepth::Deep => 10_000,
    }
}

/// Users and reputation gained by a content launch. The base reach is 2, 4,
/// 3 or 5 users, multiplied by `0.8 + reputation / 100`; the base reputation
/// gain is 2, 3, 4 or 5.
pub open spec fn content_reach(
    content_type: ContentType,
    reputation: i64,
    reach_jitter: i64,
    reputation_jitter: i64,
) -> (i64, i64) {
    let reach: int = match content_type {
        ContentType::BlogPost => 2_000,
        ContentType::Tutorial => 4_000,
        ContentType::CaseStudy => 3_000,
        ContentType::Video => 5_000,
    };
    let gain: int = match content_type {
        ContentType::BlogPost => 2_000,
        ContentType::Tutorial => 3_000,
        ContentType::CaseStudy => 4_000,
        ContentType::Video => 5_000,
    };
    (
        jittered(
            scaled(reach, capped(800 + scaled(reputation as int, 1, 100)) as int, 1_000) as int,
            reach_jitter,
        ),
        jittered(gain, reputation_jitter),
    )
}

/// Market saturation that advertising meets, in percent.
pub const MARKET_SATURATION: i64 = 20_000;

/// Users gained by advertising: the channel's effectiveness (0.8, 1.0, 0.6
/// or 1.2), less the market saturation, times the budget in units of
/// $10,000.
pub open spec fn ad_effectiveness(
    channel: AdChannel,
    budget: i64,
    market_saturation: i64,
    jitter: i64,
) -> i64 {
    let base: int = match channel {
        AdChannel::Google => 800,
        AdChannel::Social => 1_000,
        AdChannel::Display => 600,
        AdChannel::Influencer => 1_200,
    };
    scaled(
        jittered(
            scaled(base, capped(1_000 - scaled(market_saturation as int, 1, 100)) as int, 1_000) as int,
            jitter,
        ) as int,
        budget as int,
        10_000_000,
    )
}

/// Sum of the deal sizes, capped.
pub open spec fn deals_total(deals: Seq<Deal>) -> i64
    decreases deals.len(),
{
    if deals.len() == 0 {
        0
    } else {
        capped(deals_total(deals.drop_last()) + deals.last().size)
    }
}

/// The customers that the deals bring, in the order of the deals.
pub open spec fn deal_customers(deals: Seq<Deal>, week: u32) -> Seq<Customer> {
    Seq::new(
        deals.len(),
        |i: int|
            crate::customers::signed_customer(
                crate::customers::segment_of(deals[i].size),
                week,
                deals[i].satisfaction,
                deals[i].size,
            ),
    )
}

/// The changes of an experiment. A success raises revenue by 5 percent
/// (pricing), raises users by 3 percent and lowers churn by a twentieth
/// (onboarding), or raises reputation by 5 (channel), each times the jitter
/// factor; a failure costs 2 morale.
pub open spec fn experiment_changes(
    category: ExperimentType,
    state: GameState,
    success: bool,
    jitter: i64,
    effectiveness: i64,
) -> Seq<Change> {
    if success {
        match category {
            ExperimentType::Pricing => seq![
                added(
                    Stat::Mrr,
                    tuned(jittered(scaled(state.mrr as int, 50, 1_000) as int, jitter) as int, effectiveness),
                ),
            ],
            ExperimentType::Onboarding => seq![
                added(
                    Stat::Wau,
                    tuned(
                        jittered(scaled(state.stat(Stat::Wau) as int, 30, 1_000) as int, jitter) as int,
                        effectiveness,
                    ),
                ),
                added(
                    Stat::ChurnRate,
                    tuned(negated(scaled(state.churn_rate as int, 50, 1_000)) as int, effectiveness),
                ),
            ],
            ExperimentType::Channel => seq![
                added(Stat::Reputation, tuned(jittered(5_000, jitter) as int, effectiveness)),
            ],
        }
    } else {
        seq![added(Stat::Morale, tuned(-2_000, effectiveness))]
    }
}

impl ActionRoll {
    /// The action's trial as it was held.
    pub open spec fn trial(self) -> Trial {
        Trial { chance: self.chance, hit: self.success }
    }

    /// Whether the draws are ones that [`roll_action`] can make for the
    /// action in the state: every magnitude within its range (for a shipped
    /// feature's growth the range of whole thousandths below the upper end),
    /// every jitter factor within its band, a trial held at the chance that
    /// the action has in the state, and at most one deal for each sales
    /// call.
    pub open spec fn fits(self, action: Action, state: GameState) -> bool {
        match action {
            Action::ShipFeature { quality } => match quality {
                Quality::Quick => within(self.first, 1_500, 4_499) && within(
                    self.second,
                    4_000,
                    8_000,
                ) && within(self.third, -1_500, -500),
                Quality::Balanced => within(self.first, 2_500, 5_499) && within(
                    self.second,
                    1_000,
                    3_000,
                ) && within(self.third, 500, 1_500),
                Quality::Polish => within(self.first, 1_000, 2_999) && within(
                    self.second,
                    -4_000,
                    -2_000,
                ) && within(self.third, 2_000, 4_000),
            },
            Action::RefactorCode { .. } => within(self.first, 800, 1_200) && within(
                self.second,
                900,
                1_100,
            ) && within(self.third, 900, 1_100),
            Action::RunExperiment { .. } => self.trial().is_held_at(EXPERIMENT_CHANCE as int)
                && within(self.first, 800, 1_200),
            Action::FounderLedSales { call_count } => {
                &&& self.deals@.len() <= call_count
                &&& call_count > 0 ==> self.chance == bounded(
                    conversion_chance(state.reputation) as int,
                    0,
                    1_000,
                )
                &&& conversion_chance(state.reputation) <= 0 ==> self.deals@.len() == 0
                &&& conversion_chance(state.reputation) >= 1_000 ==> self.deals@.len() == call_count
                &&& forall|i: int|
                    0 <= i < self.deals@.len() ==> within(
                        (#[trigger] self.deals@[i]).size,
                        400_000,
                        600_000,
                    ) && within(self.deals@[i].satisfaction, 65_000, 90_000)
            },
            Action::ContentLaunch { .. } => within(self.first, 800, 1_200) && within(
                self.second,
                900,
                1_100,
            ),
            Action::DevRel { .. } => within(self.first, 900, 1_100) && within(
                self.second,
                800,
                1_200,
            ) && within(self.third, 900, 1_100),
            Action::PaidAds { .. } => within(self.first, 800, 1_200),
            Action::Hire => true,
            Action::Coach { .. } => within(self.first, 900, 1_100) && within(
                self.second,
                900,
                1_100,
            ),
            Action::Fire { .. } => within(self.first, 800, 1_200),
            Action::ComplianceWork { .. } => within(self.first, 900, 1_100) && within(
                self.second,
                900,
                1_100,
            ),
            Action::IncidentResponse => within(self.first, 800, 1_200) && within(
                self.second,
                900,
                1_100,
            ),
            Action::ProcessImprovement => within(self.first, 900, 1_100) && within(
                self.second,
                900,
                1_100,
            ),
            Action::Fundraise { .. } => self.trial().is_held_at(
                fundraise_chance(state.reputation, state.momentum) as int,
            ),
            Action::TakeBreak => true,
        }
    }
}

/// The changes that an action makes, in the order in which they are made,
/// for the given draws and market effectiveness. Every magnitude is
/// multiplied by the effectiveness.
#[verifier::opaque]
pub open spec fn planned(
    state: GameState,
    action: Action,
    roll: ActionRoll,
    effectiveness: i64,
) -> Seq<Change> {
    let e = effectiveness;
    match action {
        Action::ShipFeature { .. } => {
            let debt_change = tuned(roll.second as int, e);
            seq![
                Change { stat: Stat::Wau, kind: ChangeKind::Grow, amount: tuned(roll.first as int, e) },
                added(Stat::TechDebt, debt_change),
                added(Stat::Morale, tuned(roll.third as int, e)),
                Change {
                    stat: Stat::Velocity,
                    kind: ChangeKind::Assign,
                    amount: capped(1_000 - scaled(capped(state.tech_debt + debt_change) as int, 1, 200)),
                },
            ]
        },
        Action::FounderLedSales { call_count } => seq![
            added(Stat::Mrr, tuned(deals_total(roll.deals@) as int, e)),
            added(Stat::Morale, tuned(negated((call_count * 500) as i64) as int, e)),
            added(Stat::Reputation, tuned(1_000, e)),
        ],
        Action::Hire => seq![
            added(Stat::Burn, tuned(10_000_000, e)),
            added(Stat::Velocity, tuned(100, e)),
            added(Stat::Morale, tuned(5_000, e)),
        ],
        Action::Fundraise { target } => if roll.success {
            seq![
                added(Stat::Bank, tuned(target as int, e)),
                added(Stat::FounderEquity, tuned(negated(dilution(target)) as int, e)),
            ]
        } else {
            seq![added(Stat::Morale, tuned(-10_000, e))]
        },
        Action::RefactorCode { depth } => {
            let impact = refactor_impact(depth, state.tech_debt, roll.first, roll.second);
            seq![
                added(Stat::TechDebt, tuned(negated(impact.0) as int, e)),
                added(Stat::Velocity, tuned(impact.1 as int, e)),
                added(Stat::Morale, tuned(negated(jittered(refactor_effort(depth), roll.third)) as int, e)),
            ]
        },
        Action::RunExperiment { category } => experiment_changes(
            category,
            state,
            roll.success,
            roll.first,
            e,
        ),
        Action::ContentLaunch { content_type } => {
            let reach = content_reach(content_type, state.reputation, roll.first, roll.second);
            seq![
                added(Stat::Wau, tuned(reach.0 as int, e)),
                added(Stat::Reputation, tuned(reach.1 as int, e)),
            ]
        },
        Action::DevRel { event_type } => {
            let base: int = match event_type {
                DevRelEvent::Conference => 12_000,
                DevRelEvent::Podcast => 8_000,
                DevRelEvent::OpenSource => 6_000,
                DevRelEvent::Workshop => 10_000,
            };
            let gain = jittered(base, roll.first);
            seq![
                added(Stat::Reputation, tuned(gain as int, e)),
                added(
                    Stat::Wau,
                    tuned(jittered(scaled(gain as int, 500, 1_000) as int, roll.second) as int, e),
                ),
                added(Stat::Morale, tuned(jittered(5_000, roll.third) as int, e)),
            ]
        },
        Action::PaidAds { budget, channel } => seq![
            added(
                Stat::Wau,
                tuned(ad_effectiveness(channel, budget, MARKET_SATURATION, roll.first) as int, e),
            ),
            added(Stat::Bank, tuned(negated(budget) as int, e)),
        ],
        Action::Coach { focus } => {
            let base: (int, int) = match focus {
                CoachingFocus::Skills => (80, 2_000),
                CoachingFocus::Morale => (20, 8_000),
                CoachingFocus::Alignment => (50, 4_000),
                CoachingFocus::Performance => (100, 3_000),
            };
            seq![
                added(Stat::Velocity, tuned(jittered(base.0, roll.first) as int, e)),
                added(Stat::Morale, tuned(jittered(base.1, roll.second) as int, e)),
            ]
        },
        Action::Fire { reason } => {
            let hit: (int, int) = match reason {
                FiringReason::Performance => (-8_000, -50),
                FiringReason::Culture => (-12_000, -80),
                FiringReason::Budget => (-5_000, -20),
            };
            seq![
                added(Stat::Burn, tuned(negated(jittered(8_000_000, roll.first)) as int, e)),
                added(Stat::Morale, tuned(hit.0, e)),
                added(Stat::Velocity, tuned(hit.1, e)),
            ]
        },
        Action::ComplianceWork { hours } => seq![
            added(Stat::ComplianceRisk, tuned(negated(jittered(hours * 2_000, roll.first)) as int, e)),
            added(Stat::Morale, tuned(negated(jittered(hours * 300, roll.second)) as int, e)),
        ],
        Action::IncidentResponse => seq![
            added(Stat::Reputation, tuned(negated(jittered(5_000, roll.first)) as int, e)),
            added(Stat::Morale, tuned(negated(jittered(15_000, roll.second)) as int, e)),
        ],
        Action::ProcessImprovement => seq![
            added(Stat::Velocity, tuned(jittered(80, roll.first) as int, e)),
            added(Stat::Morale, tuned(jittered(3_000, roll.second) as int, e)),
        ],
        Action::TakeBreak => seq![
            added(Stat::Morale, tuned(15_000, e)),
            added(Stat::WauGrowth, tuned(-2_000, e)),
        ],
    }
}

/// Whether the action counts as a success: sales that closed a deal, a
/// fundraise or an experiment whose trial succeeded, advertising that won
/// users, and every other action always.
#[verifier::opaque]
pub open spec fn succeeded(
    state: GameState,
    action: Action,
    roll: ActionRoll,
    effectiveness: i64,
) -> bool {
    match action {
        Action::FounderLedSales { .. } => tuned(deals_total(roll.deals@) as int, effectiveness) > 0,
        Action::Fundraise { .. } => roll.success,
        Action::RunExperiment { .. } => roll.success,
        Action::PaidAds { budget, channel } => tuned(
            ad_effectiveness(channel, budget, MARKET_SATURATION, roll.first) as int,
            effectiveness,
        ) > 0,
        _ => true,
    }
}

impl GameState {
    /// The state after one change.
    #[verifier::opaque]
    pub open spec fn altered(self, change: Change) -> GameState {
        match change.kind {
            ChangeKind::Increase => self.raised(change.stat, change.amount),
            ChangeKind::Grow => match change.stat {
                Stat::Wau => GameState {
                    wau: grown_to_nearest(self.wau, change.amount as int),
                    ..self
                },
                _ => self.multiplied(change.stat, capped(1_000 + scaled(change.amount as int, 1, 100))),
            },
            ChangeKind::Assign => self.raised(
                change.stat,
                capped(change.amount - self.stat(change.stat)),
            ),
        }
    }

    /// The state after each of the changes in turn.
    pub open spec fn altered_by(self, changes: Seq<Change>) -> GameState
        decreases changes.len(),
    {
        if changes.len() == 0 {
            self
        } else {
            self.altered_by(changes.drop_last()).altered(changes.last())
        }
    }

    /// The record of one change made in this state: the stat's value before
    /// and after, and the difference between the two.
    pub open spec fn record_of(self, change: Change) -> StatEffect {
        let old_value = self.stat(change.stat);
        let new_value = self.altered(change).stat(change.stat);
        StatEffect {
            stat: change.stat,
            old_value,
            new_value,
            delta: capped(new_value - old_value),
        }
    }

    /// The records of the changes made in turn, starting from this state.
    pub open spec fn records_of(self, changes: Seq<Change>) -> Seq<StatEffect>
        decreases changes.len(),
    {
        if changes.len() == 0 {
            Seq::<StatEffect>::empty()
        } else {
            self.records_of(changes.drop_last()).push(
                self.altered_by(changes.drop_last()).record_of(changes.last()),
            )
        }
    }

    /// Makes one change and reports it.
    pub fn alter(&mut self, change: Change) -> (effect: StatEffect)
        ensures
            *final(self) == old(self).altered(change),
            effect == old(self).record_of(change),
            old(self).differs_in_stats_only(*final(self)),
    {
        reveal(GameState::altered);
        let old_value = self.stat_value(change.stat);
        match change.kind {
            ChangeKind::Increase => {
                self.raise_stat(change.stat, change.amount);
            },
            ChangeKind::Grow => match change.stat {
                Stat::Wau => {
                    self.wau = grow_to_nearest(self.wau, change.amount);
                },
                _ => {
                    self.multiply_stat(change.stat, sum(1_000, scale(change.amount, 1, 100)));
                },
            },
            ChangeKind::Assign => {
                self.raise_stat(change.stat, diff(change.amount, old_value));
            },
        }
        let new_value = self.stat_value(change.stat);
        StatEffect { stat: change.stat, old_value, new_value, delta: diff(new_value, old_value) }
    }

    /// Makes the changes in order and reports each one.
    pub fn alter_all(&mut self, changes: &Vec<Change>) -> (effects: Vec<StatEffect>)
        ensures
            *final(self) == old(self).altered_by(changes@),
            effects@ == old(self).records_of(changes@),
            old(self).differs_in_stats_only(*final(self)),
    {
        let mut effects: Vec<StatEffect> = Vec::new();
        let mut i: usize = 0;
        while i < changes.len()
            invariant
                i <= changes.len(),
                *self == old(self).altered_by(changes@.take(i as int)),
                effects@ == old(self).records_of(changes@.take(i as int)),
                old(self).differs_in_stats_only(*self),
            decreases changes.len() - i,
        {
            assert(changes@.take(i + 1).drop_last() =~= changes@.take(i as int));
            assert(changes@.take(i + 1).last() == changes@[i as int]);
            let effect = self.alter(changes[i]);
            effects.push(effect);
            i = i + 1;
        }
        assert(changes@.take(i as int) =~= changes@);
        effects
    }
}

/// A magnitude under a market effectiveness.
pub fn tune(amount: i64, effectiveness: i64) -> (r: i64)
    ensures
        r == tuned(amount as int, effectiveness),
{
    scale(amount, effectiveness, 1_000)
}

/// A magnitude times a jitter factor.
pub fn jitter(amount: i64, factor: i64) -> (r: i64)
    ensures
        r == jittered(amount as int, factor),
{
    scale(amount, factor, 1_000)
}

/// The negative of a value, capped.
pub fn negate(x: i64) -> (r: i64)
    ensures
        r == negated(x),
{
    diff(0, x)
}

fn add_to(stat: Stat, amount: i64) -> (change: Change)
    ensures
        change == added(stat, amount),
{
    Change { stat, kind: ChangeKind::Increase, amount }
}

/// Probability, per mille, that a fundraise succeeds at the given reputation
/// and momentum: `0.3 + reputation / 200 + momentum / 100`, kept within
/// `[0, 0.8]`.
pub fn fundraise_success_chance(reputation: i64, momentum: i64) -> (per_mille: i64)
    ensures
        per_mille == fundraise_chance(reputation, momentum),
        0 <= per_mille <= 800,
{
    let raw = sum(sum(300, scale(reputation, 1, 200)), scale(momentum, 1, 100));
    clamp(raw, 0, 800)
}

/// Probability, per mille, that one sales call converts at the given
/// reputation: `0.05 + reputation / 200`.
pub fn sales_conversion_chance(reputation: i64) -> (per_mille: i64)
    ensures
        per_mille == conversion_chance(reputation),
{
    sum(50, scale(reputation, 1, 200))
}

/// Tech debt paid down and velocity gained by a refactoring of the given
/// depth at the given debt, for the two jitter factors.
pub fn calculate_refactor_impact(
    depth: &RefactorDepth,
    current_debt: i64,
    debt_jitter: i64,
    velocity_jitter: i64,
) -> (impact: (i64, i64))
    ensures
        impact == refactor_impact(*depth, current_debt, debt_jitter, velocity_jitter),
{
    let base: i64 = match depth {
        RefactorDepth::Surface => 10_000,
        RefactorDepth::Medium => 20_000,
        RefactorDepth::Deep => 35_000,
    };
    let by_debt: i64 = if current_debt > 50_000 {
        1_200
    } else {
        1_000
    };
    let gain: i64 = match depth {
        RefactorDepth::Surface => 50,
        RefactorDepth::Medium => 120,
        RefactorDepth::Deep => 200,
    };
    (jitter(scale(base, by_debt, 1_000), debt_jitter), jitter(gain, velocity_jitter))
}

/// Users and reputation gained by a content launch at the given reputation,
/// for the two jitter factors.
pub fn calculate_content_reach(
    content_type: &ContentType,
    reputation: i64,
    reach_jitter: i64,
    reputation_jitter: i64,
) -> (reach: (i64, i64))
    ensures
        reach == content_reach(*content_type, reputation, reach_jitter, reputation_jitter),
{
    let base: i64 = match content_type {
        ContentType::BlogPost => 2_000,
        ContentType::Tutorial => 4_000,
        ContentType::CaseStudy => 3_000,
        ContentType::Video => 5_000,
    };
    let gain: i64 = match content_type {
        ContentType::BlogPost => 2_000,
        ContentType::Tutorial => 3_000,
        ContentType::CaseStudy => 4_000,
        ContentType::Video => 5_000,
    };
    let by_reputation = sum(800, scale(reputation, 1, 100));
    (jitter(scale(base, by_reputation, 1_000), reach_jitter), jitter(gain, reputation_jitter))
}

/// Users gained by advertising on a channel with a budget, at a market
/// saturation in percent, for a jitter factor.
pub fn calculate_ad_effectiveness(
    channel: &AdChannel,
    budget: i64,
    market_saturation: i64,
    jitter_factor: i64,
) -> (users: i64)
    ensures
        users == ad_effectiveness(*channel, budget, market_saturation, jitter_factor),
{
    let base: i64 = match channel {
        AdChannel::Google => 800,
        AdChannel::Social => 1_000,
        AdChannel::Display => 600,
        AdChannel::Influencer => 1_200,
    };
    let unsaturated = diff(1_000, scale(market_saturation, 1, 100));
    scale(jitter(scale(base, unsaturated, 1_000), jitter_factor), budget, 10_000_000)
}

/// The outcome of an experiment whose trial came out as `success`, for a
/// jitter factor and a market effectiveness.
pub fn calculate_experiment_outcome(
    category: &ExperimentType,
    state: &GameState,
    success: bool,
    jitter_factor: i64,
    effectiveness: i64,
) -> (outcome: ExperimentResult)
    ensures
        outcome.success == success,
        outcome.changes@ == experiment_changes(
            *category,
            *state,
            success,
            jitter_factor,
            effectiveness,
        ),
{
    let changes = if success {
        match category {
            ExperimentType::Pricing => vec![
                add_to(
                    Stat::Mrr,
                    tune(jitter(scale(state.mrr, 50, 1_000), jitter_factor), effectiveness),
                ),
            ],
            ExperimentType::Onboarding => vec![
                add_to(
                    Stat::Wau,
                    tune(
                        jitter(scale(state.stat_value(Stat::Wau), 30, 1_000), jitter_factor),
                        effectiveness,
                    ),
                ),
                add_to(
                    Stat::ChurnRate,
                    tune(negate(scale(state.churn_rate, 50, 1_000)), effectiveness),
                ),
            ],
            ExperimentType::Channel => vec![
                add_to(Stat::Reputation, tune(jitter(5_000, jitter_factor), effectiveness)),
            ],
        }
    } else {
        vec![add_to(Stat::Morale, tune(-2_000, effectiveness))]
    };
    ExperimentResult { success, changes }
}

/// Sum of the deal sizes, capped.
pub fn total_deals(deals: &Vec<Deal>) -> (total: i64)
    ensures
        total == deals_total(deals@),
{
    let mut total: i64 = 0;
    let mut i: usize = 0;
    while i < deals.len()
        invariant
            i <= deals.len(),
            total == deals_total(deals@.take(i as int)),
        decreases deals.len() - i,
    {
        assert(deals@.take(i + 1).drop_last() =~= deals@.take(i as int));
        total = sum(total, deals[i].size);
        i = i + 1;
    }
    assert(deals@.take(i as int) =~= deals@);
    total
}

/// The changes that the action makes for the given draws and effectiveness.
pub fn plan_action(
    state: &GameState,
    action: &Action,
    roll: &ActionRoll,
    effectiveness: i64,
) -> (changes: Vec<Change>)
    ensures
        changes@ == planned(*state, *action, *roll, effectiveness),
{
    reveal(planned);
    let e = effectiveness;
    match action {
        Action::ShipFeature { .. } => {
            let debt_change = tune(roll.second, e);
            let debt = sum(state.tech_debt, debt_change);
            vec![
                Change { stat: Stat::Wau, kind: ChangeKind::Grow, amount: tune(roll.first, e) },
                add_to(Stat::TechDebt, debt_change),
                add_to(Stat::Morale, tune(roll.third, e)),
                Change {
                    stat: Stat::Velocity,
                    kind: ChangeKind::Assign,
                    amount: diff(1_000, scale(debt, 1, 200)),
                },
            ]
        },
        Action::FounderLedSales { call_count } => {
            let effort: i64 = negate(*call_count as i64 * 500);
            vec![
                add_to(Stat::Mrr, tune(total_deals(&roll.deals), e)),
                add_to(Stat::Morale, tune(effort, e)),
                add_to(Stat::Reputation, tune(1_000, e)),
            ]
        },
        Action::Hire => vec![
            add_to(Stat::Burn, tune(10_000_000, e)),
            add_to(Stat::Velocity, tune(100, e)),
            add_to(Stat::Morale, tune(5_000, e)),
        ],
        Action::Fundraise { target } => if roll.success {
            vec![
                add_to(Stat::Bank, tune(*target, e)),
                add_to(Stat::FounderEquity, tune(negate(scale(*target, 1, 250_000)), e)),
            ]
        } else {
            vec![add_to(Stat::Morale, tune(-10_000, e))]
        },
        Action::RefactorCode { depth } => {
            let impact = calculate_refactor_impact(depth, state.tech_debt, roll.first, roll.second);
            let effort: i64 = match depth {
                RefactorDepth::Surface => 2_000,
                RefactorDepth::Medium => 5_000,
                RefactorDepth::Deep => 10_000,
            };
            vec![
                add_to(Stat::TechDebt, tune(negate(impact.0), e)),
                add_to(Stat::Velocity, tune(impact.1, e)),
                add_to(Stat::Morale, tune(negate(jitter(effort, roll.third)), e)),
            ]
        },
        Action::RunExperiment { category } => {
            let outcome = calculate_experiment_outcome(category, state, roll.success, roll.first, e);
            outcome.changes
        },
        Action::ContentLaunch { content_type } => {
            let reach = calculate_content_reach(
                content_type,
                state.reputation,
                roll.first,
                roll.second,
            );
            vec![add_to(Stat::Wau, tune(reach.0, e)), add_to(Stat::Reputation, tune(reach.1, e))]
        },
        Action::DevRel { event_type } => {
            let base: i64 = match event_type {
                DevRelEvent::Conference => 12_000,
                DevRelEvent::Podcast => 8_000,
                DevRelEvent::OpenSource => 6_000,
                DevRelEvent::Workshop => 10_000,
            };
            let gain = jitter(base, roll.first);
            vec![
                add_to(Stat::Reputation, tune(gain, e)),
                add_to(Stat::Wau, tune(jitter(scale(gain, 500, 1_000), roll.second), e)),
                add_to(Stat::Morale, tune(jitter(5_000, roll.third), e)),
            ]
        },
        Action::PaidAds { budget, channel } => vec![
            add_to(
                Stat::Wau,
                tune(calculate_ad_effectiveness(channel, *budget, MARKET_SATURATION, roll.first), e),
            ),
            add_to(Stat::Bank, tune(negate(*budget), e)),
        ],
        Action::Coach { focus } => {
            let base: (i64, i64) = match focus {
                CoachingFocus::Skills => (80, 2_000),
                CoachingFocus::Morale => (20, 8_000),
                CoachingFocus::Alignment => (50, 4_000),
                CoachingFocus::Performance => (100, 3_000),
            };
            vec![
                add_to(Stat::Velocity, tune(jitter(base.0, roll.first), e)),
                add_to(Stat::Morale, tune(jitter(base.1, roll.second), e)),
            ]
        },
        Action::Fire { reason } => {
            let hit: (i64, i64) = match reason {
                FiringReason::Performance => (-8_000, -50),
                FiringReason::Culture => (-12_000, -80),
                FiringReason::Budget => (-5_000, -20),
            };
            vec![
                add_to(Stat::Burn, tune(negate(jitter(8_000_000, roll.first)), e)),
                add_to(Stat::Morale, tune(hit.0, e)),
                add_to(Stat::Velocity, tune(hit.1, e)),
            ]
        },
        Action::ComplianceWork { hours } => vec![
            add_to(Stat::ComplianceRisk, tune(negate(jitter(*hours as i64 * 2_000, roll.first)), e)),
            add_to(Stat::Morale, tune(negate(jitter(*hours as i64 * 300, roll.second)), e)),
        ],
        Action::IncidentResponse => vec![
            add_to(Stat::Reputation, tune(negate(jitter(5_000, roll.first)), e)),
            add_to(Stat::Morale, tune(negate(jitter(15_000, roll.second)), e)),
        ],
        Action::ProcessImprovement => vec![
            add_to(Stat::Velocity, tune(jitter(80, roll.first), e)),
            add_to(Stat::Morale, tune(jitter(3_000, roll.second), e)),
        ],
        Action::TakeBreak => vec![
            add_to(Stat::Morale, tune(15_000, e)),
            add_to(Stat::WauGrowth, tune(-2_000, e)),
        ],
    }
}

/// The outcome of an action in a few words.
pub open spec fn message_for(action: Action, success: bool) -> Seq<char> {
    match action {
        Action::ShipFeature { quality } => match quality {
            Quality::Quick => "Shipped feature quickly - gained momentum but added tech debt"@,
            Quality::Balanced => "Shipped feature with balanced approach"@,
            Quality::Polish => "Polished feature launch - high quality, slower delivery"@,
        },
        Action::FounderLedSales { .. } => if success {
            "Closed new deals this week"@
        } else {
            "Made sales calls this week"@
        },
        Action::Hire => "Hired a new team member"@,
        Action::Fundraise { .. } => if success {
            "Raised the round"@
        } else {
            "Fundraising failed - investors passed"@
        },
        Action::RefactorCode { depth } => match depth {
            RefactorDepth::Surface => "Did surface-level refactoring"@,
            RefactorDepth::Medium => "Conducted medium-depth refactoring"@,
            RefactorDepth::Deep => "Performed deep code refactoring"@,
        },
        Action::RunExperiment { category } => if success {
            match category {
                ExperimentType::Pricing => "Found optimal pricing tier - increased conversion"@,
                ExperimentType::Onboarding => "Streamlined onboarding - reduced churn"@,
                ExperimentType::Channel => "Discovered high-converting channel"@,
            }
        } else {
            "Experiment failed - learned what not to do"@
        },
        Action::ContentLaunch { content_type } => match content_type {
            ContentType::BlogPost => "Launched blogpost content"@,
            ContentType::Tutorial => "Launched tutorial content"@,
            ContentType::CaseStudy => "Launched casestudy content"@,
            ContentType::Video => "Launched video content"@,
        },
        Action::DevRel { event_type } => match event_type {
            DevRelEvent::Conference => "Participated in conference event"@,
            DevRelEvent::Podcast => "Participated in podcast event"@,
            DevRelEvent::OpenSource => "Participated in opensource event"@,
            DevRelEvent::Workshop => "Participated in workshop event"@,
        },
        Action::PaidAds { channel, .. } => match channel {
            AdChannel::Google => "Ran ads on google"@,
            AdChannel::Social => "Ran ads on social"@,
            AdChannel::Display => "Ran ads on display"@,
            AdChannel::Influencer => "Ran ads on influencer"@,
        },
        Action::Coach { focus } => match focus {
            CoachingFocus::Skills => "Coached team on skills"@,
            CoachingFocus::Morale => "Coached team on morale"@,
            CoachingFocus::Alignment => "Coached team on alignment"@,
            CoachingFocus::Performance => "Coached team on performance"@,
        },
        Action::Fire { reason } => match reason {
            FiringReason::Performance => "Fired employee for performance"@,
            FiringReason::Culture => "Fired employee for culture"@,
            FiringReason::Budget => "Fired employee for budget"@,
        },
        Action::ComplianceWork { .. } => "Spent time on compliance work"@,
        Action::IncidentResponse => "Responded to incident - contained damage"@,
        Action::ProcessImprovement => "Implemented process improvements"@,
        Action::TakeBreak => "Took a break to recharge"@,
    }
}

/// The outcome of an action in a few words.
pub fn outcome_message(action: &Action, success: bool) -> (message: String)
    ensures
        message@ == message_for(*action, success),
{
    match action {
        Action::ShipFeature { quality } => match quality {
            Quality::Quick => "Shipped feature quickly - gained momentum but added tech debt".to_string(),
            Quality::Balanced => "Shipped feature with balanced approach".to_string(),
            Quality::Polish => "Polished feature launch - high quality, slower delivery".to_string(),
        },
        Action::FounderLedSales { .. } => if success {
            "Closed new deals this week".to_string()
        } else {
            "Made sales calls this week".to_string()
        },
        Action::Hire => "Hired a new team member".to_string(),
        Action::Fundraise { .. } => if success {
            "Raised the round".to_string()
        } else {
            "Fundraising failed - investors passed".to_string()
        },
        Action::RefactorCode { depth } => match depth {
            RefactorDepth::Surface => "Did surface-level refactoring".to_string(),
            RefactorDepth::Medium => "Conducted medium-depth refactoring".to_string(),
            RefactorDepth::Deep => "Performed deep code refactoring".to_string(),
        },
        Action::RunExperiment { category } => if success {
            match category {
                ExperimentType::Pricing => "Found optimal pricing tier - increased conversion".to_string(),
                ExperimentType::Onboarding => "Streamlined onboarding - reduced churn".to_string(),
                ExperimentType::Channel => "Discovered high-converting channel".to_string(),
            }
        } else {
            "Experiment failed - learned what not to do".to_string()
        },
        Action::ContentLaunch { content_type } => match content_type {
            ContentType::BlogPost => "Launched blogpost content".to_string(),
            ContentType::Tutorial => "Launched tutorial content".to_string(),
            ContentType::CaseStudy => "Launched casestudy content".to_string(),
            ContentType::Video => "Launched video content".to_string(),
        },
        Action::DevRel { event_type } => match event_type {
            DevRelEvent::Conference => "Participated in conference event".to_string(),
            DevRelEvent::Podcast => "Participated in podcast event".to_string(),
            DevRelEvent::OpenSource => "Participated in opensource event".to_string(),
            DevRelEvent::Workshop => "Participated in workshop event".to_string(),
        },
        Action::PaidAds { channel, .. } => match channel {
            AdChannel::Google => "Ran ads on google".to_string(),
            AdChannel::Social => "Ran ads on social".to_string(),
            AdChannel::Display => "Ran ads on display".to_string(),
            AdChannel::Influencer => "Ran ads on influencer".to_string(),
        },
        Action::Coach { focus } => match focus {
            CoachingFocus::Skills => "Coached team on skills".to_string(),
            CoachingFocus::Morale => "Coached team on morale".to_string(),
            CoachingFocus::Alignment => "Coached team on alignment".to_string(),
            CoachingFocus::Performance => "Coached team on performance".to_string(),
        },
        Action::Fire { reason } => match reason {
            FiringReason::Performance => "Fired employee for performance".to_string(),
            FiringReason::Culture => "Fired employee for culture".to_string(),
            FiringReason::Budget => "Fired employee for budget".to_string(),
        },
        Action::ComplianceWork { .. } => "Spent time on compliance work".to_string(),
        Action::IncidentResponse => "Responded to incident - contained damage".to_string(),
        Action::ProcessImprovement => "Implemented process improvements".to_string(),
        Action::TakeBreak => "Took a break to recharge".to_string(),
    }
}

/// Share, per mille, of self-serve customers among those that an action
/// wins: advertising wins small businesses too, by its channel.
pub open spec fn self_serve_share(action: Action) -> i64 {
    match action {
        Action::PaidAds { channel, .. } => match channel {
            AdChannel::Google => 800,
            AdChannel::Display => 800,
            AdChannel::Social => 900,
            AdChannel::Influencer => 700,
        },
        _ => 1_000,
    }
}

impl Welcome {
    /// The segment of the customer.
    pub open spec fn segment(self) -> CustomerSegment {
        if self.self_serve {
            CustomerSegment::SelfServe
        } else {
            CustomerSegment::SMB
        }
    }

    /// The trial for the segment as it was held.
    pub open spec fn trial(self) -> Trial {
        Trial { chance: self.chance, hit: self.self_serve }
    }

    /// Whether the draw is one that can be made for a customer whom the
    /// action wins: the segment tried at the action's share of self-serve
    /// customers, and a satisfaction between the segment's floor and 90.
    pub open spec fn fits(self, action: Action) -> bool {
        &&& self.trial().is_held_at(self_serve_share(action) as int)
        &&& crate::customers::welcome_floor(self.segment()) <= self.satisfaction <= 90_000
    }
}

/// One customer for every `unit` of a gain or part of it; none without a
/// gain.
pub open spec fn one_per(gain: i64, unit: int) -> nat {
    if gain <= 0 {
        0
    } else {
        ((gain + unit - 1) / unit) as nat
    }
}

/// The customers that a feature wins which took the users from `before` to
/// `after`: none unless the users grew by more than 5 percent, else one for
/// every 10 percent of growth or part of it, and at most three.
pub open spec fn growth_customers(before: u32, after: u32) -> nat {
    if before > 0 && 20 * (after - before) > before {
        let due = (10 * (after - before) + before - 1) / (before as int);
        if due >= 3 {
            3
        } else {
            due as nat
        }
    } else {
        0
    }
}

/// Reputation that a developer relations event of a kind brings, before the
/// jitter.
pub open spec fn devrel_base(event_type: DevRelEvent) -> int {
    match event_type {
        DevRelEvent::Conference => 12_000,
        DevRelEvent::Podcast => 8_000,
        DevRelEvent::OpenSource => 6_000,
        DevRelEvent::Workshop => 10_000,
    }
}

/// How many customers an action other than a sales call wins: a feature by
/// the growth of the users; content one for every 5 users gained; developer
/// relations one for every 3 points of reputation gained; advertising one
/// for every 10 users gained.
pub open spec fn customers_due(
    state: GameState,
    action: Action,
    roll: ActionRoll,
    effectiveness: i64,
) -> nat {
    let e = effectiveness;
    match action {
        Action::ShipFeature { .. } => growth_customers(
            state.wau,
            grown_to_nearest(state.wau, tuned(roll.first as int, e) as int),
        ),
        Action::ContentLaunch { content_type } => one_per(
            tuned(
                content_reach(content_type, state.reputation, roll.first, roll.second).0 as int,
                e,
            ),
            5_000,
        ),
        Action::DevRel { event_type } => one_per(
            tuned(jittered(devrel_base(event_type), roll.first) as int, e),
            3_000,
        ),
        Action::PaidAds { budget, channel } => one_per(
            tuned(ad_effectiveness(channel, budget, MARKET_SATURATION, roll.first) as int, e),
            10_000,
        ),
        _ => 0,
    }
}

/// The customers that the welcomes bring, in their order: each onboarding
/// in its segment and paying nothing yet.
pub open spec fn welcomed(welcomes: Seq<Welcome>, week: u32) -> Seq<Customer> {
    Seq::new(
        welcomes.len(),
        |i: int|
            crate::customers::signed_customer(
                welcomes[i].segment(),
                week,
                welcomes[i].satisfaction,
                0,
            ),
    )
}

impl ActionRoll {
    /// Whether the welcomes are the ones that can be drawn for the action in
    /// the state: as many as the action wins customers, each fitting the
    /// action.
    pub open spec fn greets(self, action: Action, state: GameState, effectiveness: i64) -> bool {
        &&& self.welcomes@.len() == customers_due(state, action, self, effectiveness)
        &&& forall|i: int|
            0 <= i < self.welcomes@.len() ==> (#[trigger] self.welcomes@[i]).fits(action)
    }
}

/// The customers that the action brings: one for each closed deal of a
/// sales call; one for each welcome of a feature, content, developer
/// relations or advertising; none otherwise.
pub open spec fn new_customers(action: Action, roll: ActionRoll, week: u32) -> Seq<Customer> {
    match action {
        Action::FounderLedSales { .. } => deal_customers(roll.deals@, week),
        Action::ShipFeature { .. } => welcomed(roll.welcomes@, week),
        Action::ContentLaunch { .. } => welcomed(roll.welcomes@, week),
        Action::DevRel { .. } => welcomed(roll.welcomes@, week),
        Action::PaidAds { .. } => welcomed(roll.welcomes@, week),
        _ => Seq::<Customer>::empty(),
    }
}

/// What it means that `action`, resolved with `roll` under `effectiveness`,
/// took the state from `before` to `after` and reported `result`: the planned
/// changes were made in order and recorded one by one, the customers of the
/// closed deals or of the welcomes were appended, and nothing else changed.
pub open spec fn resolves(
    before: GameState,
    action: Action,
    roll: ActionRoll,
    effectiveness: i64,
    after: GameState,
    result: ActionResult,
) -> bool {
    let changes = planned(before, action, roll, effectiveness);
    &&& after.customers@ == before.customers@ + new_customers(action, roll, before.week)
    &&& after == (GameState { customers: after.customers, ..before.altered_by(changes) })
    &&& result.effects@ == before.records_of(changes)
    &&& result.success == succeeded(before, action, roll, effectiveness)
    &&& result.message@ == message_for(action, result.success)
}

/// Draws every random quantity that the action needs in the state.
pub fn roll_action(rng: &mut GameRng, action: &Action, state: &GameState) -> (roll: ActionRoll)
    ensures
        roll.fits(*action, *state),
{
    let mut roll = ActionRoll {
        chance: 0,
        success: false,
        first: 0,
        second: 0,
        third: 0,
        deals: Vec::new(),
        welcomes: Vec::new(),
    };
    match action {
        Action::ShipFeature { quality } => match quality {
            Quality::Quick => {
                roll.first = rng.between(1_500, 4_499);
                roll.second = rng.between(4_000, 8_000);
                roll.third = rng.between(-1_500, -500);
            },
            Quality::Balanced => {
                roll.first = rng.between(2_500, 5_499);
                roll.second = rng.between(1_000, 3_000);
                roll.third = rng.between(500, 1_500);
            },
            Quality::Polish => {
                roll.first = rng.between(1_000, 2_999);
                roll.second = rng.between(-4_000, -2_000);
                roll.third = rng.between(2_000, 4_000);
            },
        },
        Action::RefactorCode { .. } => {
            roll.first = rng.between(800, 1_200);
            roll.second = rng.between(900, 1_100);
            roll.third = rng.between(900, 1_100);
        },
        Action::RunExperiment { .. } => {
            let held = rng.trial(EXPERIMENT_CHANCE);
            roll.chance = held.chance;
            roll.success = held.hit;
            roll.first = rng.between(800, 1_200);
        },
        Action::FounderLedSales { call_count } => {
            let chance = sales_conversion_chance(state.reputation);
            let mut deals: Vec<Deal> = Vec::new();
            let mut call: u8 = 0;
            let mut held_at: i64 = 0;
            while call < *call_count
                invariant
                    call <= *call_count,
                    call > 0 ==> held_at == bounded(chance as int, 0, 1_000),
                    deals@.len() <= call,
                    chance <= 0 ==> deals@.len() == 0,
                    chance >= 1_000 ==> deals@.len() == call,
                    forall|i: int|
                        0 <= i < deals@.len() ==> within((#[trigger] deals@[i]).size, 400_000, 600_000)
                            && within(deals@[i].satisfaction, 65_000, 90_000),
                decreases *call_count - call,
            {
                let held = rng.trial(chance);
                held_at = held.chance;
                if held.hit {
                    let factor = rng.between(800, 1_200);
                    let size = jitter(500_000, factor);
                    let satisfaction = rng.between(65_000, 90_000);
                    deals.push(Deal { size, satisfaction });
                }
                call = call + 1;
            }
            roll.chance = held_at;
            roll.deals = deals;
        },
        Action::ContentLaunch { .. } => {
            roll.first = rng.between(800, 1_200);
            roll.second = rng.between(900, 1_100);
        },
        Action::DevRel { .. } => {
            roll.first = rng.between(900, 1_100);
            roll.second = rng.between(800, 1_200);
            roll.third = rng.between(900, 1_100);
        },
        Action::PaidAds { .. } => {
            roll.first = rng.between(800, 1_200);
        },
        Action::Hire => {},
        Action::Coach { .. } => {
            roll.first = rng.between(900, 1_100);
            roll.second = rng.between(900, 1_100);
        },
        Action::Fire { .. } => {
            roll.first = rng.between(800, 1_200);
        },
        Action::ComplianceWork { .. } => {
            roll.first = rng.between(900, 1_100);
            roll.second = rng.between(900, 1_100);
        },
        Action::IncidentResponse => {
            roll.first = rng.between(800, 1_200);
            roll.second = rng.between(900, 1_100);
        },
        Action::ProcessImprovement => {
            roll.first = rng.between(900, 1_100);
            roll.second = rng.between(900, 1_100);
        },
        Action::Fundraise { .. } => {
            let held = rng.trial(fundraise_success_chance(state.reputation, state.momentum));
            roll.chance = held.chance;
            roll.success = held.hit;
        },
        Action::TakeBreak => {},
    }
    roll
}

/// Whether none of the records is about the stat.
pub open spec fn is_unrecorded(effects: Seq<StatEffect>, stat: Stat) -> bool {
    forall|i: int| 0 <= i < effects.len() ==> (#[trigger] effects[i]).stat != stat
}

/// Whether the records tell what an action did to the stats: each record
/// holds the value of its stat before the action and after it, and the
/// difference of the two; and a stat without a record has the value it had.
pub open spec fn recorded(before: GameState, after: GameState, effects: Seq<StatEffect>) -> bool {
    &&& forall|i: int|
        0 <= i < effects.len() ==> {
            let e = #[trigger] effects[i];
            &&& e.old_value == before.stat(e.stat)
            &&& e.new_value == after.stat(e.stat)
            &&& e.delta == capped(e.new_value - e.old_value)
        }
    &&& forall|stat: Stat|
        is_unrecorded(effects, stat) ==> #[trigger] after.stat(stat) == before.stat(stat)
}

/// Appends one onboarding customer for each deal.
pub fn sign_customers(customers: &mut Vec<Customer>, deals: &Vec<Deal>, week: u32)
    ensures
        final(customers)@ == old(customers)@ + deal_customers(deals@, week),
{
    let mut i: usize = 0;
    while i < deals.len()
        invariant
            i <= deals.len(),
            customers@ == old(customers)@ + deal_customers(deals@, week).take(i as int),
        decreases deals.len() - i,
    {
        let deal = deals[i];
        customers.push(
            Customer {
                segment: crate::customers::calculate_segment_from_mrr(deal.size),
                join_week: week,
                satisfaction: deal.satisfaction,
                lifecycle_stage: CustomerLifecycle::Onboarding,
                latest_feedback: None,
                mrr_contribution: deal.size,
                is_champion: false,
            },
        );
        assert(deal_customers(deals@, week).take(i + 1) =~= deal_customers(deals@, week).take(
            i as int,
        ).push(deal_customers(deals@, week)[i as int]));
        i = i + 1;
    }
    assert(deal_customers(deals@, week).take(i as int) =~= deal_customers(deals@, week));
}

/// Whether the action counts as a success for the given draws.
pub fn action_succeeded(
    state: &GameState,
    action: &Action,
    roll: &ActionRoll,
    effectiveness: i64,
) -> (success: bool)
    ensures
        success == succeeded(*state, *action, *roll, effectiveness),
{
    reveal(succeeded);
    match action {
        Action::FounderLedSales { .. } => tune(total_deals(&roll.deals), effectiveness) > 0,
        Action::Fundraise { .. } => roll.success,
        Action::RunExperiment { .. } => roll.success,
        Action::PaidAds { budget, channel } => tune(
            calculate_ad_effectiveness(channel, *budget, MARKET_SATURATION, roll.first),
            effectiveness,
        ) > 0,
        _ => true,
    }
}

/// Appends one onboarding customer for each welcome.
pub fn greet_customers(customers: &mut Vec<Customer>, welcomes: &Vec<Welcome>, week: u32)
    ensures
        final(customers)@ == old(customers)@ + welcomed(welcomes@, week),
{
    let mut i: usize = 0;
    while i < welcomes.len()
        invariant
            i <= welcomes.len(),
            customers@ == old(customers)@ + welcomed(welcomes@, week).take(i as int),
        decreases welcomes.len() - i,
    {
        let welcome = welcomes[i];
        let segment = if welcome.self_serve {
            CustomerSegment::SelfServe
        } else {
            CustomerSegment::SMB
        };
        customers.push(
            Customer {
                segment,
                join_week: week,
                satisfaction: welcome.satisfaction,
                lifecycle_stage: CustomerLifecycle::Onboarding,
                latest_feedback: None,
                mrr_contribution: 0,
                is_champion: false,
            },
        );
        assert(welcomed(welcomes@, week).take(i + 1) =~= welcomed(welcomes@, week).take(
            i as int,
        ).push(welcomed(welcomes@, week)[i as int]));
        i = i + 1;
    }
    assert(welcomed(welcomes@, week).take(i as int) =~= welcomed(welcomes@, week));
}

/// One customer for every `unit` of a gain or part of it.
pub fn count_per(gain: i64, unit: i64) -> (count: u64)
    requires
        unit > 0,
    ensures
        count == one_per(gain, unit as int),
{
    if gain <= 0 {
        0
    } else {
        ((gain as i128 + unit as i128 - 1) / unit as i128) as u64
    }
}

/// How many customers an action other than a sales call wins with the given
/// draws.
pub fn count_customers_due(
    state: &GameState,
    action: &Action,
    roll: &ActionRoll,
    effectiveness: i64,
) -> (count: u64)
    ensures
        count == customers_due(*state, *action, *roll, effectiveness),
{
    let e = effectiveness;
    match action {
        Action::ShipFeature { .. } => {
            let before = state.wau;
            let after = grow_to_nearest(before, tune(roll.first, e));
            if before > 0 && after > before && 20 * (after as u64 - before as u64) > before as u64 {
                let due: u64 = (10 * (after as u64 - before as u64) + before as u64 - 1)
                    / before as u64;
                if due >= 3 {
                    3
                } else {
                    due
                }
            } else {
                0
            }
        },
        Action::ContentLaunch { content_type } => {
            let reach = calculate_content_reach(
                content_type,
                state.reputation,
                roll.first,
                roll.second,
            );
            count_per(tune(reach.0, e), 5_000)
        },
        Action::DevRel { event_type } => {
            let base: i64 = match event_type {
                DevRelEvent::Conference => 12_000,
                DevRelEvent::Podcast => 8_000,
                DevRelEvent::OpenSource => 6_000,
                DevRelEvent::Workshop => 10_000,
            };
            count_per(tune(jitter(base, roll.first), e), 3_000)
        },
        Action::PaidAds { budget, channel } => count_per(
            tune(calculate_ad_effectiveness(channel, *budget, MARKET_SATURATION, roll.first), e),
            10_000,
        ),
        _ => 0,
    }
}

/// Draws what `count` customers need whom the action wins: for each the
/// segment, at the action's share of self-serve customers, and the
/// satisfaction.
pub fn roll_welcomes(rng: &mut GameRng, action: &Action, count: u64) -> (welcomes: Vec<Welcome>)
    ensures
        welcomes@.len() == count,
        forall|i: int| 0 <= i < welcomes@.len() ==> (#[trigger] welcomes@[i]).fits(*action),
{
    let share: i64 = match action {
        Action::PaidAds { channel, .. } => match channel {
            AdChannel::Google => 800,
            AdChannel::Display => 800,
            AdChannel::Social => 900,
            AdChannel::Influencer => 700,
        },
        _ => 1_000,
    };
    let mut welcomes: Vec<Welcome> = Vec::new();
    let mut done: u64 = 0;
    while done < count
        invariant
            done <= count,
            welcomes@.len() == done,
            share == self_serve_share(*action),
            forall|i: int| 0 <= i < welcomes@.len() ==> (#[trigger] welcomes@[i]).fits(*action),
        decreases count - done,
    {
        let held = rng.trial(share);
        let floor: i64 = if held.hit {
            60_000
        } else {
            65_000
        };
        let satisfaction = rng.between(floor, 90_000);
        welcomes.push(Welcome { chance: held.chance, self_serve: held.hit, satisfaction });
        done = done + 1;
    }
    welcomes
}

/// Appends the customers that the action brings.
pub fn welcome_customers(state: &mut GameState, action: &Action, roll: &ActionRoll)
    ensures
        final(state).customers@ == old(state).customers@ + new_customers(
            *action,
            *roll,
            old(state).week,
        ),
        *final(state) == (GameState { customers: final(state).customers, ..*old(state) }),
{
    match action {
        Action::FounderLedSales { .. } => {
            let week = state.week;
            sign_customers(&mut state.customers, &roll.deals, week);
        },
        Action::ShipFeature { .. }
        | Action::ContentLaunch { .. }
        | Action::DevRel { .. }
        | Action::PaidAds { .. } => {
            let week = state.week;
            greet_customers(&mut state.customers, &roll.welcomes, week);
        },
        _ => {
            assert(state.customers@ + Seq::<Customer>::empty() =~= state.customers@);
        },
    }
}

/// Applies an action with the given draws: makes the planned changes in
/// order, appends a customer for each closed deal or welcome, and reports
/// every change with the success flag.
pub fn apply_action(
    state: &mut GameState,
    action: &Action,
    roll: &ActionRoll,
    effectiveness: i64,
) -> (result: ActionResult)
    ensures
        resolves(*old(state), *action, *roll, effectiveness, *final(state), result),
        recorded(*old(state), *final(state), result.effects@),
        old(state).keeps_calendar(*final(state)),
        final(state).action_history == old(state).action_history,
{
    let changes = plan_action(state, action, roll, effectiveness);
    let success = action_succeeded(state, action, roll, effectiveness);
    let effects = state.alter_all(&changes);
    welcome_customers(state, action, roll);
    proof {
        lemma_plan_touches_each_stat_once(*old(state), *action, *roll, effectiveness);
        lemma_records_tell_the_change(*old(state), changes@);
        let altered = old(state).altered_by(changes@);
        assert forall|stat: Stat| #[trigger] state.stat(stat) == altered.stat(stat) by {}
        assert forall|stat: Stat| is_unrecorded(effects@, stat) implies #[trigger] state.stat(stat)
            == old(state).stat(stat) by {
            if touches(changes@, stat) {
                let k = choose|k: int| 0 <= k < changes@.len() && (#[trigger] changes@[k]).stat == stat;
                assert(effects@[k].stat == stat);
            }
        }
    }
    ActionResult { success, message: outcome_message(action, success), effects }
}

/// Resolves one action: draws what it needs and applies it. Whatever is
/// drawn, the draws fit the action and the state, there is a welcome for
/// each customer that the action wins, and state and result are the ones
/// that [`apply_action`] gives for them.
pub fn resolve_action(
    state: &mut GameState,
    action: &Action,
    effectiveness: i64,
    rng: &mut GameRng,
) -> (result: ActionResult)
    ensures
        exists|roll: ActionRoll|
            roll.fits(*action, *old(state)) && roll.greets(*action, *old(state), effectiveness)
                && #[trigger] resolves(
                *old(state),
                *action,
                roll,
                effectiveness,
                *final(state),
                result,
            ),
        recorded(*old(state), *final(state), result.effects@),
        ships_within_band(*action, effectiveness, old(state).wau, final(state).wau),
        old(state).keeps_calendar(*final(state)),
        final(state).action_history == old(state).action_history,
{
    let mut roll = roll_action(rng, action, state);
    let ghost drawn = roll;
    let due = count_customers_due(state, action, &roll, effectiveness);
    roll.welcomes = roll_welcomes(rng, action, due);
    proof {
        lemma_welcomes_leave_the_draws(drawn, roll, *action, *state, effectiveness);
    }
    let result = apply_action(state, action, &roll, effectiveness);
    proof {
        assert(roll.fits(*action, *old(state)) && roll.greets(*action, *old(state), effectiveness)
            && resolves(*old(state), *action, roll, effectiveness, *state, result));
        match *action {
            Action::ShipFeature { quality } => {
                if effectiveness == NEUTRAL {
                    lemma_ship_grows_users(*old(state), quality, roll);
                    lemma_growth_band(
                        old(state).wau,
                        roll.first as int,
                        growth_band(quality).0,
                        growth_band(quality).1,
                    );
                }
            },
            _ => {},
        }
    }
    result
}

/// The welcomes are no part of what fits a draw to an action, nor of the
/// number of customers that the action wins.
pub proof fn lemma_welcomes_leave_the_draws(
    drawn: ActionRoll,
    roll: ActionRoll,
    action: Action,
    state: GameState,
    effectiveness: i64,
)
    requires
        roll == (ActionRoll { welcomes: roll.welcomes, ..drawn }),
    ensures
        drawn.fits(action, state) ==> roll.fits(action, state),
        customers_due(state, action, roll, effectiveness) == customers_due(
            state,
            action,
            drawn,
            effectiveness,
        ),
        planned(state, action, roll, effectiveness) == planned(state, action, drawn, effectiveness),
{
    reveal(planned);
}

/// Least and greatest growth of the users, in thousandths of a percent, that
/// a feature of a quality brings: the base of 3, 4 or 2 percent less its
/// jitter of 1.5, 1.5 or 1, and the base plus the jitter, which is never
/// reached.
pub open spec fn growth_band(quality: Quality) -> (int, int) {
    match quality {
        Quality::Quick => (1_500, 4_500),
        Quality::Balanced => (2_500, 5_500),
        Quality::Polish => (1_000, 3_000),
    }
}

/// Whether a head count is what `before` becomes when it grows by at least
/// `low` and by less than `high` (thousandths of a percent) and is rounded
/// to the nearest whole number: it is within half a user of
/// `before * (1 + low / 100)` at the least and of `before * (1 + high / 100)`
/// at the most. So 100 users that grow by 1.5 to 4.5 percent become 102, 103
/// or 104.
pub open spec fn is_within_growth(before: u32, after: u32, low: int, high: int) -> bool {
    &&& 200_000 * after < 2 * (before * (100_000 + high)) + 100_000
    &&& after == u32::MAX || 200_000 * after + 100_000 > 2 * (before * (100_000 + low))
}

/// Whether the users after an action are within the band that shipping a
/// feature under neutral market conditions allows; any other action, and
/// any other effectiveness, is not bound by it.
pub open spec fn ships_within_band(action: Action, effectiveness: i64, before: u32, after: u32) -> bool {
    match action {
        Action::ShipFeature { quality } => effectiveness == NEUTRAL ==> is_within_growth(
            before,
            after,
            growth_band(quality).0,
            growth_band(quality).1,
        ),
        _ => true,
    }
}

/// Users that grow by a percentage between `low` and `high`, the latter not
/// reached, stay within the band of the two.
pub proof fn lemma_growth_band(before: u32, pct: int, low: int, high: int)
    requires
        0 <= low <= pct < high,
    ensures
        is_within_growth(before, grown_to_nearest(before, pct), low, high),
{
    let exact = before * (100_000 + pct);
    let least = before * (100_000 + low);
    let most = before * (100_000 + high);
    assert(0 <= least <= exact && exact + before <= most) by (nonlinear_arith)
        requires
            exact == before * (100_000 + pct),
            least == before * (100_000 + low),
            most == before * (100_000 + high),
            0 <= before,
            0 <= low <= pct < high,
    ;
    assert(exact == before * (HUNDRED + pct));
    let y = (exact + 50_000) / 100_000;
    assert(100_000 * y <= exact + 50_000 < 100_000 * y + 100_000);
    if before == 0 {
        assert(exact == 0) by (nonlinear_arith)
            requires
                exact == before * (100_000 + pct),
                before == 0,
        ;
    }
}

/// A magnitude within the limits is unchanged by a neutral effectiveness.
pub proof fn lemma_neutral_keeps_magnitude(amount: int)
    requires
        crate::fixed::FLOOR <= amount <= crate::fixed::CEILING,
    ensures
        tuned(amount, NEUTRAL) == amount,
{
}

/// Under neutral market conditions a break adds exactly 15 to morale and
/// takes 2 points off the growth rate, and changes nothing else.
pub proof fn lemma_break_restores_morale(state: GameState, roll: ActionRoll)
    ensures
        state.altered_by(planned(state, Action::TakeBreak, roll, NEUTRAL)) == (GameState {
            morale: capped(state.morale + 15_000),
            wau_growth_rate: capped(state.wau_growth_rate - 2_000),
            ..state
        }),
{
    let rest = added(Stat::Morale, 15_000);
    let slow = added(Stat::WauGrowth, (-2_000) as i64);
    let none = Seq::<Change>::empty();
    lemma_break_plan(state, roll);
    lemma_altered_by_push(state, none, rest);
    lemma_altered_by_push(state, none.push(rest), slow);
    lemma_addition_raises(state, Stat::Morale, 15_000);
    lemma_addition_raises(state.altered(rest), Stat::WauGrowth, (-2_000) as i64);
}

/// Under neutral market conditions the plan of a break is 15 more morale
/// and 2 points less growth.
pub proof fn lemma_break_plan(state: GameState, roll: ActionRoll)
    ensures
        planned(state, Action::TakeBreak, roll, NEUTRAL) == Seq::<Change>::empty().push(
            added(Stat::Morale, 15_000),
        ).push(added(Stat::WauGrowth, (-2_000) as i64)),
{
    reveal(planned);
    assert(planned(state, Action::TakeBreak, roll, NEUTRAL) =~= Seq::<Change>::empty().push(
        added(Stat::Morale, 15_000),
    ).push(added(Stat::WauGrowth, (-2_000) as i64)));
}

/// A change that adds to a stat raises the stat by what it adds.
pub proof fn lemma_addition_raises(state: GameState, stat: Stat, amount: i64)
    ensures
        state.altered(added(stat, amount)) == state.raised(stat, amount),
{
    reveal(GameState::altered);
}

/// Making one more change after a list of changes.
pub proof fn lemma_altered_by_push(state: GameState, changes: Seq<Change>, change: Change)
    ensures
        state.altered_by(changes.push(change)) == state.altered_by(changes).altered(change),
        state.altered_by(Seq::<Change>::empty()) == state,
{
    assert(changes.push(change).drop_last() =~= changes);
}

/// A change to another stat leaves the users as they are.
pub proof fn lemma_other_stats_keep_users(state: GameState, change: Change)
    requires
        change.stat != Stat::Wau,
    ensures
        state.altered(change).wau == state.wau,
{
    reveal(GameState::altered);
}

/// The plan of shipping a feature: growth of the users, a change of tech
/// debt, a change of morale, and a velocity set from the new tech debt.
pub proof fn lemma_ship_plan(
    state: GameState,
    quality: Quality,
    roll: ActionRoll,
    effectiveness: i64,
)
    ensures
        planned(state, Action::ShipFeature { quality }, roll, effectiveness) == seq![
            Change {
                stat: Stat::Wau,
                kind: ChangeKind::Grow,
                amount: tuned(roll.first as int, effectiveness),
            },
            added(Stat::TechDebt, tuned(roll.second as int, effectiveness)),
            added(Stat::Morale, tuned(roll.third as int, effectiveness)),
            Change {
                stat: Stat::Velocity,
                kind: ChangeKind::Assign,
                amount: capped(
                    1_000 - scaled(
                        capped(state.tech_debt + tuned(roll.second as int, effectiveness)) as int,
                        1,
                        200,
                    ),
                ),
            },
        ],
{
    reveal(planned);
}

/// Four changes in a row.
pub proof fn lemma_four_changes(state: GameState, a: Change, b: Change, c: Change, d: Change)
    ensures
        state.altered_by(seq![a, b, c, d]) == state.altered(a).altered(b).altered(c).altered(d),
{
    let none = Seq::<Change>::empty();
    assert(seq![a, b, c, d] =~= none.push(a).push(b).push(c).push(d));
    lemma_altered_by_push(state, none, a);
    lemma_altered_by_push(state, none.push(a), b);
    lemma_altered_by_push(state, none.push(a).push(b), c);
    lemma_altered_by_push(state, none.push(a).push(b).push(c), d);
}

/// A hundred users that grow by 1.5 percent or more and by less than 4.5
/// percent become 102 to 104.
pub proof fn lemma_quick_growth_of_hundred(pct: int)
    requires
        1_500 <= pct < 4_500,
    ensures
        102 <= grown_to_nearest(100, pct) <= 104,
{
}

/// Under neutral market conditions, shipping a feature makes the users grow
/// by exactly the percentage that was drawn. For a quick feature that is
/// at least 1.5 and less than 4.5 percent, so 100 users become 102 to 104.
pub proof fn lemma_ship_grows_users(state: GameState, quality: Quality, roll: ActionRoll)
    requires
        roll.fits(Action::ShipFeature { quality }, state),
    ensures
        state.altered_by(planned(state, Action::ShipFeature { quality }, roll, NEUTRAL)).wau
            == grown_to_nearest(state.wau, roll.first as int),
        growth_band(quality).0 <= roll.first < growth_band(quality).1,
        quality == Quality::Quick && state.wau == 100 ==> 102 <= state.altered_by(
            planned(state, Action::ShipFeature { quality }, roll, NEUTRAL),
        ).wau <= 104,
{
    let changes = planned(state, Action::ShipFeature { quality }, roll, NEUTRAL);
    lemma_ship_plan(state, quality, roll, NEUTRAL);
    let a = changes[0];
    let b = changes[1];
    let c = changes[2];
    let d = changes[3];
    assert(changes =~= seq![a, b, c, d]);
    lemma_four_changes(state, a, b, c, d);
    let s1 = state.altered(a);
    lemma_other_stats_keep_users(s1, b);
    lemma_other_stats_keep_users(s1.altered(b), c);
    lemma_other_stats_keep_users(s1.altered(b).altered(c), d);
    assert(within(roll.first, 1_000, 5_500));
    lemma_neutral_keeps_magnitude(roll.first as int);
    assert(a.amount == roll.first);
    assert(s1.wau == grown_to_nearest(state.wau, roll.first as int)) by {
        reveal(GameState::altered);
    }
    if quality == Quality::Quick && state.wau == 100 {
        lemma_quick_growth_of_hundred(roll.first as int);
    }
}

/// Whether no two of the changes are to the same stat.
pub open spec fn touches_each_stat_once(changes: Seq<Change>) -> bool {
    forall|i: int, j: int|
        0 <= i < j < changes.len() ==> (#[trigger] changes[i]).stat != (#[trigger] changes[j]).stat
}

/// Whether one of the changes is to the stat.
pub open spec fn touches(changes: Seq<Change>, stat: Stat) -> bool {
    exists|i: int| 0 <= i < changes.len() && (#[trigger] changes[i]).stat == stat
}

/// Adding to one stat leaves the value of every other stat as it is.
pub proof fn lemma_raise_keeps_other_stats(state: GameState, raised: Stat, amount: i64, stat: Stat)
    requires
        raised != stat,
    ensures
        state.raised(raised, amount).stat(stat) == state.stat(stat),
{
    match raised {
        Stat::Morale => {},
        Stat::Reputation => {},
        Stat::TechDebt => {},
        Stat::Velocity => {},
        Stat::Wau => {},
        Stat::WauGrowth => {},
        Stat::Mrr => {},
        Stat::Burn => {},
        Stat::Bank => {},
        Stat::FounderEquity => {},
        Stat::ChurnRate => {},
        Stat::Focus => {},
        Stat::ComplianceRisk => {},
        Stat::Nps => {},
        Stat::GameEnd => {},
        Stat::BurnoutRisk => {},
        Stat::MoraleDecay => {},
    }
}

/// Multiplying one stat leaves the value of every other stat as it is.
pub proof fn lemma_multiply_keeps_other_stats(
    state: GameState,
    multiplied: Stat,
    factor: i64,
    stat: Stat,
)
    requires
        multiplied != stat,
    ensures
        state.multiplied(multiplied, factor).stat(stat) == state.stat(stat),
{
    match multiplied {
        Stat::Wau => {},
        Stat::Focus => {},
        Stat::GameEnd => {},
        Stat::BurnoutRisk => {},
        Stat::MoraleDecay => {},
        _ => {
            lemma_raise_keeps_other_stats(
                state,
                multiplied,
                capped(
                    scaled(state.stat(multiplied) as int, factor as int, crate::fixed::SCALE as int)
                        - state.stat(multiplied),
                ),
                stat,
            );
        },
    }
}

/// A change to one stat leaves the value of every other stat as it is.
pub proof fn lemma_change_keeps_other_stats(state: GameState, change: Change, stat: Stat)
    requires
        change.stat != stat,
    ensures
        state.altered(change).stat(stat) == state.stat(stat),
{
    reveal(GameState::altered);
    match change.kind {
        ChangeKind::Increase => {
            lemma_raise_keeps_other_stats(state, change.stat, change.amount, stat);
        },
        ChangeKind::Grow => {
            if change.stat != Stat::Wau {
                lemma_multiply_keeps_other_stats(
                    state,
                    change.stat,
                    capped(1_000 + scaled(change.amount as int, 1, 100)),
                    stat,
                );
            }
        },
        ChangeKind::Assign => {
            lemma_raise_keeps_other_stats(
                state,
                change.stat,
                capped(change.amount - state.stat(change.stat)),
                stat,
            );
        },
    }
}

/// No action changes the same stat twice.
pub proof fn lemma_plan_touches_each_stat_once(
    state: GameState,
    action: Action,
    roll: ActionRoll,
    effectiveness: i64,
)
    ensures
        touches_each_stat_once(planned(state, action, roll, effectiveness)),
{
    reveal(planned);
    let changes = planned(state, action, roll, effectiveness);
    assert(changes.len() <= 4);
    assert forall|i: int, j: int| 0 <= i < j < changes.len() implies (#[trigger] changes[i]).stat != (
    #[trigger] changes[j]).stat by {
        assert(0 <= i <= 2 && 1 <= j <= 3);
    }
}

/// What the records of changes say when no stat is changed twice: each
/// record names the stat of its change, holds the value of that stat before
/// the first change and after the last one, and the difference of the two;
/// and a stat that no change names has the value it had.
pub proof fn lemma_records_tell_the_change(state: GameState, changes: Seq<Change>)
    requires
        touches_each_stat_once(changes),
    ensures
        state.records_of(changes).len() == changes.len(),
        forall|i: int|
            0 <= i < changes.len() ==> {
                let e = #[trigger] state.records_of(changes)[i];
                &&& e.stat == changes[i].stat
                &&& e.old_value == state.stat(e.stat)
                &&& e.new_value == state.altered_by(changes).stat(e.stat)
                &&& e.delta == capped(e.new_value - e.old_value)
            },
        forall|stat: Stat|
            !touches(changes, stat) ==> #[trigger] state.altered_by(changes).stat(stat) == state.stat(
                stat,
            ),
    decreases changes.len(),
{
    if changes.len() > 0 {
        let earlier = changes.drop_last();
        let last = changes.last();
        let mid = state.altered_by(earlier);
        assert(touches_each_stat_once(earlier)) by {
            assert forall|i: int, j: int| 0 <= i < j < earlier.len() implies (#[trigger] earlier[i]).stat
                != (#[trigger] earlier[j]).stat by {
                assert(earlier[i] == changes[i] && earlier[j] == changes[j]);
            }
        }
        lemma_records_tell_the_change(state, earlier);
        assert(!touches(earlier, last.stat)) by {
            if touches(earlier, last.stat) {
                let k = choose|k: int| 0 <= k < earlier.len() && (#[trigger] earlier[k]).stat == last.stat;
                assert(changes[k].stat == changes[changes.len() - 1].stat);
            }
        }
        assert(mid.stat(last.stat) == state.stat(last.stat));
        let records = state.records_of(changes);
        assert forall|i: int| 0 <= i < changes.len() implies {
            let e = #[trigger] records[i];
            &&& e.stat == changes[i].stat
            &&& e.old_value == state.stat(e.stat)
            &&& e.new_value == state.altered_by(changes).stat(e.stat)
            &&& e.delta == capped(e.new_value - e.old_value)
        } by {
            if i < earlier.len() {
                assert(records[i] == state.records_of(earlier)[i]);
                assert(earlier[i] == changes[i]);
                assert(changes[i].stat != changes[changes.len() - 1].stat);
                lemma_change_keeps_other_stats(mid, last, changes[i].stat);
            }
        }
        assert forall|stat: Stat| !touches(changes, stat) implies #[trigger] state.altered_by(
            changes,
        ).stat(stat) == state.stat(stat) by {
            assert(changes[changes.len() - 1].stat != stat);
            assert(!touches(earlier, stat)) by {
                if touches(earlier, stat) {
                    let k = choose|k: int| 0 <= k < earlier.len() && (#[trigger] earlier[k]).stat == stat;
                    assert(changes[k].stat == stat);
                }
            }
            lemma_change_keeps_other_stats(mid, last, stat);
        }
    }
}

} // verus!
