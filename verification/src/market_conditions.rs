//! Time-boxed market conditions: how they are drawn, how they age, and what
//! they do to stats and to the effectiveness of actions.
use crate::actions::Action;
use crate::chance::GameRng;
use crate::chance::Trial;
use crate::competitors::FundingStage;
use crate::exact::lemma_unit_power_grows;
use crate::exact::unit_power;
use crate::exact::Exact;
use crate::fixed::bounded;
use crate::fixed::capped;
use crate::fixed::clamp;
use crate::fixed::scale;
use crate::fixed::scaled;
use crate::fixed::sum;
use crate::fixed::trunc_div;
use crate::state::GameState;
use crate::synergies::ActionType;
use vstd::prelude::*;
use vstd::seq_lib::to_multiset_contains;

verus! {

/// The kinds of market condition.
#[derive(Debug, Clone, Copy, PartialEq, Eq, Structural)]
pub enum MarketEvent {
    BullMarket,
    Recession,
    CompetitorLaunch,
    TechBoom,
    RegulationChange,
    TalentWar,
    ViralTrend,
    SupplyChainDisruption,
    EconomicStimulus,
    IndustryConsolidation,
    TechCrunch,
    DataBreachScare,
    CompetitorFundingRound,
    CompetitorAcquisition,
    CompetitorPricingWar,
}

/// What a market modifier multiplies.
#[derive(Debug, Clone, Copy, PartialEq, Eq, Structural)]
pub enum ModifierStat {
    FundraisingSuccess,
    WauGrowth,
    Burn,
    ChurnRate,
    Reputation,
    HiringCost,
    Velocity,
    ComplianceRisk,
    Morale,
    HireVelocityBonus,
    MrrGrowth,
}

/// One multiplicative modifier; `multiplier` is in thousandths, so `1_300`
/// multiplies by 1.3.
#[derive(Debug, Clone, Copy, PartialEq, Eq, Structural)]
pub struct MarketModifier {
    pub stat_affected: ModifierStat,
    pub multiplier: i64,
}

/// An active market condition.
#[derive(Debug, Clone)]
pub struct MarketCondition {
    pub id: MarketEvent,
    pub duration_weeks: u32,
    pub modifiers: Vec<MarketModifier>,
}

/// Chance, per mille, that a week brings a new market condition.
pub const CONDITION_CHANCE: i64 = 150;

/// Number of kinds of condition that a week may bring by itself. The three
/// kinds that a competitor sets off are not among them.
pub const AMBIENT_EVENTS: usize = 12;

/// Shortest and longest duration, in weeks, of a condition that a week
/// brings.
pub const DURATION_MIN: u32 = 4;

pub const DURATION_MAX: u32 = 8;

pub open spec fn modifier(stat_affected: ModifierStat, multiplier: i64) -> MarketModifier {
    MarketModifier { stat_affected, multiplier }
}

impl MarketEvent {
    /// The kind of condition at a position of the catalog. The first
    /// [`AMBIENT_EVENTS`] are the ambient ones.
    pub open spec fn at(i: int) -> MarketEvent {
        if i == 0 {
            MarketEvent::BullMarket
        } else if i == 1 {
            MarketEvent::Recession
        } else if i == 2 {
            MarketEvent::CompetitorLaunch
        } else if i == 3 {
            MarketEvent::TechBoom
        } else if i == 4 {
            MarketEvent::RegulationChange
        } else if i == 5 {
            MarketEvent::TalentWar
        } else if i == 6 {
            MarketEvent::ViralTrend
        } else if i == 7 {
            MarketEvent::SupplyChainDisruption
        } else if i == 8 {
            MarketEvent::EconomicStimulus
        } else if i == 9 {
            MarketEvent::IndustryConsolidation
        } else if i == 10 {
            MarketEvent::TechCrunch
        } else if i == 11 {
            MarketEvent::DataBreachScare
        } else if i == 12 {
            MarketEvent::CompetitorFundingRound
        } else if i == 13 {
            MarketEvent::CompetitorAcquisition
        } else {
            MarketEvent::CompetitorPricingWar
        }
    }

    /// The modifiers of a kind of condition.
    pub open spec fn modifiers(self) -> Seq<MarketModifier> {
        match self {
            MarketEvent::BullMarket => seq![
                modifier(ModifierStat::FundraisingSuccess, 1_300),
                modifier(ModifierStat::WauGrowth, 1_200),
                modifier(ModifierStat::Burn, 1_150),
            ],
            MarketEvent::Recession => seq![
                modifier(ModifierStat::FundraisingSuccess, 600),
                modifier(ModifierStat::WauGrowth, 900),
                modifier(ModifierStat::ChurnRate, 1_300),
                modifier(ModifierStat::Burn, 800),
            ],
            MarketEvent::CompetitorLaunch => seq![
                modifier(ModifierStat::WauGrowth, 850),
                modifier(ModifierStat::Reputation, 900),
                modifier(ModifierStat::ChurnRate, 1_050),
            ],
            MarketEvent::TechBoom => seq![
                modifier(ModifierStat::HiringCost, 1_500),
                modifier(ModifierStat::Velocity, 1_200),
                modifier(ModifierStat::FundraisingSuccess, 1_250),
            ],
            MarketEvent::RegulationChange => seq![
                modifier(ModifierStat::ComplianceRisk, 1_400),
                modifier(ModifierStat::Velocity, 850),
            ],
            MarketEvent::TalentWar => seq![
                modifier(ModifierStat::HiringCost, 1_600),
                modifier(ModifierStat::Morale, 900),
                modifier(ModifierStat::HireVelocityBonus, 1_200),
            ],
            MarketEvent::ViralTrend => seq![
                modifier(ModifierStat::WauGrowth, 1_400),
                modifier(ModifierStat::Reputation, 1_100),
            ],
            MarketEvent::SupplyChainDisruption => seq![
                modifier(ModifierStat::Velocity, 800),
                modifier(ModifierStat::Burn, 1_100),
            ],
            MarketEvent::EconomicStimulus => seq![
                modifier(ModifierStat::FundraisingSuccess, 1_200),
                modifier(ModifierStat::WauGrowth, 1_100),
            ],
            MarketEvent::IndustryConsolidation => seq![
                modifier(ModifierStat::FundraisingSuccess, 1_150),
                modifier(ModifierStat::Reputation, 950),
            ],
            MarketEvent::TechCrunch => seq![
                modifier(ModifierStat::Reputation, 1_200),
                modifier(ModifierStat::WauGrowth, 1_150),
            ],
            MarketEvent::DataBreachScare => seq![
                modifier(ModifierStat::ComplianceRisk, 1_300),
                modifier(ModifierStat::Reputation, 950),
            ],
            MarketEvent::CompetitorFundingRound => seq![
                modifier(ModifierStat::Reputation, 950),
                modifier(ModifierStat::ChurnRate, 1_100),
            ],
            MarketEvent::CompetitorAcquisition => seq![
                modifier(ModifierStat::FundraisingSuccess, 850),
                modifier(ModifierStat::Reputation, 1_200),
            ],
            MarketEvent::CompetitorPricingWar => seq![
                modifier(ModifierStat::MrrGrowth, 900),
                modifier(ModifierStat::ChurnRate, 1_150),
            ],
        }
    }

    /// The factor, in thousandths, by which a condition of this kind changes
    /// the effectiveness of a kind of action; `1_000` where it does not.
    pub open spec fn effectiveness(self, kind: ActionType) -> i64 {
        match (self, kind) {
            (MarketEvent::BullMarket, ActionType::Fundraise) => 1_500,
            (MarketEvent::BullMarket, ActionType::PaidAds) => 1_100,
            (MarketEvent::Recession, ActionType::Fundraise) => 600,
            (MarketEvent::Recession, ActionType::Hire) => 800,
            (MarketEvent::CompetitorLaunch, ActionType::PaidAds) => 700,
            (MarketEvent::CompetitorLaunch, ActionType::ContentLaunch) => 900,
            (MarketEvent::TechBoom, ActionType::Hire) => 1_200,
            (MarketEvent::TechBoom, ActionType::Fundraise) => 1_250,
            (MarketEvent::RegulationChange, ActionType::ComplianceWork) => 1_200,
            (MarketEvent::RegulationChange, ActionType::ShipFeature) => 900,
            (MarketEvent::TalentWar, ActionType::Hire) => 700,
            (MarketEvent::TalentWar, ActionType::Coach) => 1_100,
            (MarketEvent::ViralTrend, ActionType::ContentLaunch) => 1_300,
            (MarketEvent::ViralTrend, ActionType::PaidAds) => 1_200,
            (MarketEvent::SupplyChainDisruption, ActionType::ProcessImprovement) => 1_100,
            (MarketEvent::SupplyChainDisruption, ActionType::IncidentResponse) => 900,
            (MarketEvent::EconomicStimulus, ActionType::Fundraise) => 1_200,
            (MarketEvent::EconomicStimulus, ActionType::FounderLedSales) => 1_100,
            (MarketEvent::IndustryConsolidation, ActionType::Fundraise) => 1_150,
            (MarketEvent::IndustryConsolidation, ActionType::DevRel) => 950,
            (MarketEvent::TechCrunch, ActionType::ContentLaunch) => 1_200,
            (MarketEvent::TechCrunch, ActionType::DevRel) => 1_100,
            (MarketEvent::DataBreachScare, ActionType::ComplianceWork) => 1_300,
            (MarketEvent::DataBreachScare, ActionType::IncidentResponse) => 1_100,
            (MarketEvent::CompetitorFundingRound, ActionType::Fundraise) => 900,
            (MarketEvent::CompetitorFundingRound, ActionType::PaidAds) => 800,
            (MarketEvent::CompetitorAcquisition, ActionType::Fundraise) => 1_100,
            (MarketEvent::CompetitorAcquisition, ActionType::DevRel) => 1_100,
            (MarketEvent::CompetitorPricingWar, ActionType::PaidAds) => 700,
            (MarketEvent::CompetitorPricingWar, ActionType::FounderLedSales) => 800,
            _ => 1_000,
        }
    }
}

fn entry(stat_affected: ModifierStat, multiplier: i64) -> (m: MarketModifier)
    ensures
        m == modifier(stat_affected, multiplier),
{
    MarketModifier { stat_affected, multiplier }
}

/// The kind of condition at a position of the catalog.
pub fn market_event_at(i: usize) -> (event: MarketEvent)
    ensures
        event == MarketEvent::at(i as int),
{
    if i == 0 {
        MarketEvent::BullMarket
    } else if i == 1 {
        MarketEvent::Recession
    } else if i == 2 {
        MarketEvent::CompetitorLaunch
    } else if i == 3 {
        MarketEvent::TechBoom
    } else if i == 4 {
        MarketEvent::RegulationChange
    } else if i == 5 {
        MarketEvent::TalentWar
    } else if i == 6 {
        MarketEvent::ViralTrend
    } else if i == 7 {
        MarketEvent::SupplyChainDisruption
    } else if i == 8 {
        MarketEvent::EconomicStimulus
    } else if i == 9 {
        MarketEvent::IndustryConsolidation
    } else if i == 10 {
        MarketEvent::TechCrunch
    } else if i == 11 {
        MarketEvent::DataBreachScare
    } else if i == 12 {
        MarketEvent::CompetitorFundingRound
    } else if i == 13 {
        MarketEvent::CompetitorAcquisition
    } else {
        MarketEvent::CompetitorPricingWar
    }
}

/// The modifiers of a kind of condition.
pub fn get_modifiers_for_event(event: &MarketEvent) -> (modifiers: Vec<MarketModifier>)
    ensures
        modifiers@ == event.modifiers(),
{
    match event {
        MarketEvent::BullMarket => vec![
            entry(ModifierStat::FundraisingSuccess, 1_300),
            entry(ModifierStat::WauGrowth, 1_200),
            entry(ModifierStat::Burn, 1_150),
        ],
        MarketEvent::Recession => vec![
            entry(ModifierStat::FundraisingSuccess, 600),
            entry(ModifierStat::WauGrowth, 900),
            entry(ModifierStat::ChurnRate, 1_300),
            entry(ModifierStat::Burn, 800),
        ],
        MarketEvent::CompetitorLaunch => vec![
            entry(ModifierStat::WauGrowth, 850),
            entry(ModifierStat::Reputation, 900),
            entry(ModifierStat::ChurnRate, 1_050),
        ],
        MarketEvent::TechBoom => vec![
            entry(ModifierStat::HiringCost, 1_500),
            entry(ModifierStat::Velocity, 1_200),
            entry(ModifierStat::FundraisingSuccess, 1_250),
        ],
        MarketEvent::RegulationChange => vec![
            entry(ModifierStat::ComplianceRisk, 1_400),
            entry(ModifierStat::Velocity, 850),
        ],
        MarketEvent::TalentWar => vec![
            entry(ModifierStat::HiringCost, 1_600),
            entry(ModifierStat::Morale, 900),
            entry(ModifierStat::HireVelocityBonus, 1_200),
        ],
        MarketEvent::ViralTrend => vec![
            entry(ModifierStat::WauGrowth, 1_400),
            entry(ModifierStat::Reputation, 1_100),
        ],
        MarketEvent::SupplyChainDisruption => vec![
            entry(ModifierStat::Velocity, 800),
            entry(ModifierStat::Burn, 1_100),
        ],
        MarketEvent::EconomicStimulus => vec![
            entry(ModifierStat::FundraisingSuccess, 1_200),
            entry(ModifierStat::WauGrowth, 1_100),
        ],
        MarketEvent::IndustryConsolidation => vec![
            entry(ModifierStat::FundraisingSuccess, 1_150),
            entry(ModifierStat::Reputation, 950),
        ],
        MarketEvent::TechCrunch => vec![
            entry(ModifierStat::Reputation, 1_200),
            entry(ModifierStat::WauGrowth, 1_150),
        ],
        MarketEvent::DataBreachScare => vec![
            entry(ModifierStat::ComplianceRisk, 1_300),
            entry(ModifierStat::Reputation, 950),
        ],
        MarketEvent::CompetitorFundingRound => vec![
            entry(ModifierStat::Reputation, 950),
            entry(ModifierStat::ChurnRate, 1_100),
        ],
        MarketEvent::CompetitorAcquisition => vec![
            entry(ModifierStat::FundraisingSuccess, 850),
            entry(ModifierStat::Reputation, 1_200),
        ],
        MarketEvent::CompetitorPricingWar => vec![
            entry(ModifierStat::MrrGrowth, 900),
            entry(ModifierStat::ChurnRate, 1_150),
        ],
    }
}

/// The factor by which a condition of a kind changes the effectiveness of a
/// kind of action.
pub fn effectiveness_factor(event: MarketEvent, kind: ActionType) -> (factor: i64)
    ensures
        factor == event.effectiveness(kind),
        600 <= factor <= 1_500,
{
    match (event, kind) {
        (MarketEvent::BullMarket, ActionType::Fundraise) => 1_500,
        (MarketEvent::BullMarket, ActionType::PaidAds) => 1_100,
        (MarketEvent::Recession, ActionType::Fundraise) => 600,
        (MarketEvent::Recession, ActionType::Hire) => 800,
        (MarketEvent::CompetitorLaunch, ActionType::PaidAds) => 700,
        (MarketEvent::CompetitorLaunch, ActionType::ContentLaunch) => 900,
        (MarketEvent::TechBoom, ActionType::Hire) => 1_200,
        (MarketEvent::TechBoom, ActionType::Fundraise) => 1_250,
        (MarketEvent::RegulationChange, ActionType::ComplianceWork) => 1_200,
        (MarketEvent::RegulationChange, ActionType::ShipFeature) => 900,
        (MarketEvent::TalentWar, ActionType::Hire) => 700,
        (MarketEvent::TalentWar, ActionType::Coach) => 1_100,
        (MarketEvent::ViralTrend, ActionType::ContentLaunch) => 1_300,
        (MarketEvent::ViralTrend, ActionType::PaidAds) => 1_200,
        (MarketEvent::SupplyChainDisruption, ActionType::ProcessImprovement) => 1_100,
        (MarketEvent::SupplyChainDisruption, ActionType::IncidentResponse) => 900,
        (MarketEvent::EconomicStimulus, ActionType::Fundraise) => 1_200,
        (MarketEvent::EconomicStimulus, ActionType::FounderLedSales) => 1_100,
        (MarketEvent::IndustryConsolidation, ActionType::Fundraise) => 1_150,
        (MarketEvent::IndustryConsolidation, ActionType::DevRel) => 950,
        (MarketEvent::TechCrunch, ActionType::ContentLaunch) => 1_200,
        (MarketEvent::TechCrunch, ActionType::DevRel) => 1_100,
        (MarketEvent::DataBreachScare, ActionType::ComplianceWork) => 1_300,
        (MarketEvent::DataBreachScare, ActionType::IncidentResponse) => 1_100,
        (MarketEvent::CompetitorFundingRound, ActionType::Fundraise) => 900,
        (MarketEvent::CompetitorFundingRound, ActionType::PaidAds) => 800,
        (MarketEvent::CompetitorAcquisition, ActionType::Fundraise) => 1_100,
        (MarketEvent::CompetitorAcquisition, ActionType::DevRel) => 1_100,
        (MarketEvent::CompetitorPricingWar, ActionType::PaidAds) => 700,
        (MarketEvent::CompetitorPricingWar, ActionType::FounderLedSales) => 800,
        _ => 1_000,
    }
}

/// Lowest and highest effectiveness that market conditions can give an
/// action, 0.5 and 2.0.
pub const EFFECTIVENESS_MIN: i64 = 500;

pub const EFFECTIVENESS_MAX: i64 = 2_000;

/// The product of the factors of all the conditions for a kind of action,
/// each factor in thousandths, as a whole number.
pub open spec fn factor_product(kind: ActionType, conditions: Seq<MarketCondition>) -> int
    decreases conditions.len(),
{
    if conditions.len() == 0 {
        1
    } else {
        factor_product(kind, conditions.drop_last()) * conditions.last().id.effectiveness(kind)
    }
}

/// The product of the factors of all the conditions for a kind of action,
/// in thousandths, before it is limited. The product is formed exactly and
/// rounded once, toward zero.
pub open spec fn composed_effectiveness(kind: ActionType, conditions: Seq<MarketCondition>) -> int {
    1_000 * factor_product(kind, conditions) / unit_power(conditions.len())
}

/// The effectiveness of an action under the active conditions: the product
/// of the factors of every condition for the action's kind, kept within
/// `[0.5, 2.0]`.
pub fn get_action_effectiveness_modifier(
    action: &Action,
    conditions: &Vec<MarketCondition>,
) -> (effectiveness: i64)
    ensures
        effectiveness == bounded(
            composed_effectiveness(action.kind(), conditions@),
            EFFECTIVENESS_MIN,
            EFFECTIVENESS_MAX,
        ),
        EFFECTIVENESS_MIN <= effectiveness <= EFFECTIVENESS_MAX,
{
    let kind = crate::synergies::get_action_type(action);
    let mut product = Exact::of(1_000);
    let mut i: usize = 0;
    while i < conditions.len()
        invariant
            i <= conditions.len(),
            kind == action.kind(),
            product.is_valid(),
            product.value() == 1_000 * factor_product(kind, conditions@.take(i as int)),
            factor_product(kind, conditions@.take(i as int)) > 0,
        decreases conditions.len() - i,
    {
        let factor = effectiveness_factor(conditions[i].id, kind);
        proof {
            let before = factor_product(kind, conditions@.take(i as int));
            assert(conditions@.take(i + 1).drop_last() =~= conditions@.take(i as int));
            assert((1_000 * before) * factor == 1_000 * (before * factor)) by (nonlinear_arith);
            assert(before * factor > 0) by (nonlinear_arith)
                requires
                    before > 0,
                    factor > 0,
            ;
        }
        product.times(factor);
        i = i + 1;
    }
    let size = conditions.len();
    assert(size <= 0xffff_ffff_ffff_ffff);
    let whole = product.quotient(size as u128);
    proof {
        assert(conditions@.take(i as int) =~= conditions@);
        lemma_unit_power_grows(0, size as nat);
    }
    clamp(whole, EFFECTIVENESS_MIN, EFFECTIVENESS_MAX)
}

/// With no active condition every action is exactly as effective as it is
/// by itself.
pub proof fn lemma_calm_market_is_neutral(kind: ActionType)
    ensures
        bounded(
            composed_effectiveness(kind, Seq::<MarketCondition>::empty()),
            EFFECTIVENESS_MIN,
            EFFECTIVENESS_MAX,
        ) == 1_000,
{
}

/// Taking one condition out takes its share out of `factor_product`.
pub proof fn lemma_factor_product_without(kind: ActionType, s: Seq<MarketCondition>, j: int)
    requires
        0 <= j < s.len(),
    ensures
        factor_product(kind, s) == factor_product(kind, s.remove(j)) * s[j].id.effectiveness(kind),
    decreases s.len(),
{
    if j == s.len() - 1 {
        assert(s.remove(j) =~= s.drop_last());
    } else {
        let rest = s.drop_last();
        lemma_factor_product_without(kind, rest, j);
        assert(s.remove(j).drop_last() =~= rest.remove(j));
        assert(s.remove(j).last() == s.last());
        let others = factor_product(kind, rest.remove(j));
        let taken = s[j].id.effectiveness(kind);
        let last = s.last().id.effectiveness(kind);
        assert((others * taken) * last == (others * last) * taken) by (nonlinear_arith);
    }
}

/// `factor_product` is the same for the same conditions in any order.
pub proof fn lemma_factor_product_in_any_order(
    kind: ActionType,
    a: Seq<MarketCondition>,
    b: Seq<MarketCondition>,
)
    requires
        a.to_multiset() == b.to_multiset(),
    ensures
        factor_product(kind, a) == factor_product(kind, b),
        a.len() == b.len(),
    decreases a.len(),
{
    a.to_multiset_ensures();
    b.to_multiset_ensures();
    if a.len() > 0 {
        let last = a.last();
        assert(a[a.len() - 1] == last);
        assert(a.contains(last));
        to_multiset_contains(a, last);
        to_multiset_contains(b, last);
        assert(b.contains(last));
        let j = choose|j: int| 0 <= j < b.len() && b[j] == last;
        assert(a.remove(a.len() - 1) =~= a.drop_last());
        assert(a.drop_last().to_multiset() == b.remove(j).to_multiset());
        lemma_factor_product_in_any_order(kind, a.drop_last(), b.remove(j));
        lemma_factor_product_without(kind, b, j);
    }
}

/// The effectiveness of a kind of action under market conditions does not
/// depend on the order of the conditions.
pub proof fn lemma_effectiveness_in_any_order(
    kind: ActionType,
    a: Seq<MarketCondition>,
    b: Seq<MarketCondition>,
)
    requires
        a.to_multiset() == b.to_multiset(),
    ensures
        composed_effectiveness(kind, a) == composed_effectiveness(kind, b),
{
    lemma_factor_product_in_any_order(kind, a, b);
}

/// The effectiveness of a kind of action depends on the kinds of the
/// conditions alone: neither how long they last nor what modifiers they
/// carry is of any account.
pub proof fn lemma_effectiveness_reads_the_kinds(
    kind: ActionType,
    a: Seq<MarketCondition>,
    b: Seq<MarketCondition>,
)
    requires
        a.len() == b.len(),
        forall|i: int| 0 <= i < a.len() ==> (#[trigger] a[i]).id == b[i].id,
    ensures
        factor_product(kind, a) == factor_product(kind, b),
        composed_effectiveness(kind, a) == composed_effectiveness(kind, b),
    decreases a.len(),
{
    if a.len() > 0 {
        assert(a.last().id == a[a.len() - 1].id);
        lemma_effectiveness_reads_the_kinds(kind, a.drop_last(), b.drop_last());
    }
}

/// The conditions one week later: every duration is one week shorter, and
/// the conditions that have run out are gone. The order is kept.
pub open spec fn aged(conditions: Seq<MarketCondition>) -> Seq<MarketCondition>
    decreases conditions.len(),
{
    if conditions.len() == 0 {
        Seq::<MarketCondition>::empty()
    } else {
        let c = conditions.last();
        if c.duration_weeks > 1 {
            aged(conditions.drop_last()).push(
                MarketCondition { duration_weeks: (c.duration_weeks - 1) as u32, ..c },
            )
        } else {
            aged(conditions.drop_last())
        }
    }
}

/// Every condition that is left after a week has at least one week to run,
/// and no more conditions are left than there were.
pub proof fn lemma_aged_conditions_are_live(conditions: Seq<MarketCondition>)
    ensures
        aged(conditions).len() <= conditions.len(),
        forall|i: int|
            0 <= i < aged(conditions).len() ==> (#[trigger] aged(conditions)[i]).duration_weeks >= 1,
    decreases conditions.len(),
{
    if conditions.len() > 0 {
        lemma_aged_conditions_are_live(conditions.drop_last());
    }
}

/// Lets one week pass for the active conditions: shortens every duration by
/// a week and removes the conditions that have run out.
pub fn update_market_conditions(state: &mut GameState)
    ensures
        final(state).active_market_conditions@ == aged(old(state).active_market_conditions@),
        *final(state) == (GameState {
            active_market_conditions: final(state).active_market_conditions,
            ..*old(state)
        }),
{
    let mut kept: Vec<MarketCondition> = Vec::new();
    let ghost all = state.active_market_conditions@;
    let ghost mut done: int = 0;
    while state.active_market_conditions.len() > 0
        invariant
            0 <= done <= all.len(),
            state.active_market_conditions@ == all.skip(done),
            kept@ == aged(all.take(done)),
            *state == (GameState {
                active_market_conditions: state.active_market_conditions,
                ..*old(state)
            }),
        decreases state.active_market_conditions.len(),
    {
        let mut condition = state.active_market_conditions.remove(0);
        proof {
            assert(condition == all[done]);
            assert(all.take(done + 1).drop_last() =~= all.take(done));
            assert(all.take(done + 1).last() == all[done]);
            assert(all.skip(done).remove(0) =~= all.skip(done + 1));
            done = done + 1;
        }
        if condition.duration_weeks > 1 {
            condition.duration_weeks = condition.duration_weeks - 1;
            kept.push(condition);
        }
    }
    assert(all.take(done) =~= all);
    state.active_market_conditions = kept;
}

/// What the draw of a week's market condition came to.
#[derive(Debug, Clone, Copy, PartialEq, Eq, Structural)]
pub struct MarketDraw {
    /// The chance, per mille, at which the trial for a condition was held.
    pub chance: i64,
    /// Whether a condition arises at all.
    pub arises: bool,
    /// Position of the kind of condition among the ambient kinds.
    pub event: usize,
    pub duration_weeks: u32,
    /// An active competitor, when there is one.
    pub rival: Option<usize>,
}

impl MarketDraw {
    /// The trial for a condition as it was held.
    pub open spec fn trial(self) -> Trial {
        Trial { chance: self.chance, hit: self.arises }
    }

    /// Whether the draw is one that [`roll_market_condition`] can make: a
    /// trial held at the weekly chance of a condition, an ambient kind, a
    /// duration of four to eight weeks, and a rival that is in the market
    /// whenever a competitor is.
    pub open spec fn fits(self, state: GameState) -> bool {
        &&& self.trial().is_held_at(CONDITION_CHANCE as int)
        &&& self.event < AMBIENT_EVENTS
        &&& DURATION_MIN <= self.duration_weeks <= DURATION_MAX
        &&& self.rival matches Some(i) ==> crate::competitors::is_active(state.competitors@, i as int)
        &&& self.rival.is_none() <==> !crate::competitors::any_active(state.competitors@)
    }
}

/// How strongly the launch of a competitor at a funding stage is felt: 0.8
/// for a bootstrapped one up to 1.8 for a public company.
pub open spec fn launch_weight(stage: FundingStage) -> i64 {
    match stage {
        FundingStage::Bootstrapped => 800,
        FundingStage::Seed => 1_000,
        FundingStage::SeriesA => 1_200,
        FundingStage::SeriesB => 1_400,
        FundingStage::SeriesC => 1_600,
        FundingStage::PublicCompany => 1_800,
    }
}

/// A multiplier whose distance from one is scaled by a weight.
pub open spec fn weighted(multiplier: i64, weight: i64) -> i64 {
    capped(scaled(capped(multiplier - 1_000) as int, weight as int, 1_000) + 1_000)
}

/// The modifiers with every multiplier's distance from one scaled by the
/// weight.
pub open spec fn weighted_modifiers(
    modifiers: Seq<MarketModifier>,
    weight: i64,
) -> Seq<MarketModifier> {
    Seq::new(
        modifiers.len(),
        |i: int| MarketModifier { multiplier: weighted(modifiers[i].multiplier, weight), ..modifiers[i] },
    )
}

/// The modifiers of the condition that a draw designates: those of its
/// kind, which for a competitor's launch are weighted by the funding stage of
/// the rival when there is one.
pub open spec fn drawn_modifiers(state: GameState, draw: MarketDraw) -> Seq<MarketModifier> {
    let event = MarketEvent::at(draw.event as int);
    match (event, draw.rival) {
        (MarketEvent::CompetitorLaunch, Some(i)) => if i < state.competitors@.len() {
            weighted_modifiers(
                event.modifiers(),
                launch_weight(state.competitors@[i as int].funding_stage),
            )
        } else {
            event.modifiers()
        },
        _ => event.modifiers(),
    }
}

/// The modifiers with every multiplier's distance from one scaled.
pub fn scale_modifiers(
    modifiers: &Vec<MarketModifier>,
    weight: i64,
) -> (scaled_modifiers: Vec<MarketModifier>)
    ensures
        scaled_modifiers@ == weighted_modifiers(modifiers@, weight),
{
    let mut out: Vec<MarketModifier> = Vec::new();
    let mut i: usize = 0;
    while i < modifiers.len()
        invariant
            i <= modifiers.len(),
            out@.len() == i,
            forall|j: int| 0 <= j < i ==> out@[j] == weighted_modifiers(modifiers@, weight)[j],
        decreases modifiers.len() - i,
    {
        let m = modifiers[i];
        out.push(
            MarketModifier {
                stat_affected: m.stat_affected,
                multiplier: sum(scale(crate::fixed::diff(m.multiplier, 1_000), weight, 1_000), 1_000),
            },
        );
        i = i + 1;
    }
    assert(out@ =~= weighted_modifiers(modifiers@, weight));
    out
}

/// How strongly the launch of a competitor at a funding stage is felt.
pub fn launch_weight_of(stage: FundingStage) -> (weight: i64)
    ensures
        weight == launch_weight(stage),
{
    match stage {
        FundingStage::Bootstrapped => 800,
        FundingStage::Seed => 1_000,
        FundingStage::SeriesA => 1_200,
        FundingStage::SeriesB => 1_400,
        FundingStage::SeriesC => 1_600,
        FundingStage::PublicCompany => 1_800,
    }
}

/// Draws what a week's market condition needs: whether one arises (15
/// percent), its kind among the ambient kinds, its duration and a rival.
pub fn roll_market_condition(state: &GameState, rng: &mut GameRng) -> (draw: MarketDraw)
    ensures
        draw.fits(*state),
{
    let held = rng.trial(CONDITION_CHANCE);
    let event = rng.between(0, AMBIENT_EVENTS as i64 - 1) as usize;
    let duration_weeks = rng.between(DURATION_MIN as i64, DURATION_MAX as i64) as u32;
    let rival = crate::competitors::get_random_competitor(&state.competitors, rng);
    MarketDraw { chance: held.chance, arises: held.hit, event, duration_weeks, rival }
}

/// The condition that a draw designates: none unless one arises; otherwise
/// a condition of the drawn kind and duration with the modifiers of
/// [`drawn_modifiers`].
pub fn condition_for_draw(
    state: &GameState,
    draw: &MarketDraw,
) -> (condition: Option<MarketCondition>)
    ensures
        condition.is_some() == draw.arises,
        condition matches Some(c) ==> c.id == MarketEvent::at(draw.event as int)
            && c.duration_weeks == draw.duration_weeks && c.modifiers@ == drawn_modifiers(
            *state,
            *draw,
        ),
{
    if !draw.arises {
        return None;
    }
    let event = market_event_at(draw.event);
    let base = get_modifiers_for_event(&event);
    let modifiers = match (event, draw.rival) {
        (MarketEvent::CompetitorLaunch, Some(i)) => if i < state.competitors.len() {
            scale_modifiers(&base, launch_weight_of(state.competitors[i].funding_stage))
        } else {
            base
        },
        _ => base,
    };
    Some(MarketCondition { id: event, duration_weeks: draw.duration_weeks, modifiers })
}

/// With a chance of 15 percent, a new market condition: one of the ambient
/// kinds, lasting four to eight weeks. Whatever is drawn, the result is the
/// condition that [`condition_for_draw`] gives for a fitting draw.
pub fn generate_market_condition(
    state: &GameState,
    week: u32,
    rng: &mut GameRng,
) -> (condition: Option<MarketCondition>)
    ensures
        exists|draw: MarketDraw| draw.fits(*state) && #[trigger] designates(*state, draw, condition),
        condition matches Some(c) ==> {
            &&& exists|i: int| 0 <= i < AMBIENT_EVENTS && c.id == MarketEvent::at(i)
            &&& DURATION_MIN <= c.duration_weeks <= DURATION_MAX
            &&& c.modifiers@.len() == c.id.modifiers().len()
            &&& c.modifiers@.len() >= 2
            &&& forall|j: int|
                0 <= j < c.modifiers@.len() ==> (#[trigger] c.modifiers@[j]).stat_affected
                    == c.id.modifiers()[j].stat_affected
            &&& c.id != MarketEvent::CompetitorLaunch ==> c.modifiers@ == c.id.modifiers()
        },
{
    let draw = roll_market_condition(state, rng);
    let condition = condition_for_draw(state, &draw);
    proof {
        if condition.is_some() {
            assert(condition.unwrap().id == MarketEvent::at(draw.event as int));
        }
        assert(designates(*state, draw, condition));
    }
    condition
}

/// Whether `condition` is what a draw designates in a state: nothing unless
/// a condition arises; otherwise a condition of the drawn kind and duration
/// with the modifiers of [`drawn_modifiers`].
pub open spec fn designates(
    state: GameState,
    draw: MarketDraw,
    condition: Option<MarketCondition>,
) -> bool {
    &&& condition.is_some() == draw.arises
    &&& condition matches Some(c) ==> c.id == MarketEvent::at(draw.event as int)
        && c.duration_weeks == draw.duration_weeks && c.modifiers@ == drawn_modifiers(state, draw)
}

/// The market condition that a competitor's funding round sets off: six
/// weeks of reputation times 0.95 and churn times 1.1.
pub fn generate_competitor_funding_condition() -> (condition: MarketCondition)
    ensures
        condition.id == MarketEvent::CompetitorFundingRound,
        condition.duration_weeks == 6,
        condition.modifiers@ == seq![
            modifier(ModifierStat::Reputation, 950),
            modifier(ModifierStat::ChurnRate, 1_100),
        ],
{
    MarketCondition {
        id: MarketEvent::CompetitorFundingRound,
        duration_weeks: 6,
        modifiers: vec![entry(ModifierStat::Reputation, 950), entry(ModifierStat::ChurnRate, 1_100)],
    }
}

/// The market condition that the acquisition of a competitor sets off:
/// eight weeks of fundraising success times 0.85 and reputation times 1.2.
pub fn generate_competitor_acquisition_condition() -> (condition: MarketCondition)
    ensures
        condition.id == MarketEvent::CompetitorAcquisition,
        condition.duration_weeks == 8,
        condition.modifiers@ == seq![
            modifier(ModifierStat::FundraisingSuccess, 850),
            modifier(ModifierStat::Reputation, 1_200),
        ],
{
    MarketCondition {
        id: MarketEvent::CompetitorAcquisition,
        duration_weeks: 8,
        modifiers: vec![
            entry(ModifierStat::FundraisingSuccess, 850),
            entry(ModifierStat::Reputation, 1_200),
        ],
    }
}

/// The market condition that a pricing war sets off: four weeks of growth
/// times 0.9 and churn times 1.15.
pub fn generate_pricing_war_condition() -> (condition: MarketCondition)
    ensures
        condition.id == MarketEvent::CompetitorPricingWar,
        condition.duration_weeks == 4,
        condition.modifiers@ == seq![
            modifier(ModifierStat::WauGrowth, 900),
            modifier(ModifierStat::ChurnRate, 1_150),
        ],
{
    MarketCondition {
        id: MarketEvent::CompetitorPricingWar,
        duration_weeks: 4,
        modifiers: vec![entry(ModifierStat::WauGrowth, 900), entry(ModifierStat::ChurnRate, 1_150)],
    }
}

/// The product of the multipliers for `stat` among the modifiers, each in
/// thousandths, as a whole number.
pub open spec fn multiplier_product(stat: ModifierStat, modifiers: Seq<MarketModifier>) -> int
    decreases modifiers.len(),
{
    if modifiers.len() == 0 {
        1
    } else if modifiers.last().stat_affected == stat {
        multiplier_product(stat, modifiers.drop_last()) * modifiers.last().multiplier
    } else {
        multiplier_product(stat, modifiers.drop_last())
    }
}

/// How many of the modifiers are for `stat`.
pub open spec fn multiplier_count(stat: ModifierStat, modifiers: Seq<MarketModifier>) -> nat
    decreases modifiers.len(),
{
    if modifiers.len() == 0 {
        0
    } else if modifiers.last().stat_affected == stat {
        multiplier_count(stat, modifiers.drop_last()) + 1
    } else {
        multiplier_count(stat, modifiers.drop_last())
    }
}

/// The product of the multipliers for `stat` of all the conditions.
pub open spec fn condition_product(stat: ModifierStat, conditions: Seq<MarketCondition>) -> int
    decreases conditions.len(),
{
    if conditions.len() == 0 {
        1
    } else {
        condition_product(stat, conditions.drop_last()) * multiplier_product(
            stat,
            conditions.last().modifiers@,
        )
    }
}

/// How many multipliers for `stat` the conditions hold between them.
pub open spec fn condition_count(stat: ModifierStat, conditions: Seq<MarketCondition>) -> nat
    decreases conditions.len(),
{
    if conditions.len() == 0 {
        0
    } else {
        condition_count(stat, conditions.drop_last()) + multiplier_count(
            stat,
            conditions.last().modifiers@,
        )
    }
}

/// `value` times a product of `count` multipliers in thousandths: the
/// product is exact, and the result is rounded once, toward zero, and
/// capped. Without a multiplier the value stays as it is.
pub open spec fn multiplied_out(value: i64, product: int, count: nat) -> i64 {
    if count == 0 {
        value
    } else {
        capped(trunc_div(value * product, unit_power(count)))
    }
}

/// `value` times every multiplier for `stat` among the modifiers.
pub open spec fn modified(value: i64, stat: ModifierStat, modifiers: Seq<MarketModifier>) -> i64 {
    multiplied_out(value, multiplier_product(stat, modifiers), multiplier_count(stat, modifiers))
}

/// `value` times every multiplier for `stat` of every condition.
pub open spec fn adjusted(value: i64, stat: ModifierStat, conditions: Seq<MarketCondition>) -> i64 {
    multiplied_out(value, condition_product(stat, conditions), condition_count(stat, conditions))
}

/// Multiplies `held` by every multiplier for `stat` among the modifiers, and
/// says how many there were.
pub fn multiply_by_modifiers(
    held: &mut Exact,
    stat: ModifierStat,
    modifiers: &Vec<MarketModifier>,
) -> (count: usize)
    requires
        old(held).is_valid(),
    ensures
        final(held).is_valid(),
        final(held).value() == old(held).value() * multiplier_product(stat, modifiers@),
        count == multiplier_count(stat, modifiers@),
{
    let ghost start = held.value();
    let mut count: usize = 0;
    let mut i: usize = 0;
    proof {
        assert(start * 1 == start);
    }
    while i < modifiers.len()
        invariant
            i <= modifiers.len(),
            held.is_valid(),
            held.value() == start * multiplier_product(stat, modifiers@.take(i as int)),
            count == multiplier_count(stat, modifiers@.take(i as int)),
            count <= i,
        decreases modifiers.len() - i,
    {
        proof {
            let before = multiplier_product(stat, modifiers@.take(i as int));
            let m = modifiers@[i as int].multiplier;
            assert(modifiers@.take(i + 1).drop_last() =~= modifiers@.take(i as int));
            assert((start * before) * m == start * (before * m)) by (nonlinear_arith);
        }
        if modifiers[i].stat_affected == stat {
            held.times(modifiers[i].multiplier);
            count = count + 1;
        }
        i = i + 1;
    }
    assert(modifiers@.take(i as int) =~= modifiers@);
    count
}

/// Applies to `value` every multiplier for `stat` among the modifiers.
pub fn apply_modifiers(
    value: i64,
    stat: ModifierStat,
    modifiers: &Vec<MarketModifier>,
) -> (result: i64)
    ensures
        result == modified(value, stat, modifiers@),
{
    let mut held = Exact::of(value);
    let count = multiply_by_modifiers(&mut held, stat, modifiers);
    if count == 0 {
        value
    } else {
        held.quotient(count as u128)
    }
}

/// Applies to `value` every multiplier for `stat` of every condition.
pub fn adjust(value: i64, stat: ModifierStat, conditions: &Vec<MarketCondition>) -> (result: i64)
    ensures
        result == adjusted(value, stat, conditions@),
{
    let mut held = Exact::of(value);
    let mut count: u128 = 0;
    let mut i: usize = 0;
    proof {
        assert(value * 1 == value);
    }
    while i < conditions.len()
        invariant
            i <= conditions.len(),
            held.is_valid(),
            held.value() == value * condition_product(stat, conditions@.take(i as int)),
            count == condition_count(stat, conditions@.take(i as int)),
            count <= i * 0x1_0000_0000_0000_0000,
        decreases conditions.len() - i,
    {
        proof {
            let before = condition_product(stat, conditions@.take(i as int));
            let m = multiplier_product(stat, conditions@[i as int].modifiers@);
            assert(conditions@.take(i + 1).drop_last() =~= conditions@.take(i as int));
            assert((value * before) * m == value * (before * m)) by (nonlinear_arith);
            assert((i + 1) * 0x1_0000_0000_0000_0000 <= 0xffff_ffff_ffff_ffff
                * 0x1_0000_0000_0000_0000) by (nonlinear_arith)
                requires
                    i + 1 <= 0xffff_ffff_ffff_ffff,
            ;
        }
        let added = multiply_by_modifiers(&mut held, stat, &conditions[i].modifiers);
        count = count + added as u128;
        i = i + 1;
    }
    assert(conditions@.take(i as int) =~= conditions@);
    if count == 0 {
        value
    } else {
        held.quotient(count)
    }
}

/// Taking one condition out takes its share out of `condition_product`.
pub proof fn lemma_condition_product_without(stat: ModifierStat, s: Seq<MarketCondition>, j: int)
    requires
        0 <= j < s.len(),
    ensures
        condition_product(stat, s) == condition_product(stat, s.remove(j)) * multiplier_product(
            stat,
            s[j].modifiers@,
        ),
    decreases s.len(),
{
    if j == s.len() - 1 {
        assert(s.remove(j) =~= s.drop_last());
    } else {
        let rest = s.drop_last();
        lemma_condition_product_without(stat, rest, j);
        assert(s.remove(j).drop_last() =~= rest.remove(j));
        assert(s.remove(j).last() == s.last());
        let others = condition_product(stat, rest.remove(j));
        let taken = multiplier_product(stat, s[j].modifiers@);
        let last = multiplier_product(stat, s.last().modifiers@);
        assert((others * taken) * last == (others * last) * taken) by (nonlinear_arith);
    }
}

/// `condition_product` is the same for the same conditions in any order.
pub proof fn lemma_condition_product_in_any_order(
    stat: ModifierStat,
    a: Seq<MarketCondition>,
    b: Seq<MarketCondition>,
)
    requires
        a.to_multiset() == b.to_multiset(),
    ensures
        condition_product(stat, a) == condition_product(stat, b),
        a.len() == b.len(),
    decreases a.len(),
{
    a.to_multiset_ensures();
    b.to_multiset_ensures();
    if a.len() > 0 {
        let last = a.last();
        assert(a[a.len() - 1] == last);
        assert(a.contains(last));
        to_multiset_contains(a, last);
        to_multiset_contains(b, last);
        assert(b.contains(last));
        let j = choose|j: int| 0 <= j < b.len() && b[j] == last;
        assert(a.remove(a.len() - 1) =~= a.drop_last());
        assert(a.drop_last().to_multiset() == b.remove(j).to_multiset());
        lemma_condition_product_in_any_order(stat, a.drop_last(), b.remove(j));
        lemma_condition_product_without(stat, b, j);
    }
}

/// Taking one condition out takes its share out of `condition_count`.
pub proof fn lemma_condition_count_without(stat: ModifierStat, s: Seq<MarketCondition>, j: int)
    requires
        0 <= j < s.len(),
    ensures
        condition_count(stat, s) == condition_count(stat, s.remove(j)) + multiplier_count(
            stat,
            s[j].modifiers@,
        ),
    decreases s.len(),
{
    if j == s.len() - 1 {
        assert(s.remove(j) =~= s.drop_last());
    } else {
        let rest = s.drop_last();
        lemma_condition_count_without(stat, rest, j);
        assert(s.remove(j).drop_last() =~= rest.remove(j));
        assert(s.remove(j).last() == s.last());
    }
}

/// `condition_count` is the same for the same conditions in any order.
pub proof fn lemma_condition_count_in_any_order(
    stat: ModifierStat,
    a: Seq<MarketCondition>,
    b: Seq<MarketCondition>,
)
    requires
        a.to_multiset() == b.to_multiset(),
    ensures
        condition_count(stat, a) == condition_count(stat, b),
        a.len() == b.len(),
    decreases a.len(),
{
    a.to_multiset_ensures();
    b.to_multiset_ensures();
    if a.len() > 0 {
        let last = a.last();
        assert(a[a.len() - 1] == last);
        assert(a.contains(last));
        to_multiset_contains(a, last);
        to_multiset_contains(b, last);
        assert(b.contains(last));
        let j = choose|j: int| 0 <= j < b.len() && b[j] == last;
        assert(a.remove(a.len() - 1) =~= a.drop_last());
        assert(a.drop_last().to_multiset() == b.remove(j).to_multiset());
        lemma_condition_count_in_any_order(stat, a.drop_last(), b.remove(j));
        lemma_condition_count_without(stat, b, j);
    }
}

/// What market conditions make of a value does not depend on the order of
/// the conditions.
pub proof fn lemma_adjusted_in_any_order(
    value: i64,
    stat: ModifierStat,
    a: Seq<MarketCondition>,
    b: Seq<MarketCondition>,
)
    requires
        a.to_multiset() == b.to_multiset(),
    ensures
        adjusted(value, stat, a) == adjusted(value, stat, b),
{
    lemma_condition_product_in_any_order(stat, a, b);
    lemma_condition_count_in_any_order(stat, a, b);
}

impl GameState {
    /// Every modifier of every active condition, condition by condition.
    pub open spec fn active_modifiers(conditions: Seq<MarketCondition>) -> Seq<(ModifierStat, i64)>
        decreases conditions.len(),
    {
        if conditions.len() == 0 {
            Seq::<(ModifierStat, i64)>::empty()
        } else {
            Self::active_modifiers(conditions.drop_last()) + conditions.last().modifiers@.map_values(
                |m: MarketModifier| (m.stat_affected, m.multiplier),
            )
        }
    }

    /// Every modifier of every active condition, as pairs of the stat and
    /// its multiplier.
    pub fn get_active_modifiers(&self) -> (modifiers: Vec<(ModifierStat, i64)>)
        ensures
            modifiers@ == Self::active_modifiers(self.active_market_conditions@),
    {
        let mut modifiers: Vec<(ModifierStat, i64)> = Vec::new();
        let mut i: usize = 0;
        while i < self.active_market_conditions.len()
            invariant
                i <= self.active_market_conditions.len(),
                modifiers@ == Self::active_modifiers(self.active_market_conditions@.take(i as int)),
            decreases self.active_market_conditions.len() - i,
        {
            let ghost before = modifiers@;
            let condition = &self.active_market_conditions[i];
            let mut j: usize = 0;
            while j < condition.modifiers.len()
                invariant
                    j <= condition.modifiers.len(),
                    modifiers@ == before + condition.modifiers@.take(j as int).map_values(
                        |m: MarketModifier| (m.stat_affected, m.multiplier),
                    ),
                decreases condition.modifiers.len() - j,
            {
                let m = condition.modifiers[j];
                modifiers.push((m.stat_affected, m.multiplier));
                assert(condition.modifiers@.take(j + 1).map_values(
                    |m: MarketModifier| (m.stat_affected, m.multiplier),
                ) =~= condition.modifiers@.take(j as int).map_values(
                    |m: MarketModifier| (m.stat_affected, m.multiplier),
                ).push((m.stat_affected, m.multiplier)));
                j = j + 1;
            }
            assert(condition.modifiers@.take(j as int) =~= condition.modifiers@);
            assert(self.active_market_conditions@.take(i + 1).drop_last()
                =~= self.active_market_conditions@.take(i as int));
            i = i + 1;
        }
        assert(self.active_market_conditions@.take(i as int) =~= self.active_market_conditions@);
        modifiers
    }

    /// A base value adjusted by the active market conditions: multiplied by
    /// every multiplier that the conditions hold for the metric.
    pub fn calculate_market_adjusted_metric(
        &self,
        base_value: i64,
        metric: ModifierStat,
    ) -> (value: i64)
        ensures
            value == adjusted(base_value, metric, self.active_market_conditions@),
    {
        adjust(base_value, metric, &self.active_market_conditions)
    }

    /// The state after the conditions have acted on the stats they modify:
    /// growth, burn, churn, velocity, morale, reputation and compliance risk.
    pub open spec fn under_conditions(self, conditions: Seq<MarketCondition>) -> GameState {
        GameState {
            wau_growth_rate: adjusted(self.wau_growth_rate, ModifierStat::WauGrowth, conditions),
            burn: adjusted(self.burn, ModifierStat::Burn, conditions),
            churn_rate: adjusted(self.churn_rate, ModifierStat::ChurnRate, conditions),
            velocity: adjusted(self.velocity, ModifierStat::Velocity, conditions),
            morale: adjusted(self.morale, ModifierStat::Morale, conditions),
            reputation: adjusted(self.reputation, ModifierStat::Reputation, conditions),
            compliance_risk: adjusted(self.compliance_risk, ModifierStat::ComplianceRisk, conditions),
            ..self
        }
    }
}

/// Lets the conditions act on the stats: each of growth, burn, churn,
/// velocity, morale, reputation and compliance risk is multiplied by every
/// multiplier that the conditions hold for it. Modifiers for other
/// quantities are left to the steps that use them.
pub fn apply_market_modifiers(state: &mut GameState, conditions: &Vec<MarketCondition>)
    ensures
        *final(state) == old(state).under_conditions(conditions@),
{
    state.wau_growth_rate = adjust(state.wau_growth_rate, ModifierStat::WauGrowth, conditions);
    state.burn = adjust(state.burn, ModifierStat::Burn, conditions);
    state.churn_rate = adjust(state.churn_rate, ModifierStat::ChurnRate, conditions);
    state.velocity = adjust(state.velocity, ModifierStat::Velocity, conditions);
    state.morale = adjust(state.morale, ModifierStat::Morale, conditions);
    state.reputation = adjust(state.reputation, ModifierStat::Reputation, conditions);
    state.compliance_risk = adjust(state.compliance_risk, ModifierStat::ComplianceRisk, conditions);
}

/// Whether two conditions are of the same kind, run as long, and hold the
/// same modifiers.
pub open spec fn same_condition(a: MarketCondition, b: MarketCondition) -> bool {
    a.id == b.id && a.duration_weeks == b.duration_weeks && a.modifiers@ == b.modifiers@
}

/// A copy of the conditions that are active in the state.
pub fn get_active_conditions(state: &GameState) -> (conditions: Vec<MarketCondition>)
    ensures
        conditions@.len() == state.active_market_conditions@.len(),
        forall|i: int|
            0 <= i < conditions@.len() ==> same_condition(
                #[trigger] conditions@[i],
                state.active_market_conditions@[i],
            ),
{
    let mut conditions: Vec<MarketCondition> = Vec::new();
    let mut i: usize = 0;
    while i < state.active_market_conditions.len()
        invariant
            i <= state.active_market_conditions.len(),
            conditions@.len() == i,
            forall|k: int|
                0 <= k < i ==> same_condition(
                    #[trigger] conditions@[k],
                    state.active_market_conditions@[k],
                ),
        decreases state.active_market_conditions.len() - i,
    {
        let source = &state.active_market_conditions[i];
        let mut modifiers: Vec<MarketModifier> = Vec::new();
        let mut j: usize = 0;
        while j < source.modifiers.len()
            invariant
                j <= source.modifiers.len(),
                modifiers@ == source.modifiers@.take(j as int),
            decreases source.modifiers.len() - j,
        {
            modifiers.push(source.modifiers[j]);
            assert(source.modifiers@.take(j + 1) =~= source.modifiers@.take(j as int).push(
                source.modifiers@[j as int],
            ));
            j = j + 1;
        }
        assert(source.modifiers@.take(j as int) =~= source.modifiers@);
        conditions.push(
            MarketCondition { id: source.id, duration_weeks: source.duration_weeks, modifiers },
        );
        i = i + 1;
    }
    conditions
}

} // verus!
