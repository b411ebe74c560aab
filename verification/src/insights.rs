//! Weekly insights: what the change from one week to the next is worth
//! pointing out, how urgent each point is, and which three are reported.
use crate::competitors::calculate_market_share;
use crate::competitors::get_most_threatening_competitor;
use crate::competitors::get_shipping_velocity_ratio;
use crate::competitors::is_most_threatening;
use crate::competitors::player_share;
use crate::competitors::velocity_ratio;
use crate::competitors::Competitor;
use crate::competitors::FundingStage;
use crate::fixed::capped;
use crate::fixed::scaled;
use crate::fixed::sum;
use crate::state::GameState;
use vstd::prelude::*;

verus! {

/// Number of kinds of insight.
pub const INSIGHT_COUNT: usize = 16;

/// Most insights that a week reports.
pub const INSIGHT_LIMIT: usize = 3;

/// What an insight is about.
#[derive(Debug, Clone, Copy, PartialEq, Eq, Hash, Structural)]
pub enum InsightCategory {
    Morale,
    TechnicalDebt,
    Runway,
    Growth,
    CustomerSatisfaction,
    Velocity,
    Burnout,
    Competition,
}

/// How urgent an insight is.
#[derive(Debug, Clone, Copy, PartialEq, Eq, Hash, Structural)]
pub enum InsightSeverity {
    /// Worth knowing, not urgent.
    Info,
    /// Needs attention.
    Warning,
    /// Needs action now.
    Critical,
}

/// The kinds of insight, in the order in which they are checked.
#[derive(Debug, Clone, Copy, PartialEq, Eq, Hash, Structural)]
pub enum InsightKind {
    MoraleDeclining,
    StrongCulture,
    TechDebtAccumulating,
    EngineeringExcellence,
    RunwayLow,
    FinancialDiscipline,
    GrowthStagnating,
    LeakyBucket,
    VelocityDeclining,
    BurnoutRisk,
    CustomersLoveProduct,
    CompetitorOutShipping,
    FundingGap,
    LosingMarketShare,
    CompetitiveMoat,
    AcquisitionOpportunity,
}

/// An insight into the week.
#[derive(Debug, Clone, Copy, PartialEq, Eq, Structural)]
pub struct WeeklyInsight {
    pub kind: InsightKind,
    pub category: InsightCategory,
    pub severity: InsightSeverity,
}

/// Weeks since the founder last took a break. Breaks are not recorded;
/// eight weeks are assumed.
pub const WEEKS_SINCE_BREAK: u32 = 8;

/// The funding of all competitors added up, capped.
pub open spec fn total_funding(competitors: Seq<Competitor>) -> i64
    decreases competitors.len(),
{
    if competitors.len() == 0 {
        0
    } else {
        capped(total_funding(competitors.drop_last()) + competitors.last().total_funding)
    }
}

/// The feature parities of all competitors added up, capped.
pub open spec fn total_parity(competitors: Seq<Competitor>) -> i64
    decreases competitors.len(),
{
    if competitors.len() == 0 {
        0
    } else {
        capped(total_parity(competitors.drop_last()) + competitors.last().feature_parity)
    }
}

/// The average feature parity of the competitors; zero without any.
pub open spec fn average_parity(competitors: Seq<Competitor>) -> i64 {
    if competitors.len() == 0 {
        0
    } else {
        scaled(total_parity(competitors) as int, 1, competitors.len() as int)
    }
}

/// Whether some competitor that is still in the market is bootstrapped and
/// has a feature parity below 30.
pub open spec fn has_struggling_rival(competitors: Seq<Competitor>) -> bool {
    exists|i: int|
        0 <= i < competitors.len() && !(#[trigger] competitors[i]).is_acquired
            && competitors[i].feature_parity < 30_000 && competitors[i].funding_stage
            == FundingStage::Bootstrapped
}

/// Whether the most threatening competitor ships more than one and a half
/// times as fast as the player.
pub open spec fn is_outshipped(s: GameState) -> bool {
    exists|i: int|
        is_most_threatening(s.competitors@, i) && velocity_ratio(s.competitors@[i], s.velocity) > 1_500
}

/// The player's share of the market in a state.
pub open spec fn market_share_in(s: GameState) -> i64 {
    player_share(s.competitors@, s.reputation, s.nps, s.velocity)
}

/// What is kept of last week's state for comparison with this week's.
#[derive(Debug, Clone, Copy, PartialEq, Eq, Structural)]
pub struct Baseline {
    pub morale: i64,
    pub tech_debt: i64,
    pub velocity: i64,
    /// The player's share of the market.
    pub market_share: i64,
}

/// What is kept of a state for the comparison a week later.
pub open spec fn baseline_in(s: GameState) -> Baseline {
    Baseline {
        morale: s.morale,
        tech_debt: s.tech_debt,
        velocity: s.velocity,
        market_share: market_share_in(s),
    }
}

impl InsightKind {
    /// The kind at a position of the checking order.
    pub open spec fn at(i: int) -> InsightKind {
        if i == 0 {
            InsightKind::MoraleDeclining
        } else if i == 1 {
            InsightKind::StrongCulture
        } else if i == 2 {
            InsightKind::TechDebtAccumulating
        } else if i == 3 {
            InsightKind::EngineeringExcellence
        } else if i == 4 {
            InsightKind::RunwayLow
        } else if i == 5 {
            InsightKind::FinancialDiscipline
        } else if i == 6 {
            InsightKind::GrowthStagnating
        } else if i == 7 {
            InsightKind::LeakyBucket
        } else if i == 8 {
            InsightKind::VelocityDeclining
        } else if i == 9 {
            InsightKind::BurnoutRisk
        } else if i == 10 {
            InsightKind::CustomersLoveProduct
        } else if i == 11 {
            InsightKind::CompetitorOutShipping
        } else if i == 12 {
            InsightKind::FundingGap
        } else if i == 13 {
            InsightKind::LosingMarketShare
        } else if i == 14 {
            InsightKind::CompetitiveMoat
        } else {
            InsightKind::AcquisitionOpportunity
        }
    }

    /// What the insight is about.
    pub open spec fn category(self) -> InsightCategory {
        match self {
            InsightKind::MoraleDeclining | InsightKind::StrongCulture => InsightCategory::Morale,
            InsightKind::TechDebtAccumulating | InsightKind::EngineeringExcellence =>
                InsightCategory::TechnicalDebt,
            InsightKind::RunwayLow | InsightKind::FinancialDiscipline => InsightCategory::Runway,
            InsightKind::GrowthStagnating => InsightCategory::Growth,
            InsightKind::LeakyBucket | InsightKind::CustomersLoveProduct =>
                InsightCategory::CustomerSatisfaction,
            InsightKind::VelocityDeclining => InsightCategory::Velocity,
            InsightKind::BurnoutRisk => InsightCategory::Burnout,
            _ => InsightCategory::Competition,
        }
    }

    /// Whether the insight applies to the step from `prev` to `curr`.
    pub open spec fn applies(self, prev: Baseline, curr: GameState) -> bool {
        match self {
            InsightKind::MoraleDeclining => curr.morale < prev.morale - 10_000,
            InsightKind::StrongCulture => curr.morale > 75_000 && prev.morale > 75_000,
            InsightKind::TechDebtAccumulating => curr.tech_debt > 60_000 && prev.tech_debt < 60_000,
            InsightKind::EngineeringExcellence => curr.tech_debt < 30_000 && curr.velocity > 800,
            InsightKind::RunwayLow => curr.runway_months.is_below(6_000),
            InsightKind::FinancialDiscipline => curr.runway_months.is_above(18_000) && curr.burn > 0
                && 2 * curr.mrr > curr.burn,
            InsightKind::GrowthStagnating => curr.wau_growth_rate < 2_000 && curr.week > 8,
            InsightKind::LeakyBucket => curr.wau_growth_rate > 10_000 && curr.churn_rate > 10_000,
            InsightKind::VelocityDeclining => curr.velocity < 700 && prev.velocity >= 700,
            InsightKind::BurnoutRisk => WEEKS_SINCE_BREAK > 8 && curr.morale < 70_000,
            InsightKind::CustomersLoveProduct => curr.nps > 70_000 && curr.wau > 500,
            InsightKind::CompetitorOutShipping => is_outshipped(curr),
            InsightKind::FundingGap => total_funding(curr.competitors@) > 5 * curr.bank && curr.week
                > 52,
            InsightKind::LosingMarketShare => market_share_in(curr) < prev.market_share - 5_000,
            InsightKind::CompetitiveMoat => market_share_in(curr) > 60_000 && curr.velocity * 10
                > average_parity(curr.competitors@),
            InsightKind::AcquisitionOpportunity => curr.bank > 200_000_000 && has_struggling_rival(
                curr.competitors@,
            ),
        }
    }

    /// How urgent the insight is in `curr`.
    pub open spec fn severity(self, curr: GameState) -> InsightSeverity {
        match self {
            InsightKind::MoraleDeclining => if curr.morale < 40_000 {
                InsightSeverity::Critical
            } else if curr.morale < 60_000 {
                InsightSeverity::Warning
            } else {
                InsightSeverity::Info
            },
            InsightKind::TechDebtAccumulating => if curr.tech_debt > 80_000 {
                InsightSeverity::Critical
            } else {
                InsightSeverity::Warning
            },
            InsightKind::RunwayLow => if curr.runway_months.is_below(3_000) {
                InsightSeverity::Critical
            } else {
                InsightSeverity::Warning
            },
            InsightKind::GrowthStagnating
            | InsightKind::LeakyBucket
            | InsightKind::VelocityDeclining
            | InsightKind::CompetitorOutShipping
            | InsightKind::FundingGap => InsightSeverity::Warning,
            InsightKind::BurnoutRisk | InsightKind::LosingMarketShare => InsightSeverity::Critical,
            _ => InsightSeverity::Info,
        }
    }
}

/// The funding of all competitors added up.
pub fn get_total_competitor_funding(competitors: &Vec<Competitor>) -> (total: i64)
    ensures
        total == total_funding(competitors@),
{
    let mut total: i64 = 0;
    let mut i: usize = 0;
    while i < competitors.len()
        invariant
            i <= competitors.len(),
            total == total_funding(competitors@.take(i as int)),
        decreases competitors.len() - i,
    {
        assert(competitors@.take(i + 1).drop_last() =~= competitors@.take(i as int));
        total = sum(total, competitors[i].total_funding);
        i = i + 1;
    }
    assert(competitors@.take(i as int) =~= competitors@);
    total
}

/// The average feature parity of the competitors.
pub fn get_average_competitor_feature_parity(competitors: &Vec<Competitor>) -> (average: i64)
    ensures
        average == average_parity(competitors@),
{
    if competitors.len() == 0 {
        return 0;
    }
    let mut total: i64 = 0;
    let mut i: usize = 0;
    while i < competitors.len()
        invariant
            i <= competitors.len(),
            total == total_parity(competitors@.take(i as int)),
        decreases competitors.len() - i,
    {
        assert(competitors@.take(i + 1).drop_last() =~= competitors@.take(i as int));
        total = sum(total, competitors[i].feature_parity);
        i = i + 1;
    }
    assert(competitors@.take(i as int) =~= competitors@);
    crate::fixed::bound(
        (total as i128) / (competitors.len() as i128),
        crate::fixed::FLOOR,
        crate::fixed::CEILING,
    )
}

/// Whether a bootstrapped competitor with a feature parity below 30 is
/// still in the market.
pub fn find_struggling_rival(competitors: &Vec<Competitor>) -> (found: bool)
    ensures
        found == has_struggling_rival(competitors@),
{
    let mut i: usize = 0;
    while i < competitors.len()
        invariant
            i <= competitors.len(),
            forall|j: int|
                0 <= j < i ==> !(!(#[trigger] competitors@[j]).is_acquired && competitors@[j].feature_parity
                    < 30_000 && competitors@[j].funding_stage == FundingStage::Bootstrapped),
        decreases competitors.len() - i,
    {
        let c = &competitors[i];
        if !c.is_acquired && c.feature_parity < 30_000 {
            match c.funding_stage {
                FundingStage::Bootstrapped => {
                    return true;
                },
                _ => {},
            }
        }
        i = i + 1;
    }
    false
}

/// Whether the most threatening competitor out-ships the player.
pub fn check_outshipped(s: &GameState) -> (yes: bool)
    ensures
        yes == is_outshipped(*s),
{
    match get_most_threatening_competitor(&s.competitors) {
        Some(i) => {
            let yes = get_shipping_velocity_ratio(&s.competitors[i], s.velocity) > 1_500;
            proof {
                assert forall|j: int| is_most_threatening(s.competitors@, j) implies j == i by {
                    if j < i {
                        assert(crate::competitors::is_active(s.competitors@, i as int));
                    } else if j > i {
                        assert(crate::competitors::is_active(s.competitors@, j));
                    }
                }
            }
            yes
        },
        None => {
            proof {
                assert forall|j: int| !is_most_threatening(s.competitors@, j) by {
                    if is_most_threatening(s.competitors@, j) {
                        assert(crate::competitors::is_active(s.competitors@, j));
                    }
                }
            }
            false
        },
    }
}

/// The player's share of the market in a state.
pub fn player_market_share(s: &GameState) -> (share: i64)
    ensures
        share == market_share_in(*s),
{
    calculate_market_share(&s.competitors, s.reputation, s.nps, s.velocity).player
}

/// What is kept of a state for the comparison a week later.
pub fn take_baseline(s: &GameState) -> (baseline: Baseline)
    ensures
        baseline == baseline_in(*s),
{
    Baseline {
        morale: s.morale,
        tech_debt: s.tech_debt,
        velocity: s.velocity,
        market_share: player_market_share(s),
    }
}

/// The kind at a position of the checking order.
pub fn insight_at(i: usize) -> (kind: InsightKind)
    ensures
        kind == InsightKind::at(i as int),
{
    if i == 0 {
        InsightKind::MoraleDeclining
    } else if i == 1 {
        InsightKind::StrongCulture
    } else if i == 2 {
        InsightKind::TechDebtAccumulating
    } else if i == 3 {
        InsightKind::EngineeringExcellence
    } else if i == 4 {
        InsightKind::RunwayLow
    } else if i == 5 {
        InsightKind::FinancialDiscipline
    } else if i == 6 {
        InsightKind::GrowthStagnating
    } else if i == 7 {
        InsightKind::LeakyBucket
    } else if i == 8 {
        InsightKind::VelocityDeclining
    } else if i == 9 {
        InsightKind::BurnoutRisk
    } else if i == 10 {
        InsightKind::CustomersLoveProduct
    } else if i == 11 {
        InsightKind::CompetitorOutShipping
    } else if i == 12 {
        InsightKind::FundingGap
    } else if i == 13 {
        InsightKind::LosingMarketShare
    } else if i == 14 {
        InsightKind::CompetitiveMoat
    } else {
        InsightKind::AcquisitionOpportunity
    }
}

/// What an insight is about.
pub fn category_of(kind: InsightKind) -> (category: InsightCategory)
    ensures
        category == kind.category(),
{
    match kind {
        InsightKind::MoraleDeclining | InsightKind::StrongCulture => InsightCategory::Morale,
        InsightKind::TechDebtAccumulating | InsightKind::EngineeringExcellence =>
            InsightCategory::TechnicalDebt,
        InsightKind::RunwayLow | InsightKind::FinancialDiscipline => InsightCategory::Runway,
        InsightKind::GrowthStagnating => InsightCategory::Growth,
        InsightKind::LeakyBucket | InsightKind::CustomersLoveProduct =>
            InsightCategory::CustomerSatisfaction,
        InsightKind::VelocityDeclining => InsightCategory::Velocity,
        InsightKind::BurnoutRisk => InsightCategory::Burnout,
        _ => InsightCategory::Competition,
    }
}

/// Whether an insight about the company itself applies.
fn company_insight_applies(kind: InsightKind, prev: &Baseline, curr: &GameState) -> (yes: bool)
    ensures
        match kind {
            InsightKind::CompetitorOutShipping
            | InsightKind::FundingGap
            | InsightKind::LosingMarketShare
            | InsightKind::CompetitiveMoat
            | InsightKind::AcquisitionOpportunity => true,
            _ => yes == kind.applies(*prev, *curr),
        },
{
    match kind {
        InsightKind::MoraleDeclining => (curr.morale as i128) < prev.morale as i128 - 10_000,
        InsightKind::StrongCulture => curr.morale > 75_000 && prev.morale > 75_000,
        InsightKind::TechDebtAccumulating => curr.tech_debt > 60_000 && prev.tech_debt < 60_000,
        InsightKind::EngineeringExcellence => curr.tech_debt < 30_000 && curr.velocity > 800,
        InsightKind::RunwayLow => curr.runway_months.below(6_000),
        InsightKind::FinancialDiscipline => curr.runway_months.above(18_000) && curr.burn > 0 && 2 * (
        curr.mrr as i128) > curr.burn as i128,
        InsightKind::GrowthStagnating => curr.wau_growth_rate < 2_000 && curr.week > 8,
        InsightKind::LeakyBucket => curr.wau_growth_rate > 10_000 && curr.churn_rate > 10_000,
        InsightKind::VelocityDeclining => curr.velocity < 700 && prev.velocity >= 700,
        InsightKind::BurnoutRisk => WEEKS_SINCE_BREAK > 8 && curr.morale < 70_000,
        InsightKind::CustomersLoveProduct => curr.nps > 70_000 && curr.wau > 500,
        _ => false,
    }
}

/// Whether an insight applies to the step from `prev` to `curr`.
pub fn insight_applies(kind: InsightKind, prev: &Baseline, curr: &GameState) -> (yes: bool)
    ensures
        yes == kind.applies(*prev, *curr),
{
    match kind {
        InsightKind::CompetitorOutShipping => check_outshipped(curr),
        InsightKind::FundingGap => get_total_competitor_funding(&curr.competitors) as i128 > 5 * (
        curr.bank as i128) && curr.week > 52,
        InsightKind::LosingMarketShare => (player_market_share(curr) as i128) < prev.market_share as i128
            - 5_000,
        InsightKind::CompetitiveMoat => player_market_share(curr) > 60_000 && curr.velocity as i128
            * 10 > get_average_competitor_feature_parity(&curr.competitors) as i128,
        InsightKind::AcquisitionOpportunity => curr.bank > 200_000_000 && find_struggling_rival(
            &curr.competitors,
        ),
        _ => company_insight_applies(kind, prev, curr),
    }
}

/// How urgent an insight is.
pub fn insight_severity(kind: InsightKind, curr: &GameState) -> (severity: InsightSeverity)
    ensures
        severity == kind.severity(*curr),
{
    match kind {
        InsightKind::MoraleDeclining => if curr.morale < 40_000 {
            InsightSeverity::Critical
        } else if curr.morale < 60_000 {
            InsightSeverity::Warning
        } else {
            InsightSeverity::Info
        },
        InsightKind::TechDebtAccumulating => if curr.tech_debt > 80_000 {
            InsightSeverity::Critical
        } else {
            InsightSeverity::Warning
        },
        InsightKind::RunwayLow => if curr.runway_months.below(3_000) {
            InsightSeverity::Critical
        } else {
            InsightSeverity::Warning
        },
        InsightKind::GrowthStagnating
        | InsightKind::LeakyBucket
        | InsightKind::VelocityDeclining
        | InsightKind::CompetitorOutShipping
        | InsightKind::FundingGap => InsightSeverity::Warning,
        InsightKind::BurnoutRisk | InsightKind::LosingMarketShare => InsightSeverity::Critical,
        _ => InsightSeverity::Info,
    }
}

/// The insight of a kind in a state.
pub open spec fn insight_of(kind: InsightKind, curr: GameState) -> WeeklyInsight {
    WeeklyInsight { kind, category: kind.category(), severity: kind.severity(curr) }
}

/// The insights among the first `n` kinds that apply at a severity, in
/// checking order.
pub open spec fn insights_at(
    prev: Baseline,
    curr: GameState,
    severity: InsightSeverity,
    n: int,
) -> Seq<WeeklyInsight>
    decreases n,
{
    if n <= 0 {
        Seq::<WeeklyInsight>::empty()
    } else if InsightKind::at(n - 1).applies(prev, curr) && InsightKind::at(n - 1).severity(curr)
        == severity {
        insights_at(prev, curr, severity, n - 1).push(insight_of(InsightKind::at(n - 1), curr))
    } else {
        insights_at(prev, curr, severity, n - 1)
    }
}

/// All the insights that apply, most urgent first, and in checking order
/// among equally urgent ones.
pub open spec fn ranked_insights(prev: Baseline, curr: GameState) -> Seq<WeeklyInsight> {
    insights_at(prev, curr, InsightSeverity::Critical, INSIGHT_COUNT as int) + insights_at(
        prev,
        curr,
        InsightSeverity::Warning,
        INSIGHT_COUNT as int,
    ) + insights_at(prev, curr, InsightSeverity::Info, INSIGHT_COUNT as int)
}

/// The first `limit` of a list, or all of it.
pub open spec fn first_few<T>(list: Seq<T>, limit: int) -> Seq<T> {
    if list.len() > limit {
        list.take(limit)
    } else {
        list
    }
}

/// The insights that apply at a severity, in checking order.
pub fn collect_insights(
    prev: &Baseline,
    curr: &GameState,
    severity: InsightSeverity,
) -> (found: Vec<WeeklyInsight>)
    ensures
        found@ == insights_at(*prev, *curr, severity, INSIGHT_COUNT as int),
{
    let mut found: Vec<WeeklyInsight> = Vec::new();
    let mut n: usize = 0;
    while n < INSIGHT_COUNT
        invariant
            n <= INSIGHT_COUNT,
            found@ == insights_at(*prev, *curr, severity, n as int),
        decreases INSIGHT_COUNT - n,
    {
        let kind = insight_at(n);
        if insight_applies(kind, prev, curr) && insight_severity(kind, curr) == severity {
            found.push(
                WeeklyInsight { kind, category: category_of(kind), severity: insight_severity(kind, curr) },
            );
        }
        n = n + 1;
    }
    found
}

/// Appends to `list` as many of `more`, from the front, as keep it within
/// the limit.
fn append_within(list: &mut Vec<WeeklyInsight>, more: &Vec<WeeklyInsight>)
    requires
        old(list)@.len() <= INSIGHT_LIMIT,
    ensures
        final(list)@ == first_few(old(list)@ + more@, INSIGHT_LIMIT as int),
{
    let mut i: usize = 0;
    while i < more.len() && list.len() < INSIGHT_LIMIT
        invariant
            i <= more.len(),
            list@.len() <= INSIGHT_LIMIT,
            list@ == old(list)@ + more@.take(i as int),
        decreases more.len() - i,
    {
        list.push(more[i]);
        assert(more@.take(i + 1) =~= more@.take(i as int).push(more@[i as int]));
        assert(list@ =~= old(list)@ + more@.take(i + 1));
        i = i + 1;
    }
    proof {
        let all = old(list)@ + more@;
        if i == more.len() {
            assert(more@.take(i as int) =~= more@);
        } else {
            assert(list@ =~= all.take(INSIGHT_LIMIT as int));
        }
    }
}

/// The insights into the step from last week to this week: of all that
/// apply, the three most urgent, critical ones before warnings and warnings
/// before the rest, in checking order among equals.
pub fn insights_since(prev: &Baseline, curr_state: &GameState) -> (insights: Vec<WeeklyInsight>)
    ensures
        insights@ == first_few(ranked_insights(*prev, *curr_state), INSIGHT_LIMIT as int),
        insights@.len() <= INSIGHT_LIMIT,
{
    let critical = collect_insights(prev, curr_state, InsightSeverity::Critical);
    let warning = collect_insights(prev, curr_state, InsightSeverity::Warning);
    let info = collect_insights(prev, curr_state, InsightSeverity::Info);
    let mut insights: Vec<WeeklyInsight> = Vec::new();
    append_within(&mut insights, &critical);
    let ghost a = insights@;
    append_within(&mut insights, &warning);
    let ghost b = insights@;
    append_within(&mut insights, &info);
    proof {
        let limit = INSIGHT_LIMIT as int;
        let none = Seq::<WeeklyInsight>::empty();
        assert(none + critical@ =~= critical@);
        assert(a == first_few(critical@, limit));
        assert(b == first_few(a + warning@, limit));
        assert(b =~= first_few(critical@ + warning@, limit));
        assert(insights@ == first_few(b + info@, limit));
        assert(insights@ =~= first_few(critical@ + warning@ + info@, limit));
    }
    insights
}

/// The insights into the step from last week's state to this week's.
pub fn generate_weekly_insights(
    prev_state: &GameState,
    curr_state: &GameState,
) -> (insights: Vec<WeeklyInsight>)
    ensures
        insights@ == first_few(
            ranked_insights(baseline_in(*prev_state), *curr_state),
            INSIGHT_LIMIT as int,
        ),
        insights@.len() <= INSIGHT_LIMIT,
{
    let baseline = take_baseline(prev_state);
    insights_since(&baseline, curr_state)
}

} // verus!
