//! Warnings about patterns that end in failure if they go on: which risks
//! the state shows, how severe each is, and in what order they are reported.
use crate::fixed::bound;
use crate::fixed::bounded;
use crate::fixed::capped;
use crate::fixed::diff;
use crate::fixed::scale;
use crate::fixed::scaled;
use crate::fixed::trunc_div;
use crate::fixed::HUNDRED;
use crate::state::GameState;
use crate::state::Runway;
use crate::state::WeekSnapshot;
use vstd::prelude::*;

verus! {

/// Number of risks that are watched.
pub const RISK_COUNT: usize = 6;

/// How close to failure a risk is.
#[derive(Debug, Clone, Copy, PartialEq, Eq, PartialOrd, Ord, Hash, Structural)]
pub enum WarningSeverity {
    /// An early indicator.
    Watch,
    /// A problem is developing.
    Caution,
    /// An immediate risk.
    Danger,
    /// Failure is imminent.
    Critical,
}

/// The risks that are watched, in the order in which they are checked.
#[derive(Debug, Clone, Copy, PartialEq, Eq, Hash, Structural)]
pub enum RiskId {
    DeathMarch,
    TechnicalBankruptcy,
    CustomerExodus,
    CashCrunch,
    VelocityCollapse,
    ReputationCrisis,
}

/// One observation in support of a warning: the week it belongs to and how
/// bad things were, from 0 to 100.
#[derive(Debug, Clone, Copy, PartialEq, Eq, Structural)]
pub struct WarningSign {
    pub week: u32,
    pub indicator_level: i64,
}

/// A warning about one risk.
#[derive(Debug, Clone, PartialEq, Eq)]
pub struct FailureWarning {
    pub risk_id: RiskId,
    pub warning_signs: Vec<WarningSign>,
    pub weeks_until_critical: Option<u8>,
    pub severity: WarningSeverity,
}

/// Weeks of history in which declines are counted.
pub const DECLINE_WINDOW: usize = 8;

/// Weeks of history over which a trend is taken.
pub const TREND_WINDOW: usize = 4;

/// Weeks to report when nothing is getting worse.
pub const NOT_IN_SIGHT: u8 = 99;

impl WarningSeverity {
    /// Position of the severity, from 0 for a watch to 3 for critical.
    pub open spec fn level(self) -> int {
        match self {
            WarningSeverity::Watch => 0,
            WarningSeverity::Caution => 1,
            WarningSeverity::Danger => 2,
            WarningSeverity::Critical => 3,
        }
    }

    /// Position of the severity, from 0 for a watch to 3 for critical.
    pub fn rank(&self) -> (r: u8)
        ensures
            r == self.level(),
    {
        match self {
            WarningSeverity::Watch => 0,
            WarningSeverity::Caution => 1,
            WarningSeverity::Danger => 2,
            WarningSeverity::Critical => 3,
        }
    }
}

/// The severity for a reading that gets worse as it falls: critical below
/// the first mark, danger below the second, caution otherwise.
pub open spec fn severity_below(value: i64, critical: i64, danger: i64) -> WarningSeverity {
    if value < critical {
        WarningSeverity::Critical
    } else if value < danger {
        WarningSeverity::Danger
    } else {
        WarningSeverity::Caution
    }
}

/// The severity for a reading that gets worse as it rises.
pub open spec fn severity_above(value: i64, critical: i64, danger: i64) -> WarningSeverity {
    if value > critical {
        WarningSeverity::Critical
    } else if value > danger {
        WarningSeverity::Danger
    } else {
        WarningSeverity::Caution
    }
}

fn grade_below(value: i64, critical: i64, danger: i64) -> (severity: WarningSeverity)
    ensures
        severity == severity_below(value, critical, danger),
{
    if value < critical {
        WarningSeverity::Critical
    } else if value < danger {
        WarningSeverity::Danger
    } else {
        WarningSeverity::Caution
    }
}

fn grade_above(value: i64, critical: i64, danger: i64) -> (severity: WarningSeverity)
    ensures
        severity == severity_above(value, critical, danger),
{
    if value > critical {
        WarningSeverity::Critical
    } else if value > danger {
        WarningSeverity::Danger
    } else {
        WarningSeverity::Caution
    }
}

/// First position of the last `window` entries of a history.
pub open spec fn window_start(len: int, window: int) -> int {
    if len > window {
        len - window
    } else {
        0
    }
}

/// Number of weeks among `history[from + 1..to]` in which morale was lower
/// than the week before.
pub open spec fn declines(history: Seq<WeekSnapshot>, from: int, to: int) -> nat
    decreases to - from,
{
    if to <= from + 1 {
        0
    } else {
        declines(history, from, to - 1) + if history[to - 1].morale < history[to - 2].morale {
            1nat
        } else {
            0nat
        }
    }
}

/// Number of weeks, among the last eight, in which morale fell.
pub open spec fn declining_weeks(history: Seq<WeekSnapshot>) -> nat {
    declines(history, window_start(history.len() as int, DECLINE_WINDOW as int), history.len() as int)
}

/// Change of morale over the last four weeks of the history; zero for a
/// history of fewer than two weeks.
pub open spec fn morale_trend(history: Seq<WeekSnapshot>) -> i64 {
    if history.len() < 2 {
        0
    } else {
        capped(
            history.last().morale - history[window_start(
                history.len() as int,
                TREND_WINDOW as int,
            )].morale,
        )
    }
}

/// Number of weeks, among the last eight, in which morale fell.
pub fn count_declining_weeks(history: &Vec<WeekSnapshot>) -> (weeks: u8)
    ensures
        weeks == declining_weeks(history@),
        weeks <= 7,
{
    let start: usize = if history.len() > DECLINE_WINDOW {
        history.len() - DECLINE_WINDOW
    } else {
        0
    };
    let mut count: u8 = 0;
    let mut i: usize = start + 1;
    if history.len() == 0 {
        return 0;
    }
    while i < history.len()
        invariant
            start + 1 <= i <= history.len(),
            history.len() - start <= DECLINE_WINDOW,
            count == declines(history@, start as int, i as int),
            count <= i - start - 1,
        decreases history.len() - i,
    {
        if history[i].morale < history[i - 1].morale {
            count = count + 1;
        }
        i = i + 1;
    }
    count
}

/// Change of morale over the last four weeks of the history.
pub fn analyze_morale_trend(history: &Vec<WeekSnapshot>) -> (trend: i64)
    ensures
        trend == morale_trend(history@),
{
    if history.len() < 2 {
        return 0;
    }
    let start: usize = if history.len() > TREND_WINDOW {
        history.len() - TREND_WINDOW
    } else {
        0
    };
    diff(history[history.len() - 1].morale, history[start].morale)
}

/// Change in percent from `first` to `last`; zero when `first` is not above
/// zero.
pub open spec fn percent_change(first: i64, last: i64) -> i64 {
    if first > 0 {
        scaled(capped(last - first) as int, HUNDRED as int, first as int)
    } else {
        0
    }
}

/// Change of the burn in percent over the last four weeks of the history;
/// zero for a history of fewer than two weeks.
pub open spec fn burn_trend(history: Seq<WeekSnapshot>) -> i64 {
    if history.len() < 2 {
        0
    } else {
        percent_change(
            history[window_start(history.len() as int, TREND_WINDOW as int)].burn,
            history.last().burn,
        )
    }
}

/// Change of the revenue in percent over the last four weeks of the
/// history; zero for a history of fewer than two weeks.
pub open spec fn revenue_trend(history: Seq<WeekSnapshot>) -> i64 {
    if history.len() < 2 {
        0
    } else {
        percent_change(
            history[window_start(history.len() as int, TREND_WINDOW as int)].mrr,
            history.last().mrr,
        )
    }
}

fn change_in_percent(first: i64, last: i64) -> (change: i64)
    ensures
        change == percent_change(first, last),
{
    if first > 0 {
        scale(diff(last, first), HUNDRED, first)
    } else {
        0
    }
}

/// Change of the burn in percent over the last four weeks of the history.
pub fn analyze_burn_trend(history: &Vec<WeekSnapshot>) -> (trend: i64)
    ensures
        trend == burn_trend(history@),
{
    if history.len() < 2 {
        return 0;
    }
    let start: usize = if history.len() > TREND_WINDOW {
        history.len() - TREND_WINDOW
    } else {
        0
    };
    change_in_percent(history[start].burn, history[history.len() - 1].burn)
}

/// Change of the revenue in percent over the last four weeks of the
/// history.
pub fn analyze_revenue_trend(history: &Vec<WeekSnapshot>) -> (trend: i64)
    ensures
        trend == revenue_trend(history@),
{
    if history.len() < 2 {
        return 0;
    }
    let start: usize = if history.len() > TREND_WINDOW {
        history.len() - TREND_WINDOW
    } else {
        0
    };
    change_in_percent(history[start].mrr, history[history.len() - 1].mrr)
}

/// The weeks that `distance / rate` comes to, within `[low, high]`.
pub open spec fn weeks_to_cover(distance: int, rate: int, low: i64, high: i64) -> u8 {
    bounded(trunc_div(distance, rate), low, high) as u8
}

/// Weeks until morale reaches 20 at the given trend; [`NOT_IN_SIGHT`] when
/// morale is not falling.
pub open spec fn weeks_until_morale_critical(current: i64, trend: i64) -> u8 {
    if trend >= 0 {
        NOT_IN_SIGHT
    } else {
        weeks_to_cover(current - 20_000, -trend, 1, 20)
    }
}

/// Weeks until tech debt reaches 95 at two points a week.
pub open spec fn weeks_until_debt_critical(current: i64) -> u8 {
    weeks_to_cover(95_000 - current, 2_000, 1, 20)
}

/// Weeks until reputation reaches 15 when it falls by half the churn rate a
/// week; [`NOT_IN_SIGHT`] without churn.
pub open spec fn weeks_until_reputation_critical(current: i64, churn: i64) -> u8 {
    if scaled(churn as int, 500, 1_000) <= 0 {
        NOT_IN_SIGHT
    } else {
        weeks_to_cover(current - 15_000, scaled(churn as int, 500, 1_000) as int, 1, 20)
    }
}

/// Weeks until velocity reaches 0.3 when it falls by 0.05 every four weeks.
pub open spec fn weeks_until_velocity_critical(current: i64) -> u8 {
    weeks_to_cover((current - 300) * 4, 50, 2, 20)
}

/// Weeks until reputation reaches 10 at two points a week.
pub open spec fn weeks_until_reputation_failure(current: i64) -> u8 {
    weeks_to_cover(current - 10_000, 2_000, 1, 15)
}

/// Weeks until one month of runway is left, at four weeks a month.
pub open spec fn weeks_until_cash_critical(runway: Runway) -> u8 {
    match runway {
        Runway::Months(m) => bounded(trunc_div((m - 1_000) * 4, 1_000), 0, 255) as u8,
        Runway::Unlimited => 255,
    }
}

fn cover(distance: i128, rate: i128, low: i64, high: i64) -> (weeks: u8)
    requires
        rate > 0,
        0 <= low <= high <= 255,
    ensures
        weeks == weeks_to_cover(distance as int, rate as int, low, high),
{
    bound(distance / rate, low, high) as u8
}

/// Weeks until morale reaches 20 at the given trend.
pub fn estimate_weeks_until_morale_critical(current: i64, trend: i64) -> (weeks: u8)
    ensures
        weeks == weeks_until_morale_critical(current, trend),
{
    if trend >= 0 {
        return NOT_IN_SIGHT;
    }
    cover(current as i128 - 20_000, -(trend as i128), 1, 20)
}

/// Weeks until tech debt reaches 95.
pub fn estimate_weeks_until_debt_critical(current: i64) -> (weeks: u8)
    ensures
        weeks == weeks_until_debt_critical(current),
{
    cover(95_000 - current as i128, 2_000, 1, 20)
}

/// Weeks until reputation reaches 15 under churn.
pub fn estimate_weeks_until_reputation_critical(current: i64, churn: i64) -> (weeks: u8)
    ensures
        weeks == weeks_until_reputation_critical(current, churn),
{
    let decline = scale(churn, 500, 1_000);
    if decline <= 0 {
        return NOT_IN_SIGHT;
    }
    cover(current as i128 - 15_000, decline as i128, 1, 20)
}

/// Weeks until velocity reaches 0.3.
pub fn estimate_weeks_until_velocity_critical(current: i64) -> (weeks: u8)
    ensures
        weeks == weeks_until_velocity_critical(current),
{
    cover((current as i128 - 300) * 4, 50, 2, 20)
}

/// Weeks until reputation reaches 10.
pub fn estimate_weeks_until_reputation_failure(current: i64) -> (weeks: u8)
    ensures
        weeks == weeks_until_reputation_failure(current),
{
    cover(current as i128 - 10_000, 2_000, 1, 15)
}

/// Weeks for which churn has been high. The history does not record churn;
/// three weeks are assumed.
pub fn count_high_churn_weeks(_history: &Vec<WeekSnapshot>) -> (weeks: u8)
    ensures
        weeks == 3,
{
    3
}

/// Weeks for which velocity has been low. The history does not record
/// velocity; four weeks are assumed.
pub fn count_low_velocity_weeks(_history: &Vec<WeekSnapshot>) -> (weeks: u8)
    ensures
        weeks == 4,
{
    4
}

/// The signs of falling morale among `history[from..to]`: one for each week
/// with morale below 70, at the level that morale falls short of 100.
pub open spec fn morale_signs(history: Seq<WeekSnapshot>, from: int, to: int) -> Seq<WarningSign>
    decreases to - from,
{
    if to <= from {
        Seq::<WarningSign>::empty()
    } else if history[to - 1].morale < 70_000 {
        morale_signs(history, from, to - 1).push(
            WarningSign {
                week: history[to - 1].week,
                indicator_level: capped(HUNDRED - history[to - 1].morale),
            },
        )
    } else {
        morale_signs(history, from, to - 1)
    }
}

/// The signs of falling morale in the last four weeks of the history.
pub fn generate_morale_warning_signs(history: &Vec<WeekSnapshot>) -> (signs: Vec<WarningSign>)
    ensures
        signs@ == morale_signs(
            history@,
            window_start(history@.len() as int, TREND_WINDOW as int),
            history@.len() as int,
        ),
{
    let start: usize = if history.len() > TREND_WINDOW {
        history.len() - TREND_WINDOW
    } else {
        0
    };
    let mut signs: Vec<WarningSign> = Vec::new();
    let mut i: usize = start;
    while i < history.len()
        invariant
            start <= i <= history.len(),
            signs@ == morale_signs(history@, start as int, i as int),
        decreases history.len() - i,
    {
        if history[i].morale < 70_000 {
            signs.push(
                WarningSign { week: history[i].week, indicator_level: diff(HUNDRED, history[i].morale) },
            );
        }
        i = i + 1;
    }
    signs
}

/// The week `back` weeks before `week`, not before week 0.
pub open spec fn weeks_back(week: u32, back: u32) -> u32 {
    if week >= back {
        (week - back) as u32
    } else {
        0
    }
}

pub open spec fn sign(week: u32, level: i64) -> WarningSign {
    WarningSign { week, indicator_level: level }
}

impl RiskId {
    /// The risk at a position of the checking order.
    pub open spec fn at(i: int) -> RiskId {
        if i == 0 {
            RiskId::DeathMarch
        } else if i == 1 {
            RiskId::TechnicalBankruptcy
        } else if i == 2 {
            RiskId::CustomerExodus
        } else if i == 3 {
            RiskId::CashCrunch
        } else if i == 4 {
            RiskId::VelocityCollapse
        } else {
            RiskId::ReputationCrisis
        }
    }

    /// Whether the state shows the risk: morale below 50 that fell in three
    /// of the last eight weeks; tech debt above 70; churn above 12 with more
    /// than 100 users; a runway below six months; velocity below 0.6;
    /// reputation below 40.
    pub open spec fn shows_in(self, s: GameState) -> bool {
        match self {
            RiskId::DeathMarch => s.morale < 50_000 && declining_weeks(s.history@) >= 3,
            RiskId::TechnicalBankruptcy => s.tech_debt > 70_000,
            RiskId::CustomerExodus => s.churn_rate > 12_000 && s.wau > 100,
            RiskId::CashCrunch => s.runway_months.is_below(6_000),
            RiskId::VelocityCollapse => s.velocity < 600,
            RiskId::ReputationCrisis => s.reputation < 40_000,
        }
    }

    /// How severe the risk is in the state.
    pub open spec fn severity_in(self, s: GameState) -> WarningSeverity {
        match self {
            RiskId::DeathMarch => severity_below(s.morale, 30_000, 40_000),
            RiskId::TechnicalBankruptcy => severity_above(s.tech_debt, 90_000, 80_000),
            RiskId::CustomerExodus => severity_above(s.churn_rate, 20_000, 15_000),
            RiskId::CashCrunch => match s.runway_months {
                Runway::Months(m) => severity_below(m, 2_000, 3_000),
                Runway::Unlimited => WarningSeverity::Caution,
            },
            RiskId::VelocityCollapse => severity_below(s.velocity, 400, 500),
            RiskId::ReputationCrisis => severity_below(s.reputation, 25_000, 30_000),
        }
    }

    /// The weeks that are left until the risk turns critical.
    pub open spec fn weeks_left_in(self, s: GameState) -> u8 {
        match self {
            RiskId::DeathMarch => weeks_until_morale_critical(s.morale, morale_trend(s.history@)),
            RiskId::TechnicalBankruptcy => weeks_until_debt_critical(s.tech_debt),
            RiskId::CustomerExodus => weeks_until_reputation_critical(s.reputation, s.churn_rate),
            RiskId::CashCrunch => weeks_until_cash_critical(s.runway_months),
            RiskId::VelocityCollapse => weeks_until_velocity_critical(s.velocity),
            RiskId::ReputationCrisis => weeks_until_reputation_failure(s.reputation),
        }
    }

    /// The signs that support the warning.
    pub open spec fn signs_in(self, s: GameState) -> Seq<WarningSign> {
        match self {
            RiskId::DeathMarch => morale_signs(
                s.history@,
                window_start(s.history@.len() as int, TREND_WINDOW as int),
                s.history@.len() as int,
            ),
            RiskId::TechnicalBankruptcy => seq![
                sign(weeks_back(s.week, 4), 60_000),
                sign(weeks_back(s.week, 2), 75_000),
                sign(s.week, s.tech_debt),
            ],
            RiskId::CustomerExodus => seq![
                sign(weeks_back(s.week, 3), 50_000),
                sign(weeks_back(s.week, 2), 65_000),
                sign(s.week, scaled(s.churn_rate as int, 4, 1)),
            ],
            RiskId::CashCrunch => seq![
                sign(weeks_back(s.week, 4), 40_000),
                sign(weeks_back(s.week, 2), 60_000),
                sign(
                    s.week,
                    match s.runway_months {
                        Runway::Months(m) => scaled(capped(6_000 - m) as int, 20, 1),
                        Runway::Unlimited => 0,
                    },
                ),
            ],
            RiskId::VelocityCollapse => seq![
                sign(weeks_back(s.week, 3), 50_000),
                sign(weeks_back(s.week, 2), 65_000),
                sign(s.week, scaled(capped(1_000 - s.velocity) as int, 150, 1)),
            ],
            RiskId::ReputationCrisis => seq![
                sign(weeks_back(s.week, 2), 55_000),
                sign(s.week, scaled(capped(50_000 - s.reputation) as int, 2, 1)),
            ],
        }
    }
}

impl FailureWarning {
    /// Whether the warning is the one that the state gives for the risk.
    pub open spec fn describes(self, risk: RiskId, s: GameState) -> bool {
        &&& self.risk_id == risk
        &&& self.severity == risk.severity_in(s)
        &&& self.weeks_until_critical == Some(risk.weeks_left_in(s))
        &&& self.warning_signs@ == risk.signs_in(s)
    }
}

/// The risk at a position of the checking order.
pub fn risk_at(i: usize) -> (risk: RiskId)
    ensures
        risk == RiskId::at(i as int),
{
    if i == 0 {
        RiskId::DeathMarch
    } else if i == 1 {
        RiskId::TechnicalBankruptcy
    } else if i == 2 {
        RiskId::CustomerExodus
    } else if i == 3 {
        RiskId::CashCrunch
    } else if i == 4 {
        RiskId::VelocityCollapse
    } else {
        RiskId::ReputationCrisis
    }
}

/// Whether the state shows the risk.
pub fn risk_shows(risk: RiskId, s: &GameState) -> (shows: bool)
    ensures
        shows == risk.shows_in(*s),
{
    match risk {
        RiskId::DeathMarch => s.morale < 50_000 && count_declining_weeks(&s.history) >= 3,
        RiskId::TechnicalBankruptcy => s.tech_debt > 70_000,
        RiskId::CustomerExodus => s.churn_rate > 12_000 && s.wau > 100,
        RiskId::CashCrunch => s.runway_months.below(6_000),
        RiskId::VelocityCollapse => s.velocity < 600,
        RiskId::ReputationCrisis => s.reputation < 40_000,
    }
}

/// How severe the risk is in the state.
pub fn risk_severity(risk: RiskId, s: &GameState) -> (severity: WarningSeverity)
    ensures
        severity == risk.severity_in(*s),
{
    match risk {
        RiskId::DeathMarch => grade_below(s.morale, 30_000, 40_000),
        RiskId::TechnicalBankruptcy => grade_above(s.tech_debt, 90_000, 80_000),
        RiskId::CustomerExodus => grade_above(s.churn_rate, 20_000, 15_000),
        RiskId::CashCrunch => match s.runway_months {
            Runway::Months(m) => grade_below(m, 2_000, 3_000),
            Runway::Unlimited => WarningSeverity::Caution,
        },
        RiskId::VelocityCollapse => grade_below(s.velocity, 400, 500),
        RiskId::ReputationCrisis => grade_below(s.reputation, 25_000, 30_000),
    }
}

fn back(week: u32, weeks: u32) -> (earlier: u32)
    ensures
        earlier == weeks_back(week, weeks),
{
    if week >= weeks {
        week - weeks
    } else {
        0
    }
}

fn mark(week: u32, level: i64) -> (s: WarningSign)
    ensures
        s == sign(week, level),
{
    WarningSign { week, indicator_level: level }
}

/// The weeks that are left until a risk turns critical.
pub fn weeks_left(risk: RiskId, s: &GameState) -> (weeks: u8)
    ensures
        weeks == risk.weeks_left_in(*s),
{
    match risk {
        RiskId::DeathMarch => estimate_weeks_until_morale_critical(
            s.morale,
            analyze_morale_trend(&s.history),
        ),
        RiskId::TechnicalBankruptcy => estimate_weeks_until_debt_critical(s.tech_debt),
        RiskId::CustomerExodus => estimate_weeks_until_reputation_critical(s.reputation, s.churn_rate),
        RiskId::CashCrunch => match s.runway_months {
            Runway::Months(m) => bound((m as i128 - 1_000) * 4 / 1_000, 0, 255) as u8,
            Runway::Unlimited => 255,
        },
        RiskId::VelocityCollapse => estimate_weeks_until_velocity_critical(s.velocity),
        RiskId::ReputationCrisis => estimate_weeks_until_reputation_failure(s.reputation),
    }
}

/// The signs that support the warning about a risk.
pub fn signs_for(risk: RiskId, s: &GameState) -> (signs: Vec<WarningSign>)
    ensures
        signs@ == risk.signs_in(*s),
{
    match risk {
        RiskId::DeathMarch => generate_morale_warning_signs(&s.history),
        RiskId::TechnicalBankruptcy => vec![
            mark(back(s.week, 4), 60_000),
            mark(back(s.week, 2), 75_000),
            mark(s.week, s.tech_debt),
        ],
        RiskId::CustomerExodus => vec![
            mark(back(s.week, 3), 50_000),
            mark(back(s.week, 2), 65_000),
            mark(s.week, scale(s.churn_rate, 4, 1)),
        ],
        RiskId::CashCrunch => {
            let level = match s.runway_months {
                Runway::Months(m) => scale(diff(6_000, m), 20, 1),
                Runway::Unlimited => 0,
            };
            vec![mark(back(s.week, 4), 40_000), mark(back(s.week, 2), 60_000), mark(s.week, level)]
        },
        RiskId::VelocityCollapse => vec![
            mark(back(s.week, 3), 50_000),
            mark(back(s.week, 2), 65_000),
            mark(s.week, scale(diff(1_000, s.velocity), 150, 1)),
        ],
        RiskId::ReputationCrisis => vec![
            mark(back(s.week, 2), 55_000),
            mark(s.week, scale(diff(50_000, s.reputation), 2, 1)),
        ],
    }
}

/// The warning that the state gives for a risk.
pub fn warning_for(risk: RiskId, s: &GameState) -> (warning: FailureWarning)
    ensures
        warning.describes(risk, *s),
{
    FailureWarning {
        risk_id: risk,
        warning_signs: signs_for(risk, s),
        weeks_until_critical: Some(weeks_left(risk, s)),
        severity: risk_severity(risk, s),
    }
}

/// The risks among the first `n` that the state shows at a severity, the
/// one checked last first.
pub open spec fn risks_at(s: GameState, severity: WarningSeverity, n: int) -> Seq<RiskId>
    decreases n,
{
    if n <= 0 {
        Seq::<RiskId>::empty()
    } else if RiskId::at(n - 1).shows_in(s) && RiskId::at(n - 1).severity_in(s) == severity {
        seq![RiskId::at(n - 1)] + risks_at(s, severity, n - 1)
    } else {
        risks_at(s, severity, n - 1)
    }
}

/// The risks that the state shows, most severe first; among equally severe
/// ones the one checked last comes first.
pub open spec fn ranked_risks(s: GameState) -> Seq<RiskId> {
    risks_at(s, WarningSeverity::Critical, RISK_COUNT as int) + risks_at(
        s,
        WarningSeverity::Danger,
        RISK_COUNT as int,
    ) + risks_at(s, WarningSeverity::Caution, RISK_COUNT as int) + risks_at(
        s,
        WarningSeverity::Watch,
        RISK_COUNT as int,
    )
}

/// Appends the warnings for the risks that the state shows at a severity,
/// the one checked last first.
fn push_warnings_at(
    warnings: &mut Vec<FailureWarning>,
    s: &GameState,
    severity: WarningSeverity,
    Ghost(so_far): Ghost<Seq<RiskId>>,
)
    requires
        old(warnings)@.len() == so_far.len(),
        forall|i: int|
            0 <= i < so_far.len() ==> (#[trigger] old(warnings)@[i]).describes(so_far[i], *s),
    ensures
        final(warnings)@.len() == (so_far + risks_at(*s, severity, RISK_COUNT as int)).len(),
        forall|i: int|
            0 <= i < final(warnings)@.len() ==> (#[trigger] final(warnings)@[i]).describes(
                (so_far + risks_at(*s, severity, RISK_COUNT as int))[i],
                *s,
            ),
{
    let mut n: usize = RISK_COUNT;
    let ghost mut taken: Seq<RiskId> = Seq::<RiskId>::empty();
    while n > 0
        invariant
            n <= RISK_COUNT,
            taken + risks_at(*s, severity, n as int) == risks_at(*s, severity, RISK_COUNT as int),
            warnings@.len() == (so_far + taken).len(),
            forall|i: int|
                0 <= i < warnings@.len() ==> (#[trigger] warnings@[i]).describes((so_far + taken)[i], *s),
        decreases n,
    {
        n = n - 1;
        let risk = risk_at(n);
        if risk_shows(risk, s) && risk_severity(risk, s) == severity {
            warnings.push(warning_for(risk, s));
            proof {
                let rest = risks_at(*s, severity, n as int);
                assert(risks_at(*s, severity, n + 1) == seq![risk] + rest);
                assert(taken.push(risk) + rest =~= taken + (seq![risk] + rest));
                taken = taken.push(risk);
                assert((so_far + taken) =~= (so_far + taken.drop_last()).push(risk));
            }
        }
    }
    proof {
        assert(risks_at(*s, severity, 0) =~= Seq::<RiskId>::empty());
        assert(taken + Seq::<RiskId>::empty() =~= taken);
    }
}

/// The warnings that the state gives: one for each risk it shows, most
/// severe first; among equally severe risks the one checked last comes
/// first.
pub fn check_failure_warnings(state: &GameState) -> (warnings: Vec<FailureWarning>)
    ensures
        warnings@.len() == ranked_risks(*state).len(),
        forall|i: int|
            0 <= i < warnings@.len() ==> (#[trigger] warnings@[i]).describes(ranked_risks(*state)[i], *state),
{
    let mut warnings: Vec<FailureWarning> = Vec::new();
    let ghost none = Seq::<RiskId>::empty();
    let ghost critical = risks_at(*state, WarningSeverity::Critical, RISK_COUNT as int);
    let ghost danger = risks_at(*state, WarningSeverity::Danger, RISK_COUNT as int);
    let ghost caution = risks_at(*state, WarningSeverity::Caution, RISK_COUNT as int);
    push_warnings_at(&mut warnings, state, WarningSeverity::Critical, Ghost(none));
    assert(none + critical =~= critical);
    push_warnings_at(&mut warnings, state, WarningSeverity::Danger, Ghost(critical));
    push_warnings_at(&mut warnings, state, WarningSeverity::Caution, Ghost(critical + danger));
    push_warnings_at(&mut warnings, state, WarningSeverity::Watch, Ghost(critical + danger + caution));
    warnings
}

} // verus!
