//! The passive economics of a week: revenue, burn, churn and the drift of
//! the net promoter score.
use crate::fixed::bounded;
use crate::fixed::bound;
use crate::fixed::capped;
use crate::fixed::diff;
use crate::fixed::scale;
use crate::fixed::scaled;
use crate::fixed::sum;
use crate::state::GameState;
use vstd::prelude::*;

verus! {

/// A quarter of a monthly amount.
pub open spec fn weekly(monthly: i64) -> i64 {
    scaled(monthly as int, 1, 4)
}

/// Revenue of one week: a quarter of the monthly recurring revenue.
pub fn calculate_weekly_revenue(mrr: i64) -> (revenue: i64)
    ensures
        revenue == weekly(mrr),
{
    scale(mrr, 1, 4)
}

/// Burn of one week: a quarter of the monthly burn.
pub fn calculate_weekly_burn(burn: i64) -> (weekly_burn: i64)
    ensures
        weekly_burn == weekly(burn),
{
    scale(burn, 1, 4)
}

/// Revenue after one week of churn at a monthly rate in percent:
/// `mrr * (1 - churn_rate / 400)`.
pub open spec fn mrr_after_churn(mrr: i64, churn_rate: i64) -> i64 {
    scaled(mrr as int, capped(400_000 - churn_rate) as int, 400_000)
}

/// Applies one week of churn to the monthly recurring revenue: the monthly
/// rate divided by four, as a multiplicative decay.
pub fn apply_churn(state: &mut GameState)
    ensures
        *final(state) == (GameState {
            mrr: mrr_after_churn(old(state).mrr, old(state).churn_rate),
            ..*old(state)
        }),
{
    state.mrr = scale(state.mrr, diff(400_000, state.churn_rate), 400_000);
}

/// Monthly churn in percent for a net promoter score and a number of
/// incidents: 5, less 2 for a score above 50, less 1 above 20, plus 2 below
/// -20, plus 1 for each incident, kept within `[1, 20]`.
pub open spec fn churn_rate_for(nps: i64, incident_count: u32) -> i64 {
    let by_nps: int = if nps > 50_000 {
        -2_000
    } else if nps > 20_000 {
        -1_000
    } else if nps < -20_000 {
        2_000
    } else {
        0
    };
    bounded(5_000 + by_nps + incident_count * 1_000, 1_000, 20_000)
}

/// Monthly churn in percent for a net promoter score and a number of
/// incidents.
pub fn calculate_churn_rate(nps: i64, incident_count: u32) -> (rate: i64)
    ensures
        rate == churn_rate_for(nps, incident_count),
        1_000 <= rate <= 20_000,
{
    let by_nps: i128 = if nps > 50_000 {
        -2_000
    } else if nps > 20_000 {
        -1_000
    } else if nps < -20_000 {
        2_000
    } else {
        0
    };
    bound(5_000 + by_nps + (incident_count as i128) * 1_000, 1_000, 20_000)
}

/// The score that the net promoter score drifts toward: 30, less 10 for
/// tech debt above 70 or less 5 above 40, plus 5 for velocity above 1.2 or
/// less 5 below 0.8.
pub open spec fn nps_target(tech_debt: i64, velocity: i64) -> i64 {
    let debt_penalty: int = if tech_debt > 70_000 {
        -10_000
    } else if tech_debt > 40_000 {
        -5_000
    } else {
        0
    };
    let velocity_bonus: int = if velocity > 1_200 {
        5_000
    } else if velocity < 800 {
        -5_000
    } else {
        0
    };
    (30_000 + velocity_bonus + debt_penalty) as i64
}

/// One step of exponential smoothing with weight 0.1 toward the target:
/// `0.9 * nps + 0.1 * target`.
pub open spec fn nps_after_drift(nps: i64, target: i64) -> i64 {
    capped(scaled(nps as int, 9, 10) + scaled(target as int, 1, 10))
}

/// Lets the net promoter score drift a tenth of the way toward its target.
pub fn update_nps(state: &mut GameState)
    ensures
        *final(state) == (GameState {
            nps: nps_after_drift(
                old(state).nps,
                nps_target(old(state).tech_debt, old(state).velocity),
            ),
            ..*old(state)
        }),
{
    let debt_penalty: i64 = if state.tech_debt > 70_000 {
        -10_000
    } else if state.tech_debt > 40_000 {
        -5_000
    } else {
        0
    };
    let velocity_bonus: i64 = if state.velocity > 1_200 {
        5_000
    } else if state.velocity < 800 {
        -5_000
    } else {
        0
    };
    let target: i64 = 30_000 + velocity_bonus + debt_penalty;
    state.nps = sum(scale(state.nps, 9, 10), scale(target, 1, 10));
}

} // verus!
