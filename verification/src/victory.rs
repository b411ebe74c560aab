//! Victory, defeat and the escape-velocity gates.
use crate::state::EscapeVelocityProgress;
use crate::state::GameState;
use crate::state::VICTORY_STREAK;
use vstd::prelude::*;

verus! {

/// How the game was won.
#[derive(Debug, Clone, Copy, PartialEq, Eq, Structural)]
pub enum VictoryCondition {
    EscapeVelocity { weeks_sustained: u8 },
}

/// How the game was lost.
#[derive(Debug, Clone, Copy, PartialEq, Eq, Structural)]
pub enum DefeatCondition {
    OutOfMoney,
    FounderBurnout,
    ReputationDestroyed,
}

impl GameState {
    /// The bank is empty or the runway is spent.
    pub open spec fn is_out_of_money(self) -> bool {
        self.bank <= 0 || self.runway_months.is_spent()
    }

    /// Morale has reached zero.
    pub open spec fn is_burnt_out(self) -> bool {
        self.morale <= 0
    }

    /// Reputation is at 10 or below.
    pub open spec fn is_reputation_destroyed(self) -> bool {
        self.reputation <= 10_000
    }

    /// The four gates as the current stats set them: revenue covers burn,
    /// growth of at least 10 percent, a net promoter score of at least 30,
    /// morale above 40.
    pub open spec fn gates(self) -> EscapeVelocityProgress {
        EscapeVelocityProgress {
            revenue_covers_burn: self.mrr >= self.burn,
            growth_sustained: self.wau_growth_rate >= 10_000,
            customer_love: self.nps >= 30_000,
            founder_healthy: self.morale > 40_000,
            streak_weeks: self.escape_velocity_progress.streak_weeks,
        }
    }

    /// Progress after this week's evaluation: the gates are recomputed, and
    /// the streak grows by one when all four hold and falls to zero when any
    /// does not. The streak stops growing at 255.
    pub open spec fn progress_after_week(self) -> EscapeVelocityProgress {
        let gates = self.gates();
        EscapeVelocityProgress {
            streak_weeks: if gates.all_met() {
                if gates.streak_weeks < u8::MAX {
                    (gates.streak_weeks + 1) as u8
                } else {
                    u8::MAX
                }
            } else {
                0
            },
            ..gates
        }
    }
}

/// The defeat that the state amounts to, if any. The three conditions are
/// independent; when several hold, running out of money is reported before
/// burnout, and burnout before a destroyed reputation.
pub open spec fn defeat_of(state: GameState) -> Option<DefeatCondition> {
    if state.is_out_of_money() {
        Some(DefeatCondition::OutOfMoney)
    } else if state.is_burnt_out() {
        Some(DefeatCondition::FounderBurnout)
    } else if state.is_reputation_destroyed() {
        Some(DefeatCondition::ReputationDestroyed)
    } else {
        None
    }
}

/// Victory, once all four gates have held for twelve consecutive weeks.
pub fn check_victory(state: &GameState) -> (victory: Option<VictoryCondition>)
    ensures
        victory == if state.escape_velocity_progress.streak_weeks >= VICTORY_STREAK {
            Some(
                VictoryCondition::EscapeVelocity {
                    weeks_sustained: state.escape_velocity_progress.streak_weeks,
                },
            )
        } else {
            None
        },
{
    if state.escape_velocity_progress.streak_weeks >= VICTORY_STREAK {
        return Some(
            VictoryCondition::EscapeVelocity {
                weeks_sustained: state.escape_velocity_progress.streak_weeks,
            },
        );
    }
    None
}

/// Defeat, if the company is out of money, the founder is burnt out or the
/// reputation is destroyed.
pub fn check_defeat(state: &GameState) -> (defeat: Option<DefeatCondition>)
    ensures
        defeat == defeat_of(*state),
        defeat.is_some() <==> state.is_out_of_money() || state.is_burnt_out()
            || state.is_reputation_destroyed(),
{
    if state.bank <= 0 || state.runway_months.spent() {
        return Some(DefeatCondition::OutOfMoney);
    }
    if state.morale <= 0 {
        return Some(DefeatCondition::FounderBurnout);
    }
    if state.reputation <= 10_000 {
        return Some(DefeatCondition::ReputationDestroyed);
    }
    None
}

/// Recomputes the four gates from the current stats and updates the streak:
/// one more week when all four hold, zero otherwise, whatever it was before.
pub fn update_escape_velocity_progress(state: &mut GameState)
    ensures
        *final(state) == (GameState {
            escape_velocity_progress: old(state).progress_after_week(),
            ..*old(state)
        }),
        !final(state).escape_velocity_progress.all_met()
            ==> final(state).escape_velocity_progress.streak_weeks == 0,
{
    state.escape_velocity_progress.revenue_covers_burn = state.mrr >= state.burn;
    state.escape_velocity_progress.growth_sustained = state.wau_growth_rate >= 10_000;
    state.escape_velocity_progress.customer_love = state.nps >= 30_000;
    state.escape_velocity_progress.founder_healthy = state.morale > 40_000;
    if state.escape_velocity_progress.all_conditions_met() {
        if state.escape_velocity_progress.streak_weeks < u8::MAX {
            state.escape_velocity_progress.streak_weeks = state.escape_velocity_progress.streak_weeks
                + 1;
        }
    } else {
        state.escape_velocity_progress.streak_weeks = 0;
    }
}

/// If any of the four gates fails on the stats of a week, the streak after
/// that week's evaluation is zero, whatever the streak was before.
pub proof fn lemma_streak_resets(state: GameState)
    requires
        !(state.mrr >= state.burn) || !(state.wau_growth_rate >= 10_000) || !(state.nps >= 30_000)
            || !(state.morale > 40_000),
    ensures
        state.progress_after_week().streak_weeks == 0,
{
}

/// The streak grows only by a week in which all four gates hold, and then
/// by exactly one (until the counter is full).
pub proof fn lemma_streak_grows_by_one(state: GameState)
    requires
        state.mrr >= state.burn,
        state.wau_growth_rate >= 10_000,
        state.nps >= 30_000,
        state.morale > 40_000,
        state.escape_velocity_progress.streak_weeks < u8::MAX,
    ensures
        state.progress_after_week().streak_weeks == state.escape_velocity_progress.streak_weeks
            + 1,
        state.progress_after_week().all_met(),
{
}

} // verus!
