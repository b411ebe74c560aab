//! Compounding bonuses: escalating rewards for a favourable condition that
//! the weekly history shows to have been sustained.
use crate::actions::Stat;
use crate::fixed::bounded;
use crate::fixed::capped;
use crate::fixed::scale;
use crate::fixed::scaled;
use crate::fixed::sum;
use crate::state::GameState;
use crate::state::WeekSnapshot;
use vstd::prelude::*;

verus! {

/// Number of compounding effects.
pub const EFFECT_COUNT: usize = 6;

/// The compounding effects, in the order in which they are checked.
#[derive(Debug, Clone, Copy, PartialEq, Eq, Hash, Structural)]
pub enum CompoundingId {
    EngineeringExcellence,
    CustomerLove,
    StrongCulture,
    FinancialDiscipline,
    MomentumMaster,
    SustainablePace,
}

/// A compounding effect as it stands in one week.
#[derive(Debug, Clone, Copy, PartialEq, Eq, Structural)]
pub struct CompoundingEffect {
    pub id: CompoundingId,
    pub active: bool,
    pub weeks_active: u8,
    /// Grows with the weeks for which the effect has been active.
    pub bonus_multiplier: i64,
}

/// One bonus on one stat. A multiplier of `50` multiplies the stat by 1.05;
/// an additive bonus is in thousandths.
#[derive(Debug, Clone, Copy, PartialEq, Eq, Structural)]
pub struct StatBonus {
    pub stat: Stat,
    pub bonus_amount: i64,
    pub is_multiplier: bool,
}

/// A compounding bonus that was earned this week.
#[derive(Debug, Clone)]
pub struct CompoundingBonus {
    pub effect_id: CompoundingId,
    /// Length of the run of weeks that earned the bonus.
    pub weeks_sustained: u8,
    pub bonuses: Vec<StatBonus>,
}

/// A condition on one weekly snapshot.
#[derive(Debug, Clone, Copy, PartialEq, Eq, Structural)]
pub enum SnapshotTest {
    MomentumAbove(i64),
    ReputationAbove(i64),
    MoraleAbove(i64),
    /// The bank covered more than this many months of burn.
    RunwayAbove(i64),
    UsersAtLeast(u32),
    MomentumBelow(i64),
    MoraleBelow(i64),
}

impl SnapshotTest {
    /// Whether the snapshot meets the condition. A week without burn had a
    /// runway above any length if there was money in the bank.
    pub open spec fn holds(self, snapshot: WeekSnapshot) -> bool {
        match self {
            SnapshotTest::MomentumAbove(x) => snapshot.momentum > x,
            SnapshotTest::ReputationAbove(x) => snapshot.reputation > x,
            SnapshotTest::MoraleAbove(x) => snapshot.morale > x,
            SnapshotTest::RunwayAbove(months) => if snapshot.burn > 0 {
                snapshot.bank * 1_000 > months * snapshot.burn
            } else {
                snapshot.bank > 0
            },
            SnapshotTest::UsersAtLeast(n) => snapshot.wau >= n,
            SnapshotTest::MomentumBelow(x) => snapshot.momentum < x,
            SnapshotTest::MoraleBelow(x) => snapshot.morale < x,
        }
    }

    /// Whether the snapshot meets the condition.
    pub fn check(&self, snapshot: &WeekSnapshot) -> (met: bool)
        ensures
            met == self.holds(*snapshot),
    {
        match self {
            SnapshotTest::MomentumAbove(x) => snapshot.momentum > *x,
            SnapshotTest::ReputationAbove(x) => snapshot.reputation > *x,
            SnapshotTest::MoraleAbove(x) => snapshot.morale > *x,
            SnapshotTest::RunwayAbove(months) => if snapshot.burn > 0 {
                proof {
                    crate::fixed::lemma_product_fits(*months as int, snapshot.burn as int);
                }
                (snapshot.bank as i128) * 1_000 > (*months as i128) * (snapshot.burn as i128)
            } else {
                snapshot.bank > 0
            },
            SnapshotTest::UsersAtLeast(n) => snapshot.wau >= *n,
            SnapshotTest::MomentumBelow(x) => snapshot.momentum < *x,
            SnapshotTest::MoraleBelow(x) => snapshot.morale < *x,
        }
    }
}

/// Length of the unbroken run of snapshots that meet the condition, counted
/// from the most recent one backward over at most `limit` snapshots.
pub open spec fn trailing_run(history: Seq<WeekSnapshot>, limit: nat, test: SnapshotTest) -> nat
    decreases limit,
{
    if limit == 0 || history.len() == 0 || !test.holds(history.last()) {
        0
    } else {
        1 + trailing_run(history.drop_last(), (limit - 1) as nat, test)
    }
}

/// The run length as the engine counts it: over at most `max_lookback`
/// snapshots, and never above 255.
pub open spec fn consecutive_weeks(
    history: Seq<WeekSnapshot>,
    max_lookback: nat,
    test: SnapshotTest,
) -> nat {
    let run = trailing_run(history, max_lookback, test);
    if run > 255 {
        255
    } else {
        run
    }
}

/// The run over the last `k` snapshots is the run that ends `k` snapshots
/// back, taken over whatever is left of the limit.
proof fn lemma_run_split(history: Seq<WeekSnapshot>, limit: nat, test: SnapshotTest, k: nat)
    requires
        k <= limit,
        k <= history.len(),
        forall|j: int| history.len() - k <= j < history.len() ==> test.holds(history[j]),
    ensures
        trailing_run(history, limit, test) == k + trailing_run(
            history.take(history.len() - k),
            (limit - k) as nat,
            test,
        ),
    decreases k,
{
    if k == 0 {
        assert(history.take(history.len() as int) =~= history);
    } else {
        let shorter = history.drop_last();
        assert forall|j: int| shorter.len() - (k - 1) <= j < shorter.len() implies test.holds(
            shorter[j],
        ) by {
            assert(shorter[j] == history[j]);
        }
        lemma_run_split(shorter, (limit - 1) as nat, test, (k - 1) as nat);
        assert(shorter.take(shorter.len() - (k - 1)) =~= history.take(history.len() - k));
    }
}

/// Counts the consecutive weeks, from the most recent backward, in which
/// the condition held, looking at no more than `max_lookback` weeks.
pub fn count_consecutive_weeks(
    history: &Vec<WeekSnapshot>,
    max_lookback: usize,
    condition: &SnapshotTest,
) -> (weeks: u8)
    ensures
        weeks == consecutive_weeks(history@, max_lookback as nat, *condition),
{
    let lookback: usize = if max_lookback < history.len() {
        max_lookback
    } else {
        history.len()
    };
    let mut consecutive: usize = 0;
    while consecutive < lookback && condition.check(&history[history.len() - 1 - consecutive])
        invariant
            consecutive <= lookback,
            lookback <= history.len(),
            lookback <= max_lookback,
            forall|j: int|
                history@.len() - consecutive <= j < history@.len() ==> condition.holds(history@[j]),
        decreases lookback - consecutive,
    {
        consecutive = consecutive + 1;
    }
    proof {
        lemma_run_split(history@, max_lookback as nat, *condition, consecutive as nat);
        let rest = history@.take(history@.len() - consecutive);
        if consecutive < lookback {
            assert(rest.last() == history@[history@.len() - 1 - consecutive]);
        } else if lookback == history.len() {
            assert(rest.len() == 0);
        }
    }
    if consecutive > 255 {
        255
    } else {
        consecutive as u8
    }
}

pub open spec fn multiplier(stat: Stat, amount: int) -> StatBonus {
    StatBonus { stat, bonus_amount: amount as i64, is_multiplier: true }
}

pub open spec fn additive(stat: Stat, amount: int) -> StatBonus {
    StatBonus { stat, bonus_amount: amount as i64, is_multiplier: false }
}

impl CompoundingId {
    /// The effect at a position of the checking order.
    pub open spec fn at(i: int) -> CompoundingId {
        if i == 0 {
            CompoundingId::EngineeringExcellence
        } else if i == 1 {
            CompoundingId::CustomerLove
        } else if i == 2 {
            CompoundingId::StrongCulture
        } else if i == 3 {
            CompoundingId::FinancialDiscipline
        } else if i == 4 {
            CompoundingId::MomentumMaster
        } else {
            CompoundingId::SustainablePace
        }
    }

    /// What the current state must show for the effect to be earned.
    pub open spec fn gate(self, state: GameState) -> bool {
        match self {
            CompoundingId::EngineeringExcellence => state.tech_debt < 25_000 && state.velocity > 800,
            CompoundingId::CustomerLove => state.nps > 60_000 && state.wau > 200,
            CompoundingId::StrongCulture => state.morale > 75_000,
            CompoundingId::FinancialDiscipline => state.runway_months.is_above(12_000) && state.burn
                > 0 && 2 * state.mrr > state.burn,
            CompoundingId::MomentumMaster => state.wau_growth_rate > 8_000 && state.churn_rate
                < 8_000,
            CompoundingId::SustainablePace => state.morale > 65_000 && state.velocity > 700,
        }
    }

    /// What every week of the run must show.
    pub open spec fn test(self) -> SnapshotTest {
        match self {
            CompoundingId::EngineeringExcellence => SnapshotTest::MomentumAbove(700),
            CompoundingId::CustomerLove => SnapshotTest::ReputationAbove(60_000),
            CompoundingId::StrongCulture => SnapshotTest::MoraleAbove(75_000),
            CompoundingId::FinancialDiscipline => SnapshotTest::RunwayAbove(3_000),
            CompoundingId::MomentumMaster => SnapshotTest::UsersAtLeast(10),
            CompoundingId::SustainablePace => SnapshotTest::MoraleAbove(60_000),
        }
    }

    /// Shortest run that earns the effect.
    pub open spec fn minimum(self) -> u8 {
        match self {
            CompoundingId::EngineeringExcellence => 4,
            CompoundingId::CustomerLove => 6,
            CompoundingId::StrongCulture => 8,
            CompoundingId::FinancialDiscipline => 8,
            CompoundingId::MomentumMaster => 6,
            CompoundingId::SustainablePace => 10,
        }
    }

    /// Largest strength that the effect reaches.
    pub open spec fn ceiling(self) -> i64 {
        match self {
            CompoundingId::SustainablePace => 1_500,
            _ => 2_000,
        }
    }

    /// Strength of the effect after a run of `weeks`: linear in the run
    /// length, one at the minimum, and never above the ceiling.
    pub open spec fn strength(self, weeks: u8) -> i64 {
        bounded(weeks * 1_000 / (self.minimum() as int), 0, self.ceiling())
    }

    /// The bonuses of the effect at strength one.
    pub open spec fn base_bonuses(self) -> Seq<StatBonus> {
        match self {
            CompoundingId::EngineeringExcellence => seq![
                multiplier(Stat::Velocity, 50),
                additive(Stat::Morale, 5_000),
            ],
            CompoundingId::CustomerLove => seq![
                additive(Stat::WauGrowth, 3_000),
                additive(Stat::ChurnRate, -2_000),
            ],
            CompoundingId::StrongCulture => seq![
                multiplier(Stat::Velocity, 100),
                additive(Stat::Reputation, 5_000),
            ],
            CompoundingId::FinancialDiscipline => seq![
                additive(Stat::Reputation, 10_000),
                additive(Stat::Morale, 5_000),
            ],
            CompoundingId::MomentumMaster => seq![
                additive(Stat::WauGrowth, 2_000),
                additive(Stat::Reputation, 8_000),
            ],
            CompoundingId::SustainablePace => seq![
                additive(Stat::MoraleDecay, -300),
                multiplier(Stat::Velocity, 50),
            ],
        }
    }

    /// The bonuses of the effect at a strength: every base amount times the
    /// strength.
    pub open spec fn bonuses_at(self, strength: i64) -> Seq<StatBonus> {
        Seq::new(
            self.base_bonuses().len(),
            |i: int|
                StatBonus {
                    bonus_amount: scaled(
                        self.base_bonuses()[i].bonus_amount as int,
                        strength as int,
                        1_000,
                    ),
                    ..self.base_bonuses()[i]
                },
        )
    }

    /// Length of the run that the history shows for the effect.
    pub open spec fn run(self, state: GameState, history_weeks: nat) -> nat {
        consecutive_weeks(state.history@, history_weeks, self.test())
    }

    /// Whether the effect is earned: the state is as the effect asks and
    /// the run is long enough.
    pub open spec fn earned(self, state: GameState, history_weeks: nat) -> bool {
        self.gate(state) && self.run(state, history_weeks) >= self.minimum()
    }
}

impl CompoundingBonus {
    /// Whether the bonus is the one that the effect gives in the state.
    pub open spec fn is_earned_in(self, state: GameState, history_weeks: nat) -> bool {
        &&& self.effect_id.earned(state, history_weeks)
        &&& self.weeks_sustained == self.effect_id.run(state, history_weeks)
        &&& self.bonuses@ == self.effect_id.bonuses_at(
            self.effect_id.strength(self.weeks_sustained),
        )
    }
}

/// The effects among the first `n` that are earned, in checking order.
pub open spec fn earned_effects(state: GameState, history_weeks: nat, n: int) -> Seq<CompoundingId>
    decreases n,
{
    if n <= 0 {
        Seq::<CompoundingId>::empty()
    } else if CompoundingId::at(n - 1).earned(state, history_weeks) {
        earned_effects(state, history_weeks, n - 1).push(CompoundingId::at(n - 1))
    } else {
        earned_effects(state, history_weeks, n - 1)
    }
}

/// The effect at a position of the checking order.
pub fn effect_at(i: usize) -> (id: CompoundingId)
    ensures
        id == CompoundingId::at(i as int),
{
    if i == 0 {
        CompoundingId::EngineeringExcellence
    } else if i == 1 {
        CompoundingId::CustomerLove
    } else if i == 2 {
        CompoundingId::StrongCulture
    } else if i == 3 {
        CompoundingId::FinancialDiscipline
    } else if i == 4 {
        CompoundingId::MomentumMaster
    } else {
        CompoundingId::SustainablePace
    }
}

/// Whether the state is as an effect asks.
pub fn gate_holds(id: CompoundingId, state: &GameState) -> (open: bool)
    ensures
        open == id.gate(*state),
{
    match id {
        CompoundingId::EngineeringExcellence => state.tech_debt < 25_000 && state.velocity > 800,
        CompoundingId::CustomerLove => state.nps > 60_000 && state.wau > 200,
        CompoundingId::StrongCulture => state.morale > 75_000,
        CompoundingId::FinancialDiscipline => state.runway_months.above(12_000) && state.burn > 0
            && 2 * (state.mrr as i128) > state.burn as i128,
        CompoundingId::MomentumMaster => state.wau_growth_rate > 8_000 && state.churn_rate < 8_000,
        CompoundingId::SustainablePace => state.morale > 65_000 && state.velocity > 700,
    }
}

/// What every week of an effect's run must show.
pub fn test_of(id: CompoundingId) -> (test: SnapshotTest)
    ensures
        test == id.test(),
{
    match id {
        CompoundingId::EngineeringExcellence => SnapshotTest::MomentumAbove(700),
        CompoundingId::CustomerLove => SnapshotTest::ReputationAbove(60_000),
        CompoundingId::StrongCulture => SnapshotTest::MoraleAbove(75_000),
        CompoundingId::FinancialDiscipline => SnapshotTest::RunwayAbove(3_000),
        CompoundingId::MomentumMaster => SnapshotTest::UsersAtLeast(10),
        CompoundingId::SustainablePace => SnapshotTest::MoraleAbove(60_000),
    }
}

/// Shortest run that earns an effect.
pub fn minimum_weeks(id: CompoundingId) -> (weeks: u8)
    ensures
        weeks == id.minimum(),
        weeks >= 4,
{
    match id {
        CompoundingId::EngineeringExcellence => 4,
        CompoundingId::CustomerLove => 6,
        CompoundingId::StrongCulture => 8,
        CompoundingId::FinancialDiscipline => 8,
        CompoundingId::MomentumMaster => 6,
        CompoundingId::SustainablePace => 10,
    }
}

/// Strength of an effect after a run of `weeks`.
pub fn bonus_strength(id: CompoundingId, weeks: u8) -> (strength: i64)
    ensures
        strength == id.strength(weeks),
        0 <= strength <= 2_000,
{
    let ceiling: i64 = match id {
        CompoundingId::SustainablePace => 1_500,
        _ => 2_000,
    };
    let minimum = minimum_weeks(id);
    crate::fixed::clamp((weeks as i64) * 1_000 / (minimum as i64), 0, ceiling)
}

fn times(stat: Stat, amount: i64) -> (bonus: StatBonus)
    ensures
        bonus == multiplier(stat, amount as int),
{
    StatBonus { stat, bonus_amount: amount, is_multiplier: true }
}

fn plus(stat: Stat, amount: i64) -> (bonus: StatBonus)
    ensures
        bonus == additive(stat, amount as int),
{
    StatBonus { stat, bonus_amount: amount, is_multiplier: false }
}

/// The bonuses of an effect at strength one.
pub fn base_bonus_list(id: CompoundingId) -> (bonuses: Vec<StatBonus>)
    ensures
        bonuses@ == id.base_bonuses(),
{
    match id {
        CompoundingId::EngineeringExcellence => vec![
            times(Stat::Velocity, 50),
            plus(Stat::Morale, 5_000),
        ],
        CompoundingId::CustomerLove => vec![
            plus(Stat::WauGrowth, 3_000),
            plus(Stat::ChurnRate, -2_000),
        ],
        CompoundingId::StrongCulture => vec![
            times(Stat::Velocity, 100),
            plus(Stat::Reputation, 5_000),
        ],
        CompoundingId::FinancialDiscipline => vec![
            plus(Stat::Reputation, 10_000),
            plus(Stat::Morale, 5_000),
        ],
        CompoundingId::MomentumMaster => vec![
            plus(Stat::WauGrowth, 2_000),
            plus(Stat::Reputation, 8_000),
        ],
        CompoundingId::SustainablePace => vec![
            plus(Stat::MoraleDecay, -300),
            times(Stat::Velocity, 50),
        ],
    }
}

/// The bonuses of an effect at a strength.
pub fn bonus_list(id: CompoundingId, strength: i64) -> (bonuses: Vec<StatBonus>)
    ensures
        bonuses@ == id.bonuses_at(strength),
{
    let base = base_bonus_list(id);
    let mut bonuses: Vec<StatBonus> = Vec::new();
    let mut i: usize = 0;
    while i < base.len()
        invariant
            i <= base.len(),
            base@ == id.base_bonuses(),
            bonuses@.len() == i,
            forall|j: int| 0 <= j < i ==> bonuses@[j] == id.bonuses_at(strength)[j],
        decreases base.len() - i,
    {
        let b = base[i];
        bonuses.push(
            StatBonus {
                stat: b.stat,
                bonus_amount: scale(b.bonus_amount, strength, 1_000),
                is_multiplier: b.is_multiplier,
            },
        );
        i = i + 1;
    }
    assert(bonuses@ =~= id.bonuses_at(strength));
    bonuses
}

/// The compounding bonuses that the state has earned: for each effect, in
/// checking order, whose gate the current state meets and whose condition
/// held for its minimum of consecutive weeks at the end of the history
/// (looking back over at most `history_weeks` weeks), the effect's bonuses
/// at the strength that the run length gives.
pub fn check_compounding_effects(
    state: &GameState,
    history_weeks: usize,
) -> (bonuses: Vec<CompoundingBonus>)
    ensures
        bonuses@.len() == earned_effects(*state, history_weeks as nat, EFFECT_COUNT as int).len(),
        forall|i: int|
            0 <= i < bonuses@.len() ==> (#[trigger] bonuses@[i]).effect_id == earned_effects(
                *state,
                history_weeks as nat,
                EFFECT_COUNT as int,
            )[i] && bonuses@[i].is_earned_in(*state, history_weeks as nat),
{
    let mut bonuses: Vec<CompoundingBonus> = Vec::new();
    let mut n: usize = 0;
    while n < EFFECT_COUNT
        invariant
            n <= EFFECT_COUNT,
            bonuses@.len() == earned_effects(*state, history_weeks as nat, n as int).len(),
            forall|i: int|
                0 <= i < bonuses@.len() ==> (#[trigger] bonuses@[i]).effect_id == earned_effects(
                    *state,
                    history_weeks as nat,
                    n as int,
                )[i] && bonuses@[i].is_earned_in(*state, history_weeks as nat),
        decreases EFFECT_COUNT - n,
    {
        let id = effect_at(n);
        if gate_holds(id, state) {
            let weeks = count_consecutive_weeks(&state.history, history_weeks, &test_of(id));
            if weeks >= minimum_weeks(id) {
                let strength = bonus_strength(id, weeks);
                bonuses.push(
                    CompoundingBonus {
                        effect_id: id,
                        weeks_sustained: weeks,
                        bonuses: bonus_list(id, strength),
                    },
                );
            }
        }
        n = n + 1;
    }
    bonuses
}

/// `|x|`, capped.
pub open spec fn magnitude(x: i64) -> i64 {
    if x < 0 {
        capped(-x)
    } else {
        capped(x as int)
    }
}

impl GameState {
    /// The state after one compounding bonus. Velocity may be multiplied;
    /// morale, growth, churn and reputation are increased; a reduction of the
    /// morale decay is paid out as twice its size in morale; a bonus on any
    /// other stat does nothing.
    #[verifier::opaque]
    pub open spec fn compounded(self, bonus: StatBonus) -> GameState {
        match bonus.stat {
            Stat::Velocity => if bonus.is_multiplier {
                GameState {
                    velocity: scaled(
                        self.velocity as int,
                        capped(1_000 + bonus.bonus_amount) as int,
                        1_000,
                    ),
                    ..self
                }
            } else {
                GameState { velocity: capped(self.velocity + bonus.bonus_amount), ..self }
            },
            Stat::Morale => GameState { morale: capped(self.morale + bonus.bonus_amount), ..self },
            Stat::WauGrowth => GameState {
                wau_growth_rate: capped(self.wau_growth_rate + bonus.bonus_amount),
                ..self
            },
            Stat::ChurnRate => GameState {
                churn_rate: capped(self.churn_rate + bonus.bonus_amount),
                ..self
            },
            Stat::Reputation => GameState {
                reputation: capped(self.reputation + bonus.bonus_amount),
                ..self
            },
            Stat::MoraleDecay => GameState {
                morale: capped(self.morale + scaled(magnitude(bonus.bonus_amount) as int, 2, 1)),
                ..self
            },
            _ => self,
        }
    }

    /// The state after each of the bonuses in turn.
    pub open spec fn compounded_by(self, bonuses: Seq<StatBonus>) -> GameState
        decreases bonuses.len(),
    {
        if bonuses.len() == 0 {
            self
        } else {
            self.compounded_by(bonuses.drop_last()).compounded(bonuses.last())
        }
    }

    /// The state after the stat bonuses of each compounding bonus in turn.
    pub open spec fn compounded_all(self, bonuses: Seq<CompoundingBonus>) -> GameState
        decreases bonuses.len(),
    {
        if bonuses.len() == 0 {
            self
        } else {
            self.compounded_all(bonuses.drop_last()).compounded_by(bonuses.last().bonuses@)
        }
    }

    /// Applies one stat bonus.
    pub fn compound(&mut self, bonus: &StatBonus)
        ensures
            *final(self) == old(self).compounded(*bonus),
            old(self).differs_in_stats_only(*final(self)),
    {
        reveal(GameState::compounded);
        match bonus.stat {
            Stat::Velocity => {
                if bonus.is_multiplier {
                    self.velocity = scale(self.velocity, sum(1_000, bonus.bonus_amount), 1_000);
                } else {
                    self.velocity = sum(self.velocity, bonus.bonus_amount);
                }
            },
            Stat::Morale => {
                self.morale = sum(self.morale, bonus.bonus_amount);
            },
            Stat::WauGrowth => {
                self.wau_growth_rate = sum(self.wau_growth_rate, bonus.bonus_amount);
            },
            Stat::ChurnRate => {
                self.churn_rate = sum(self.churn_rate, bonus.bonus_amount);
            },
            Stat::Reputation => {
                self.reputation = sum(self.reputation, bonus.bonus_amount);
            },
            Stat::MoraleDecay => {
                let size = if bonus.bonus_amount < 0 {
                    crate::fixed::diff(0, bonus.bonus_amount)
                } else {
                    crate::fixed::clamp(bonus.bonus_amount, crate::fixed::FLOOR, crate::fixed::CEILING)
                };
                self.morale = sum(self.morale, scale(size, 2, 1));
            },
            _ => {},
        }
    }

    /// Applies the stat bonuses in order.
    pub fn compound_all(&mut self, bonuses: &Vec<StatBonus>)
        ensures
            *final(self) == old(self).compounded_by(bonuses@),
            old(self).differs_in_stats_only(*final(self)),
    {
        let mut i: usize = 0;
        while i < bonuses.len()
            invariant
                i <= bonuses.len(),
                *self == old(self).compounded_by(bonuses@.take(i as int)),
                old(self).differs_in_stats_only(*self),
            decreases bonuses.len() - i,
        {
            assert(bonuses@.take(i + 1).drop_last() =~= bonuses@.take(i as int));
            self.compound(&bonuses[i]);
            i = i + 1;
        }
        assert(bonuses@.take(i as int) =~= bonuses@);
    }
}

/// Applies all the compounding bonuses in one pass, bonus by bonus, and
/// then re-derives and bounds the stats.
pub fn apply_compounding_bonuses(state: &mut GameState, bonuses: &Vec<CompoundingBonus>)
    ensures
        *final(state) == old(state).compounded_all(bonuses@).derived(),
        final(state).stats_in_range(),
        old(state).differs_in_stats_only(*final(state)),
{
    let mut i: usize = 0;
    while i < bonuses.len()
        invariant
            i <= bonuses.len(),
            *state == old(state).compounded_all(bonuses@.take(i as int)),
            old(state).differs_in_stats_only(*state),
        decreases bonuses.len() - i,
    {
        assert(bonuses@.take(i + 1).drop_last() =~= bonuses@.take(i as int));
        state.compound_all(&bonuses[i].bonuses);
        i = i + 1;
    }
    assert(bonuses@.take(i as int) =~= bonuses@);
    state.update_derived_metrics();
}

} // verus!
