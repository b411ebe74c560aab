//! The state of one game and its weekly bookkeeping.
//!
//! Fractional quantities are fixed-point integers in thousandths. The bounded
//! stats are brought back into their ranges by
//! [`GameState::update_derived_metrics`], which every step that ends a phase
//! of the week calls last.
use crate::actions::Action;
use crate::actions::Stat;
use crate::competitors::Competitor;
use crate::customers::Customer;
use crate::events_enhanced::Cooldowns;
use crate::fixed::HUNDRED;
use crate::fixed::SCALE;
use crate::fixed::bounded;
use crate::fixed::capped;
use crate::fixed::clamp;
use crate::fixed::diff;
use crate::fixed::grow;
use crate::fixed::grown;
use crate::fixed::scale;
use crate::fixed::scaled;
use crate::fixed::shift;
use crate::fixed::shifted;
use crate::fixed::stretch;
use crate::fixed::stretched;
use crate::fixed::sum;
use crate::fixed::trunc_div;
use crate::market_conditions::MarketCondition;
use crate::progression::SeasonalChallenge;
use crate::synergies::ActionType;
use crate::synergies::SpecializationPath;
use std::collections::HashMap;
use vstd::prelude::*;

verus! {

/// Number of weekly snapshots that the history keeps.
pub const HISTORY_WEEKS: usize = 52;

/// Number of weeks of submitted actions that the action log keeps.
pub const ACTION_LOG_WEEKS: usize = 12;

/// Lower end of the velocity band, 0.1.
pub const VELOCITY_MIN: i64 = 100;

/// Upper end of the velocity band, 3.0.
pub const VELOCITY_MAX: i64 = 3_000;

/// Lowest net promoter score, -100.
pub const NPS_MIN: i64 = -100_000;

/// Weeks of escape velocity that win the game.
pub const VICTORY_STREAK: u8 = 12;

/// Difficulty modes, which set the starting conditions.
#[derive(Debug, Clone, Copy, PartialEq, Eq, Structural)]
pub enum DifficultyMode {
    IndieBootstrap,
    VCTrack,
    RegulatedFintech,
    InfraDevTool,
}

impl DifficultyMode {
    /// Cash at the start, in thousandths of a dollar.
    pub open spec fn bank_at_start(self) -> i64 {
        match self {
            DifficultyMode::IndieBootstrap => 50_000_000,
            DifficultyMode::VCTrack => 1_000_000_000,
            DifficultyMode::RegulatedFintech => 500_000_000,
            DifficultyMode::InfraDevTool => 300_000_000,
        }
    }

    /// Monthly burn at the start, in thousandths of a dollar.
    pub open spec fn burn_at_start(self) -> i64 {
        match self {
            DifficultyMode::IndieBootstrap => 8_000_000,
            DifficultyMode::VCTrack => 80_000_000,
            DifficultyMode::RegulatedFintech => 40_000_000,
            DifficultyMode::InfraDevTool => 25_000_000,
        }
    }

    /// Cash at the start: $50,000 for an indie, $1,000,000 on the VC track,
    /// $500,000 in regulated fintech, $300,000 for infrastructure tools.
    pub fn starting_bank(&self) -> (bank: i64)
        ensures
            bank == self.bank_at_start(),
    {
        match self {
            DifficultyMode::IndieBootstrap => 50_000_000,
            DifficultyMode::VCTrack => 1_000_000_000,
            DifficultyMode::RegulatedFintech => 500_000_000,
            DifficultyMode::InfraDevTool => 300_000_000,
        }
    }

    /// Monthly burn at the start: $8,000, $80,000, $40,000 and $25,000.
    pub fn starting_burn(&self) -> (burn: i64)
        ensures
            burn == self.burn_at_start(),
    {
        match self {
            DifficultyMode::IndieBootstrap => 8_000_000,
            DifficultyMode::VCTrack => 80_000_000,
            DifficultyMode::RegulatedFintech => 40_000_000,
            DifficultyMode::InfraDevTool => 25_000_000,
        }
    }

    /// Factor on burn: 0.5, 2.0, 1.0 and 0.8, in thousandths.
    pub fn burn_modifier(&self) -> (factor: i64)
        ensures
            factor == match *self {
                DifficultyMode::IndieBootstrap => 500i64,
                DifficultyMode::VCTrack => 2_000i64,
                DifficultyMode::RegulatedFintech => 1_000i64,
                DifficultyMode::InfraDevTool => 800i64,
            },
    {
        match self {
            DifficultyMode::IndieBootstrap => 500,
            DifficultyMode::VCTrack => 2_000,
            DifficultyMode::RegulatedFintech => 1_000,
            DifficultyMode::InfraDevTool => 800,
        }
    }

    /// Factor on growth: 0.8, 1.5, 1.0 and 1.0, in thousandths.
    pub fn growth_modifier(&self) -> (factor: i64)
        ensures
            factor == match *self {
                DifficultyMode::IndieBootstrap => 800i64,
                DifficultyMode::VCTrack => 1_500i64,
                DifficultyMode::RegulatedFintech => 1_000i64,
                DifficultyMode::InfraDevTool => 1_000i64,
            },
    {
        match self {
            DifficultyMode::IndieBootstrap => 800,
            DifficultyMode::VCTrack => 1_500,
            DifficultyMode::RegulatedFintech => 1_000,
            DifficultyMode::InfraDevTool => 1_000,
        }
    }

    /// Weight of compliance: 0.3, 0.5, 2.0 and 0.7, in thousandths.
    pub fn compliance_burden(&self) -> (factor: i64)
        ensures
            factor == match *self {
                DifficultyMode::IndieBootstrap => 300i64,
                DifficultyMode::VCTrack => 500i64,
                DifficultyMode::RegulatedFintech => 2_000i64,
                DifficultyMode::InfraDevTool => 700i64,
            },
    {
        match self {
            DifficultyMode::IndieBootstrap => 300,
            DifficultyMode::VCTrack => 500,
            DifficultyMode::RegulatedFintech => 2_000,
            DifficultyMode::InfraDevTool => 700,
        }
    }
}

/// Months of operation left at the current bank and burn.
#[derive(Debug, Clone, Copy, PartialEq, Eq, Structural)]
pub enum Runway {
    /// `bank / burn`, in thousandths of a month.
    Months(i64),
    /// Nothing is being burnt.
    Unlimited,
}

impl Runway {
    /// Whether the runway is shorter than `months` (thousandths).
    pub open spec fn is_below(self, months: i64) -> bool {
        match self {
            Runway::Months(m) => m < months,
            Runway::Unlimited => false,
        }
    }

    /// Whether the runway is longer than `months` (thousandths).
    pub open spec fn is_above(self, months: i64) -> bool {
        match self {
            Runway::Months(m) => m > months,
            Runway::Unlimited => true,
        }
    }

    /// Whether no time is left.
    pub open spec fn is_spent(self) -> bool {
        match self {
            Runway::Months(m) => m <= 0,
            Runway::Unlimited => false,
        }
    }

    /// Whether the runway is shorter than `months`; never, when unlimited.
    pub fn below(&self, months: i64) -> (r: bool)
        ensures
            r == self.is_below(months),
    {
        match self {
            Runway::Months(m) => *m < months,
            Runway::Unlimited => false,
        }
    }

    /// Whether the runway is longer than `months`; always, when unlimited.
    pub fn above(&self, months: i64) -> (r: bool)
        ensures
            r == self.is_above(months),
    {
        match self {
            Runway::Months(m) => *m > months,
            Runway::Unlimited => true,
        }
    }

    /// Whether no time is left.
    pub fn spent(&self) -> (r: bool)
        ensures
            r == self.is_spent(),
    {
        match self {
            Runway::Months(m) => *m <= 0,
            Runway::Unlimited => false,
        }
    }
}

/// The state of the company at the end of one week.
#[derive(Debug, Clone, Copy, PartialEq, Eq, Structural)]
pub struct WeekSnapshot {
    pub week: u32,
    pub bank: i64,
    pub mrr: i64,
    pub burn: i64,
    pub wau: u32,
    pub morale: i64,
    pub reputation: i64,
    pub momentum: i64,
}

/// Progress toward escape velocity: four gates and the number of
/// consecutive weeks in which all four held.
#[derive(Debug, Clone, Copy, PartialEq, Eq, Structural)]
pub struct EscapeVelocityProgress {
    pub revenue_covers_burn: bool,
    pub growth_sustained: bool,
    pub customer_love: bool,
    pub founder_healthy: bool,
    pub streak_weeks: u8,
}

impl EscapeVelocityProgress {
    /// Whether all four gates hold.
    pub open spec fn all_met(self) -> bool {
        self.revenue_covers_burn && self.growth_sustained && self.customer_love
            && self.founder_healthy
    }

    /// No gate holds and the streak is zero.
    pub fn new() -> (progress: Self)
        ensures
            progress == (EscapeVelocityProgress {
                revenue_covers_burn: false,
                growth_sustained: false,
                customer_love: false,
                founder_healthy: false,
                streak_weeks: 0,
            }),
    {
        Self {
            revenue_covers_burn: false,
            growth_sustained: false,
            customer_love: false,
            founder_healthy: false,
            streak_weeks: 0,
        }
    }

    /// Whether all four gates hold.
    pub fn all_conditions_met(&self) -> (met: bool)
        ensures
            met == self.all_met(),
    {
        self.revenue_covers_burn && self.growth_sustained && self.customer_love
            && self.founder_healthy
    }
}

impl Default for EscapeVelocityProgress {
    fn default() -> (progress: Self)
        ensures
            progress == (EscapeVelocityProgress {
                revenue_covers_burn: false,
                growth_sustained: false,
                customer_love: false,
                founder_healthy: false,
                streak_weeks: 0,
            }),
    {
        Self::new()
    }
}

/// Team composition.
#[derive(Debug, Clone, Copy, PartialEq, Eq, Structural)]
pub struct TeamComposition {
    pub engineers: u8,
    pub sales: u8,
    pub other: u8,
}

/// Customer counts by segment.
#[derive(Debug, Clone, Copy, PartialEq, Eq, Structural)]
pub struct CustomerBreakdown {
    pub enterprise: u32,
    pub smb: u32,
    pub self_serve: u32,
}

/// Key of the enterprise customers in the counts by segment.
pub const ENTERPRISE_KEY: u64 = 0;

/// Key of the small and medium businesses in the counts by segment.
pub const SMB_KEY: u64 = 1;

/// Key of the self-serve customers in the counts by segment.
pub const SELF_SERVE_KEY: u64 = 2;

/// Customers that the counts by segment hold under a key; zero without an
/// entry.
pub open spec fn counted(segments: Map<u64, u32>, key: u64) -> u32 {
    if segments.contains_key(key) {
        segments[key]
    } else {
        0
    }
}

/// The counts by segment of a new game: the first hundred users are
/// self-serve.
pub open spec fn starting_segments() -> Map<u64, u32> {
    Map::<u64, u32>::empty().insert(ENTERPRISE_KEY, 0).insert(SMB_KEY, 0).insert(SELF_SERVE_KEY, 100)
}

/// The counts by segment as a breakdown.
pub open spec fn breakdown_of(segments: Map<u64, u32>) -> CustomerBreakdown {
    CustomerBreakdown {
        enterprise: counted(segments, ENTERPRISE_KEY),
        smb: counted(segments, SMB_KEY),
        self_serve: counted(segments, SELF_SERVE_KEY),
    }
}

/// The customers under one key of the counts by segment.
fn count_under(segments: &HashMap<u64, u32>, key: u64) -> (count: u32)
    ensures
        count == counted(segments@, key),
{
    match segments.get(&key) {
        Some(count) => *count,
        None => 0,
    }
}

/// The whole state of a game.
#[derive(Debug, Clone)]
pub struct GameState {
    pub game_id: String,
    pub week: u32,
    pub difficulty: DifficultyMode,
    /// Unix time at which the game was started.
    pub started_at: i64,
    /// Cash, in thousandths of a dollar.
    pub bank: i64,
    /// Monthly burn.
    pub burn: i64,
    /// Derived: `bank / burn`.
    pub runway_months: Runway,
    /// Focus slots available each week.
    pub focus_slots: u8,
    /// Monthly recurring revenue.
    pub mrr: i64,
    /// Weekly active users.
    pub wau: u32,
    /// Week-over-week growth of `wau`, in percent.
    pub wau_growth_rate: i64,
    /// Monthly churn in percent, `[0, 100]`.
    pub churn_rate: i64,
    /// Founder morale, `[0, 100]`.
    pub morale: i64,
    /// Reputation, `[0, 100]`.
    pub reputation: i64,
    /// Net promoter score, `[-100, 100]`.
    pub nps: i64,
    /// Technical debt, `[0, 100]`.
    pub tech_debt: i64,
    /// Regulatory risk, `[0, 100]`.
    pub compliance_risk: i64,
    /// Shipping speed multiplier, `[0.1, 3.0]`.
    pub velocity: i64,
    /// Founder equity in percent.
    pub founder_equity: i64,
    /// Employee option pool in percent.
    pub option_pool: i64,
    /// Derived: growth factor times velocity times morale.
    pub momentum: i64,
    pub escape_velocity_progress: EscapeVelocityProgress,
    /// The last [`HISTORY_WEEKS`] weekly snapshots, oldest first.
    pub history: Vec<WeekSnapshot>,
    /// The kinds of action that may be submitted.
    pub unlocked_actions: Vec<ActionType>,
    pub active_market_conditions: Vec<MarketCondition>,
    pub specialization_path: Option<SpecializationPath>,
    /// The actions of the last [`ACTION_LOG_WEEKS`] weeks, oldest first.
    pub action_history: Vec<(u32, Vec<Action>)>,
    pub event_cooldowns: Cooldowns,
    pub seasonal_challenge: Option<SeasonalChallenge>,
    pub team_size: u8,
    pub incident_count: u32,
    pub last_break_week: u32,
    pub consecutive_ship_weeks: u8,
    pub customer_segments: HashMap<u64, u32>,
    pub customers: Vec<Customer>,
    pub competitors: Vec<Competitor>,
}

/// `uuid::Uuid::new_v4`, rendered as text: a fresh random identifier.
/// Nothing is claimed about it. The call needs random bytes from the
/// operating system.
#[verifier::external_body]
fn fresh_game_id() -> (id: String) {
    uuid::Uuid::new_v4().to_string()
}

/// `chrono::Utc::now`, as seconds since the start of 1970. Nothing is
/// claimed about it. The call needs a system clock that is not set before
/// 1970.
#[verifier::external_body]
fn unix_time_now() -> (seconds: i64) {
    chrono::Utc::now().timestamp()
}

/// The history after `snapshot` is appended: the oldest entry is dropped once
/// there are more than [`HISTORY_WEEKS`].
pub open spec fn with_snapshot(
    history: Seq<WeekSnapshot>,
    snapshot: WeekSnapshot,
) -> Seq<WeekSnapshot> {
    let longer = history.push(snapshot);
    if longer.len() > HISTORY_WEEKS {
        longer.remove(0)
    } else {
        longer
    }
}

/// Length of a history of the given length, within the bound, after one
/// more snapshot: one more, and never more than [`HISTORY_WEEKS`].
pub open spec fn history_length_after(len: nat) -> nat {
    if len < HISTORY_WEEKS {
        len + 1
    } else {
        HISTORY_WEEKS as nat
    }
}

/// The history after each of `snapshots` is appended in turn.
pub open spec fn with_snapshots(
    history: Seq<WeekSnapshot>,
    snapshots: Seq<WeekSnapshot>,
) -> Seq<WeekSnapshot>
    decreases snapshots.len(),
{
    if snapshots.len() == 0 {
        history
    } else {
        with_snapshot(with_snapshots(history, snapshots.drop_last()), snapshots.last())
    }
}

/// However many weeks are appended to a history within the bound, it stays
/// within the bound: it holds one entry more for each week until it is
/// full, and it always ends with the week appended last.
pub proof fn lemma_history_stays_bounded(history: Seq<WeekSnapshot>, snapshots: Seq<WeekSnapshot>)
    requires
        history.len() <= HISTORY_WEEKS,
    ensures
        with_snapshots(history, snapshots).len() <= HISTORY_WEEKS,
        with_snapshots(history, snapshots).len() == if history.len() + snapshots.len()
            <= HISTORY_WEEKS {
            history.len() + snapshots.len()
        } else {
            HISTORY_WEEKS as nat
        },
        snapshots.len() > 0 ==> with_snapshots(history, snapshots).last() == snapshots.last(),
    decreases snapshots.len(),
{
    if snapshots.len() > 0 {
        lemma_history_stays_bounded(history, snapshots.drop_last());
    }
}

impl GameState {
    /// The stats after `n` more weeks have been advanced with nothing else
    /// done in between.
    pub open spec fn weeks_on(self, n: nat) -> GameState
        decreases n,
    {
        if n == 0 {
            self
        } else {
            self.weeks_on((n - 1) as nat).week_advanced()
        }
    }

    /// The history after `n` more weeks have been advanced.
    pub open spec fn history_weeks_on(self, n: nat) -> Seq<WeekSnapshot>
        decreases n,
    {
        if n == 0 {
            self.history@
        } else {
            with_snapshot(self.history_weeks_on((n - 1) as nat), self.weeks_on(n).snapshot())
        }
    }
}

/// However many weeks are advanced, a history within the bound stays within
/// the bound, and its last entry is the snapshot of the week advanced last.
pub proof fn lemma_history_bound_over_weeks(state: GameState, n: nat)
    requires
        state.history@.len() <= HISTORY_WEEKS,
    ensures
        state.history_weeks_on(n).len() <= HISTORY_WEEKS,
        n > 0 ==> state.history_weeks_on(n).last() == state.weeks_on(n).snapshot(),
        n > 0 ==> state.history_weeks_on(n).last().week == state.weeks_on(n).week,
    decreases n,
{
    if n > 0 {
        lemma_history_bound_over_weeks(state, (n - 1) as nat);
    }
}

/// The action log brought back to [`ACTION_LOG_WEEKS`] entries by dropping
/// the oldest one.
pub open spec fn trimmed_log<T>(log: Seq<T>) -> Seq<T> {
    if log.len() > ACTION_LOG_WEEKS {
        log.remove(0)
    } else {
        log
    }
}

impl GameState {
    /// The snapshot that describes the state.
    pub open spec fn snapshot(self) -> WeekSnapshot {
        WeekSnapshot {
            week: self.week,
            bank: self.bank,
            mrr: self.mrr,
            burn: self.burn,
            wau: self.wau,
            morale: self.morale,
            reputation: self.reputation,
            momentum: self.momentum,
        }
    }

    /// Runway at the given bank and burn: unlimited when nothing is burnt.
    pub open spec fn runway_of(bank: i64, burn: i64) -> Runway {
        if burn > 0 {
            Runway::Months(scaled(bank as int, 1_000, burn as int))
        } else {
            Runway::Unlimited
        }
    }

    /// Momentum: `(1 + growth / 100) * velocity * morale / 100`.
    pub open spec fn momentum_of(growth: i64, velocity: i64, morale: i64) -> i64 {
        scaled(
            scaled(capped(HUNDRED + growth) as int, velocity as int, HUNDRED as int) as int,
            morale as int,
            HUNDRED as int,
        )
    }

    /// Whether every bounded stat is within its range.
    pub open spec fn stats_in_range(self) -> bool {
        &&& 0 <= self.morale <= HUNDRED
        &&& 0 <= self.reputation <= HUNDRED
        &&& 0 <= self.tech_debt <= HUNDRED
        &&& 0 <= self.compliance_risk <= HUNDRED
        &&& 0 <= self.churn_rate <= HUNDRED
        &&& NPS_MIN <= self.nps <= HUNDRED
        &&& VELOCITY_MIN <= self.velocity <= VELOCITY_MAX
    }

    /// Whether the state is one that a game can be in between two turns:
    /// every bounded stat is within its range, the runway is the one that bank
    /// and burn give, and the history and the action log are within their
    /// bounds.
    pub open spec fn is_consistent(self) -> bool {
        &&& self.stats_in_range()
        &&& self.runway_months == Self::runway_of(self.bank, self.burn)
        &&& self.history@.len() <= HISTORY_WEEKS
        &&& self.action_history@.len() <= ACTION_LOG_WEEKS
    }

    /// The state with runway and momentum recomputed and every bounded stat
    /// brought into its range. Momentum is taken from the stats as they were
    /// before they were bounded.
    pub open spec fn derived(self) -> GameState {
        GameState {
            runway_months: Self::runway_of(self.bank, self.burn),
            momentum: Self::momentum_of(self.wau_growth_rate, self.velocity, self.morale),
            morale: bounded(self.morale as int, 0, HUNDRED),
            reputation: bounded(self.reputation as int, 0, HUNDRED),
            nps: bounded(self.nps as int, NPS_MIN, HUNDRED),
            tech_debt: bounded(self.tech_debt as int, 0, HUNDRED),
            compliance_risk: bounded(self.compliance_risk as int, 0, HUNDRED),
            velocity: bounded(self.velocity as int, VELOCITY_MIN, VELOCITY_MAX),
            churn_rate: bounded(self.churn_rate as int, 0, HUNDRED),
            ..self
        }
    }

    /// The week counter after one more week.
    pub open spec fn next_week(week: u32) -> u32 {
        if week < u32::MAX {
            (week + 1) as u32
        } else {
            week
        }
    }

    /// Growth in percent between two head counts; `fallback` when the first
    /// is zero.
    pub open spec fn growth_between(before: u32, after: u32, fallback: i64) -> i64 {
        if before > 0 {
            scaled(after - before, HUNDRED as int, before as int)
        } else {
            fallback
        }
    }

    /// The stats after the passive economics of one week, before they are
    /// re-derived: a quarter of the monthly burn leaves the bank and a quarter
    /// of the monthly revenue enters it, the users grow by the growth rate,
    /// the growth rate becomes the growth that took place, morale decays by
    /// 0.5 and tech debt creeps up by 0.5 when velocity is above 1.2.
    pub open spec fn week_passed(self) -> GameState {
        let wau = grown(self.wau, self.wau_growth_rate as int);
        GameState {
            week: Self::next_week(self.week),
            bank: capped(
                capped(self.bank - scaled(self.burn as int, 1, 4)) + scaled(self.mrr as int, 1, 4),
            ),
            wau,
            wau_growth_rate: Self::growth_between(self.wau, wau, self.wau_growth_rate),
            morale: capped(self.morale - 500),
            tech_debt: if self.velocity > 1_200 {
                capped(self.tech_debt + 500)
            } else {
                self.tech_debt
            },
            ..self
        }
    }

    /// The scalar part of the state after [`GameState::advance_week`]; the
    /// two logs are described by its contract.
    pub open spec fn week_advanced(self) -> GameState {
        self.week_passed().derived()
    }

    /// The set of unlocked action kinds.
    pub open spec fn unlocked(self) -> Set<ActionType> {
        self.unlocked_actions@.to_set()
    }

    /// A new game: the starting bank and burn of the difficulty, three focus
    /// slots, 100 users, morale 80, reputation 50, tech debt 10, the five core
    /// actions unlocked, and one snapshot of week 0 in the history.
    pub open spec fn is_fresh(self, difficulty: DifficultyMode) -> bool {
        &&& self.week == 0
        &&& self.difficulty == difficulty
        &&& self.bank == difficulty.bank_at_start()
        &&& self.burn == difficulty.burn_at_start()
        &&& self.runway_months == Self::runway_of(self.bank, self.burn)
        &&& self.focus_slots == 3
        &&& self.mrr == 0
        &&& self.wau == 100
        &&& self.wau_growth_rate == 0
        &&& self.churn_rate == 5_000
        &&& self.morale == 80_000
        &&& self.reputation == 50_000
        &&& self.nps == 0
        &&& self.tech_debt == 10_000
        &&& self.compliance_risk == 20_000
        &&& self.velocity == 1_000
        &&& self.founder_equity == HUNDRED
        &&& self.option_pool == 0
        &&& self.momentum == 800
        &&& self.escape_velocity_progress == (EscapeVelocityProgress {
            revenue_covers_burn: false,
            growth_sustained: false,
            customer_love: false,
            founder_healthy: false,
            streak_weeks: 0,
        })
        &&& self.history@ == seq![self.snapshot()]
        &&& self.unlocked_actions@ == seq![
            ActionType::ShipFeature,
            ActionType::FounderLedSales,
            ActionType::Hire,
            ActionType::Fundraise,
            ActionType::TakeBreak,
        ]
        &&& self.active_market_conditions@.len() == 0
        &&& self.specialization_path.is_none()
        &&& self.action_history@.len() == 0
        &&& self.event_cooldowns.weeks@ == Map::<u64, u32>::empty()
        &&& self.seasonal_challenge.is_none()
        &&& self.team_size == 1
        &&& self.incident_count == 0
        &&& self.last_break_week == 0
        &&& self.consecutive_ship_weeks == 0
        &&& self.customer_segments@ == starting_segments()
        &&& self.customers@.len() == 0
        &&& self.competitors@.len() == 0
    }

    /// Starts a game at the given difficulty, under a fresh random identifier
    /// and with the current time as its start. Everything else is as
    /// [`GameState::is_fresh`] says.
    pub fn new(difficulty: DifficultyMode) -> (state: GameState)
        ensures
            state.is_fresh(difficulty),
            state.is_consistent(),
    {
        Self::with_identity(difficulty, fresh_game_id(), unix_time_now())
    }

    /// Starts a game at the given difficulty, under the identifier and the
    /// start time (Unix seconds) that the caller has chosen for it.
    pub fn with_identity(
        difficulty: DifficultyMode,
        game_id: String,
        started_at: i64,
    ) -> (state: GameState)
        ensures
            state.is_fresh(difficulty),
            state.game_id == game_id,
            state.started_at == started_at,
            state.is_consistent(),
    {
        let bank = difficulty.starting_bank();
        let burn = difficulty.starting_burn();
        let mut customer_segments: HashMap<u64, u32> = HashMap::new();
        customer_segments.insert(ENTERPRISE_KEY, 0);
        customer_segments.insert(SMB_KEY, 0);
        customer_segments.insert(SELF_SERVE_KEY, 100);
        let mut state = GameState {
            game_id,
            week: 0,
            difficulty,
            started_at,
            bank,
            burn,
            runway_months: Runway::Unlimited,
            focus_slots: 3,
            mrr: 0,
            wau: 100,
            wau_growth_rate: 0,
            churn_rate: 5_000,
            morale: 80_000,
            reputation: 50_000,
            nps: 0,
            tech_debt: 10_000,
            compliance_risk: 20_000,
            velocity: 1_000,
            founder_equity: HUNDRED,
            option_pool: 0,
            momentum: 0,
            escape_velocity_progress: EscapeVelocityProgress::new(),
            history: Vec::new(),
            unlocked_actions: vec![
                ActionType::ShipFeature,
                ActionType::FounderLedSales,
                ActionType::Hire,
                ActionType::Fundraise,
                ActionType::TakeBreak,
            ],
            active_market_conditions: Vec::new(),
            specialization_path: None,
            action_history: Vec::new(),
            event_cooldowns: Cooldowns::new(),
            seasonal_challenge: None,
            team_size: 1,
            incident_count: 0,
            last_break_week: 0,
            consecutive_ship_weeks: 0,
            customer_segments,
            customers: Vec::new(),
            competitors: Vec::new(),
        };
        state.update_derived_metrics();
        state.save_snapshot();
        state
    }

    /// Recomputes runway and momentum and brings every bounded stat into its
    /// range.
    pub fn update_derived_metrics(&mut self)
        ensures
            *final(self) == old(self).derived(),
            final(self).stats_in_range(),
            final(self).runway_months == Self::runway_of(final(self).bank, final(self).burn),
            old(self).differs_in_stats_only(*final(self)),
    {
        if self.burn > 0 {
            self.runway_months = Runway::Months(scale(self.bank, 1_000, self.burn));
        } else {
            self.runway_months = Runway::Unlimited;
        }
        let pace = scale(sum(HUNDRED, self.wau_growth_rate), self.velocity, HUNDRED);
        self.momentum = scale(pace, self.morale, HUNDRED);
        self.morale = clamp(self.morale, 0, HUNDRED);
        self.reputation = clamp(self.reputation, 0, HUNDRED);
        self.nps = clamp(self.nps, NPS_MIN, HUNDRED);
        self.tech_debt = clamp(self.tech_debt, 0, HUNDRED);
        self.compliance_risk = clamp(self.compliance_risk, 0, HUNDRED);
        self.velocity = clamp(self.velocity, VELOCITY_MIN, VELOCITY_MAX);
        self.churn_rate = clamp(self.churn_rate, 0, HUNDRED);
    }

    /// Appends a snapshot of the state to the history and drops the oldest
    /// entry when more than [`HISTORY_WEEKS`] are held.
    pub fn save_snapshot(&mut self)
        ensures
            final(self).history@ == with_snapshot(old(self).history@, old(self).snapshot()),
            *final(self) == (GameState { history: final(self).history, ..*old(self) }),
            old(self).history@.len() <= HISTORY_WEEKS ==> final(self).history@.len()
                == history_length_after(old(self).history@.len()),
            final(self).history@.len() > 0,
            final(self).history@.last() == old(self).snapshot(),
    {
        let snapshot = WeekSnapshot {
            week: self.week,
            bank: self.bank,
            mrr: self.mrr,
            burn: self.burn,
            wau: self.wau,
            morale: self.morale,
            reputation: self.reputation,
            momentum: self.momentum,
        };
        self.history.push(snapshot);
        if self.history.len() > HISTORY_WEEKS {
            self.history.remove(0);
        }
    }

    /// Advances to the next week: applies the passive economics of
    /// [`GameState::week_passed`], re-derives and bounds the stats, trims the
    /// action log to [`ACTION_LOG_WEEKS`] weeks and appends a snapshot.
    pub fn advance_week(&mut self)
        ensures
            final(self).history@ == with_snapshot(
                old(self).history@,
                old(self).week_advanced().snapshot(),
            ),
            final(self).action_history@ == trimmed_log(old(self).action_history@),
            *final(self) == (GameState {
                history: final(self).history,
                action_history: final(self).action_history,
                ..old(self).week_advanced()
            }),
            final(self).stats_in_range(),
            final(self).runway_months == Self::runway_of(final(self).bank, final(self).burn),
            old(self).history@.len() <= HISTORY_WEEKS ==> final(self).history@.len()
                == history_length_after(old(self).history@.len()),
            final(self).week == Self::next_week(old(self).week),
            final(self).history@.len() > 0,
            final(self).history@.last().week == final(self).week,
            old(self).action_history@.len() <= ACTION_LOG_WEEKS + 1
                ==> final(self).action_history@.len() <= ACTION_LOG_WEEKS,
    {
        if self.week < u32::MAX {
            self.week = self.week + 1;
        }
        let weekly_burn = scale(self.burn, 1, 4);
        self.bank = diff(self.bank, weekly_burn);
        let weekly_revenue = scale(self.mrr, 1, 4);
        self.bank = sum(self.bank, weekly_revenue);
        let previous_wau = self.wau;
        self.wau = grow(self.wau, self.wau_growth_rate);
        if previous_wau > 0 {
            self.wau_growth_rate = scale(
                self.wau as i64 - previous_wau as i64,
                HUNDRED,
                previous_wau as i64,
            );
        }
        self.morale = diff(self.morale, 500);
        if self.velocity > 1_200 {
            self.tech_debt = sum(self.tech_debt, 500);
        }
        if self.action_history.len() > ACTION_LOG_WEEKS {
            self.action_history.remove(0);
        }
        self.update_derived_metrics();
        self.save_snapshot();
    }

    /// Whether the state is one that a game can be in between two turns.
    pub fn check_consistency(&self) -> (ok: bool)
        ensures
            ok == self.is_consistent(),
    {
        let runway = if self.burn > 0 {
            Runway::Months(scale(self.bank, 1_000, self.burn))
        } else {
            Runway::Unlimited
        };
        0 <= self.morale && self.morale <= HUNDRED && 0 <= self.reputation && self.reputation
            <= HUNDRED && 0 <= self.tech_debt && self.tech_debt <= HUNDRED && 0
            <= self.compliance_risk && self.compliance_risk <= HUNDRED && 0 <= self.churn_rate
            && self.churn_rate <= HUNDRED && NPS_MIN <= self.nps && self.nps <= HUNDRED
            && VELOCITY_MIN <= self.velocity && self.velocity <= VELOCITY_MAX && self.runway_months
            == runway && self.history.len() <= HISTORY_WEEKS && self.action_history.len()
            <= ACTION_LOG_WEEKS
    }

    /// Whether the game has ended, by defeat (no money or runway, no morale,
    /// reputation at 10 or below) or by victory.
    pub fn is_game_over(&self) -> (over: bool)
        ensures
            over == (self.runway_months.is_spent() || self.bank <= 0 || self.morale <= 0
                || self.reputation <= 10_000 || self.escape_velocity_progress.streak_weeks
                >= VICTORY_STREAK),
    {
        if self.runway_months.spent() || self.bank <= 0 {
            return true;
        }
        if self.morale <= 0 {
            return true;
        }
        if self.reputation <= 10_000 {
            return true;
        }
        self.escape_velocity_progress.streak_weeks >= VICTORY_STREAK
    }

    /// Whether all four gates have held for [`VICTORY_STREAK`] weeks.
    pub fn has_won(&self) -> (won: bool)
        ensures
            won == (self.escape_velocity_progress.streak_weeks >= VICTORY_STREAK),
    {
        self.escape_velocity_progress.streak_weeks >= VICTORY_STREAK
    }

    /// Whether actions of the given kind may be submitted.
    pub fn is_kind_unlocked(&self, kind: ActionType) -> (yes: bool)
        ensures
            yes == self.unlocked().contains(kind),
    {
        let mut i: usize = 0;
        while i < self.unlocked_actions.len()
            invariant
                i <= self.unlocked_actions.len(),
                forall|j: int| 0 <= j < i ==> self.unlocked_actions@[j] != kind,
            decreases self.unlocked_actions.len() - i,
        {
            if self.unlocked_actions[i] == kind {
                assert(self.unlocked_actions@.contains(kind));
                return true;
            }
            i = i + 1;
        }
        assert(!self.unlocked_actions@.contains(kind));
        false
    }

    /// Whether the action's kind is unlocked.
    pub fn is_action_unlocked(&self, action: &Action) -> (yes: bool)
        ensures
            yes == self.unlocked().contains(action.kind()),
    {
        self.is_kind_unlocked(crate::synergies::get_action_type(action))
    }

    /// Engineers, sales people and others, assuming that half the team (and
    /// at least one) are engineers and a quarter are in sales.
    pub fn get_team_composition(&self) -> (team: TeamComposition)
        ensures
            team.engineers == if self.team_size / 2 >= 1 {
                self.team_size / 2
            } else {
                1
            },
            team.sales == self.team_size / 4,
            team.other == if self.team_size >= team.engineers + team.sales {
                self.team_size - team.engineers - team.sales
            } else {
                0
            },
    {
        let engineers: u8 = if self.team_size / 2 >= 1 {
            self.team_size / 2
        } else {
            1
        };
        let sales: u8 = self.team_size / 4;
        let other: u8 = if self.team_size >= engineers + sales {
            self.team_size - engineers - sales
        } else {
            0
        };
        TeamComposition { engineers, sales, other }
    }

    /// Customer counts by segment.
    pub fn get_customer_breakdown(&self) -> (breakdown: CustomerBreakdown)
        ensures
            breakdown == breakdown_of(self.customer_segments@),
    {
        CustomerBreakdown {
            enterprise: count_under(&self.customer_segments, ENTERPRISE_KEY),
            smb: count_under(&self.customer_segments, SMB_KEY),
            self_serve: count_under(&self.customer_segments, SELF_SERVE_KEY),
        }
    }
}

/// Fewest focus slots that a change to the focus may leave.
pub const FOCUS_MIN: i64 = 2;

impl GameState {
    /// The value of a stat in thousandths; zero for the three stats that
    /// stand for an occurrence and hold no value.
    pub open spec fn stat(self, stat: Stat) -> i64 {
        match stat {
            Stat::Morale => self.morale,
            Stat::Reputation => self.reputation,
            Stat::TechDebt => self.tech_debt,
            Stat::Velocity => self.velocity,
            Stat::Wau => (self.wau * SCALE) as i64,
            Stat::WauGrowth => self.wau_growth_rate,
            Stat::Mrr => self.mrr,
            Stat::Burn => self.burn,
            Stat::Bank => self.bank,
            Stat::FounderEquity => self.founder_equity,
            Stat::ChurnRate => self.churn_rate,
            Stat::Focus => (self.focus_slots * SCALE) as i64,
            Stat::ComplianceRisk => self.compliance_risk,
            Stat::Nps => self.nps,
            Stat::GameEnd => 0,
            Stat::BurnoutRisk => 0,
            Stat::MoraleDecay => 0,
        }
    }

    /// Focus slots after a change: whole slots are added, and at least
    /// [`FOCUS_MIN`] and at most 255 remain.
    pub open spec fn focus_after(slots: u8, amount: i64) -> u8 {
        bounded(slots + trunc_div(amount as int, SCALE as int), FOCUS_MIN, 255) as u8
    }

    /// Whether `other` has the week, the history, the cooldowns, the market
    /// conditions, the unlocked actions and the progress of this state.
    pub open spec fn keeps_calendar(self, other: GameState) -> bool {
        &&& other.week == self.week
        &&& other.history == self.history
        &&& other.event_cooldowns == self.event_cooldowns
        &&& other.active_market_conditions == self.active_market_conditions
        &&& other.unlocked_actions == self.unlocked_actions
        &&& other.escape_velocity_progress == self.escape_velocity_progress
    }

    /// Whether `other` differs from this state in the values of stats and in
    /// the metrics derived from them only: the week, the progress and every
    /// log and record are the same.
    pub open spec fn differs_in_stats_only(self, other: GameState) -> bool {
        other == (GameState {
            bank: other.bank,
            burn: other.burn,
            runway_months: other.runway_months,
            momentum: other.momentum,
            focus_slots: other.focus_slots,
            mrr: other.mrr,
            wau: other.wau,
            wau_growth_rate: other.wau_growth_rate,
            churn_rate: other.churn_rate,
            morale: other.morale,
            reputation: other.reputation,
            nps: other.nps,
            tech_debt: other.tech_debt,
            compliance_risk: other.compliance_risk,
            velocity: other.velocity,
            founder_equity: other.founder_equity,
            ..self
        })
    }

    /// The state after `amount` is added to a stat. Sums are capped, users
    /// and focus slots stay whole numbers, and the three stats that stand for
    /// an occurrence leave the state as it is.
    pub open spec fn raised(self, stat: Stat, amount: i64) -> GameState {
        match stat {
            Stat::Morale => GameState { morale: capped(self.morale + amount), ..self },
            Stat::Reputation => GameState { reputation: capped(self.reputation + amount), ..self },
            Stat::TechDebt => GameState { tech_debt: capped(self.tech_debt + amount), ..self },
            Stat::Velocity => GameState { velocity: capped(self.velocity + amount), ..self },
            Stat::Wau => GameState { wau: shifted(self.wau, amount as int), ..self },
            Stat::WauGrowth => GameState {
                wau_growth_rate: capped(self.wau_growth_rate + amount),
                ..self
            },
            Stat::Mrr => GameState { mrr: capped(self.mrr + amount), ..self },
            Stat::Burn => GameState { burn: capped(self.burn + amount), ..self },
            Stat::Bank => GameState { bank: capped(self.bank + amount), ..self },
            Stat::FounderEquity => GameState {
                founder_equity: capped(self.founder_equity + amount),
                ..self
            },
            Stat::ChurnRate => GameState { churn_rate: capped(self.churn_rate + amount), ..self },
            Stat::Focus => GameState {
                focus_slots: Self::focus_after(self.focus_slots, amount),
                ..self
            },
            Stat::ComplianceRisk => GameState {
                compliance_risk: capped(self.compliance_risk + amount),
                ..self
            },
            Stat::Nps => GameState { nps: capped(self.nps + amount), ..self },
            Stat::GameEnd => self,
            Stat::BurnoutRisk => self,
            Stat::MoraleDecay => self,
        }
    }

    /// The state after a stat is multiplied by `factor` (thousandths), with
    /// the same rounding and limits as [`GameState::raised`].
    pub open spec fn multiplied(self, stat: Stat, factor: i64) -> GameState {
        match stat {
            Stat::Wau => GameState { wau: stretched(self.wau, factor as int), ..self },
            Stat::Focus => self,
            Stat::GameEnd => self,
            Stat::BurnoutRisk => self,
            Stat::MoraleDecay => self,
            _ => self.raised(
                stat,
                capped(scaled(self.stat(stat) as int, factor as int, SCALE as int) - self.stat(stat)),
            ),
        }
    }

    /// The value of a stat in thousandths.
    pub fn stat_value(&self, stat: Stat) -> (value: i64)
        ensures
            value == self.stat(stat),
    {
        match stat {
            Stat::Morale => self.morale,
            Stat::Reputation => self.reputation,
            Stat::TechDebt => self.tech_debt,
            Stat::Velocity => self.velocity,
            Stat::Wau => self.wau as i64 * 1_000,
            Stat::WauGrowth => self.wau_growth_rate,
            Stat::Mrr => self.mrr,
            Stat::Burn => self.burn,
            Stat::Bank => self.bank,
            Stat::FounderEquity => self.founder_equity,
            Stat::ChurnRate => self.churn_rate,
            Stat::Focus => self.focus_slots as i64 * 1_000,
            Stat::ComplianceRisk => self.compliance_risk,
            Stat::Nps => self.nps,
            Stat::GameEnd => 0,
            Stat::BurnoutRisk => 0,
            Stat::MoraleDecay => 0,
        }
    }

    /// Adds `amount` to a stat.
    pub fn raise_stat(&mut self, stat: Stat, amount: i64)
        ensures
            *final(self) == old(self).raised(stat, amount),
    {
        match stat {
            Stat::Morale => {
                self.morale = sum(self.morale, amount);
            },
            Stat::Reputation => {
                self.reputation = sum(self.reputation, amount);
            },
            Stat::TechDebt => {
                self.tech_debt = sum(self.tech_debt, amount);
            },
            Stat::Velocity => {
                self.velocity = sum(self.velocity, amount);
            },
            Stat::Wau => {
                self.wau = shift(self.wau, amount);
            },
            Stat::WauGrowth => {
                self.wau_growth_rate = sum(self.wau_growth_rate, amount);
            },
            Stat::Mrr => {
                self.mrr = sum(self.mrr, amount);
            },
            Stat::Burn => {
                self.burn = sum(self.burn, amount);
            },
            Stat::Bank => {
                self.bank = sum(self.bank, amount);
            },
            Stat::FounderEquity => {
                self.founder_equity = sum(self.founder_equity, amount);
            },
            Stat::ChurnRate => {
                self.churn_rate = sum(self.churn_rate, amount);
            },
            Stat::Focus => {
                let slots: i64 = crate::fixed::bound(
                    self.focus_slots as i128 + (amount / 1_000) as i128,
                    FOCUS_MIN,
                    255,
                );
                self.focus_slots = slots as u8;
            },
            Stat::ComplianceRisk => {
                self.compliance_risk = sum(self.compliance_risk, amount);
            },
            Stat::Nps => {
                self.nps = sum(self.nps, amount);
            },
            Stat::GameEnd => {},
            Stat::BurnoutRisk => {},
            Stat::MoraleDecay => {},
        }
    }

    /// Multiplies a stat by `factor` (thousandths).
    pub fn multiply_stat(&mut self, stat: Stat, factor: i64)
        ensures
            *final(self) == old(self).multiplied(stat, factor),
    {
        match stat {
            Stat::Wau => {
                self.wau = stretch(self.wau, factor);
            },
            Stat::Focus => {},
            Stat::GameEnd => {},
            Stat::BurnoutRisk => {},
            Stat::MoraleDecay => {},
            _ => {
                let value = self.stat_value(stat);
                let target = scale(value, factor, 1_000);
                self.raise_stat(stat, diff(target, value));
            },
        }
    }
}

} // verus!
