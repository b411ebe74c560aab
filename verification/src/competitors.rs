//! Competitor records, reduced to what the simulation reads.
use crate::chance::GameRng;
use crate::chance::Trial;
use crate::fixed::bound;
use crate::fixed::bounded;
use crate::fixed::capped;
use crate::fixed::clamp;
use crate::fixed::scale;
use crate::fixed::scaled;
use crate::fixed::sum;
use crate::fixed::trunc_div;
use crate::fixed::CEILING;
use crate::fixed::HUNDRED;
use crate::state::DifficultyMode;
use vstd::prelude::*;

verus! {

#[derive(Debug, Clone, Copy, PartialEq, Eq, Structural)]
pub enum FundingStage {
    Bootstrapped,
    Seed,
    SeriesA,
    SeriesB,
    SeriesC,
    PublicCompany,
}

#[derive(Debug, Clone, Copy, PartialEq, Eq, Structural)]
pub enum PricingStrategy {
    Freemium,
    Undercut,
    Premium,
    Enterprise,
    OpenSource,
}

#[derive(Debug, Clone, Copy, PartialEq, Eq, Structural)]
pub enum CompetitorActionType {
    FeatureLaunch,
    PricingChange,
    FundingRound,
    Acquisition,
    ProductPivot,
    MarketingBlitz,
    TalentPoach,
    PartnershipAnnouncement,
}

/// Something a competitor did; `amount` is set for funding rounds and
/// acquisitions.
#[derive(Debug, Clone, Copy, PartialEq, Eq, Structural)]
pub struct CompetitorAction {
    pub week: u32,
    pub action_type: CompetitorActionType,
    pub amount: Option<i64>,
}

/// A competitor. `feature_parity` and `market_share` are percentages,
/// `aggressiveness` is in `[0, 1]`; all fractional values are in thousandths.
#[derive(Debug, Clone, PartialEq, Eq)]
pub struct Competitor {
    pub funding_stage: FundingStage,
    pub feature_parity: i64,
    pub pricing_strategy: PricingStrategy,
    pub market_share: i64,
    pub aggressiveness: i64,
    pub last_action_week: u32,
    pub action_history: Vec<CompetitorAction>,
    pub total_funding: i64,
    pub team_size: u32,
    pub is_acquired: bool,
}

/// Whether `i` is the position of a competitor that has not been acquired.
pub open spec fn is_active(competitors: Seq<Competitor>, i: int) -> bool {
    0 <= i < competitors.len() && !competitors[i].is_acquired
}

/// Whether any competitor is still in the market.
pub open spec fn any_active(competitors: Seq<Competitor>) -> bool {
    exists|i: int| is_active(competitors, i)
}

/// How threatening a competitor is: feature parity times market share times
/// aggressiveness.
pub open spec fn threat(c: Competitor) -> i64 {
    scaled(
        scaled(c.feature_parity as int, c.market_share as int, 1_000) as int,
        c.aggressiveness as int,
        1_000,
    )
}

/// How threatening a competitor is.
pub fn threat_level(competitor: &Competitor) -> (level: i64)
    ensures
        level == threat(*competitor),
{
    scale(
        scale(competitor.feature_parity, competitor.market_share, 1_000),
        competitor.aggressiveness,
        1_000,
    )
}

/// The positions of the competitors that have not been acquired, in order.
pub fn active_competitors(competitors: &Vec<Competitor>) -> (active: Vec<usize>)
    ensures
        forall|k: int| 0 <= k < active@.len() ==> is_active(competitors@, #[trigger] active@[k] as int),
        forall|i: int| is_active(competitors@, i) ==> active@.contains(i as usize),
        forall|j: int, k: int| 0 <= j < k < active@.len() ==> active@[j] < active@[k],
{
    let mut active: Vec<usize> = Vec::new();
    let mut i: usize = 0;
    while i < competitors.len()
        invariant
            i <= competitors.len(),
            forall|k: int|
                0 <= k < active@.len() ==> is_active(competitors@, #[trigger] active@[k] as int)
                    && active@[k] < i,
            forall|j: int| 0 <= j < i && is_active(competitors@, j) ==> active@.contains(j as usize),
            forall|j: int, k: int| 0 <= j < k < active@.len() ==> active@[j] < active@[k],
        decreases competitors.len() - i,
    {
        if !competitors[i].is_acquired {
            let ghost before = active@;
            active.push(i);
            assert(active@[active@.len() - 1] == i);
            assert forall|j: int| 0 <= j < i + 1 && is_active(competitors@, j) implies active@.contains(
                j as usize,
            ) by {
                if j < i {
                    let k = choose|k: int| 0 <= k < before.len() && before[k] == j as usize;
                    assert(active@[k] == j as usize);
                }
            }
        }
        i = i + 1;
    }
    active
}

/// A competitor drawn at random from those that have not been acquired;
/// `None` when there is none.
pub fn get_random_competitor(
    competitors: &Vec<Competitor>,
    rng: &mut GameRng,
) -> (pick: Option<usize>)
    ensures
        pick matches Some(i) ==> is_active(competitors@, i as int),
        pick.is_none() <==> !any_active(competitors@),
{
    let active = active_competitors(competitors);
    if active.len() == 0 {
        assert(!any_active(competitors@)) by {
            if any_active(competitors@) {
                let i = choose|i: int| is_active(competitors@, i);
                assert(active@.contains(i as usize));
            }
        }
        None
    } else {
        let k = rng.between(0, (active.len() - 1) as i64);
        let i = active[k as usize];
        assert(is_active(competitors@, i as int));
        Some(i)
    }
}

/// Whether `i` is the position of the competitor, among those not
/// acquired, whose threat is largest, and of the last such one among equals.
pub open spec fn is_most_threatening(competitors: Seq<Competitor>, i: int) -> bool {
    &&& is_active(competitors, i)
    &&& forall|j: int| is_active(competitors, j) ==> threat(competitors[j]) <= threat(competitors[i])
    &&& forall|j: int| is_active(competitors, j) && j > i ==> threat(competitors[j]) < threat(competitors[i])
}

/// The competitor, among those not acquired, whose threat is largest; among
/// equals the one that comes last. `None` when there is none.
pub fn get_most_threatening_competitor(competitors: &Vec<Competitor>) -> (pick: Option<usize>)
    ensures
        pick.is_none() <==> !any_active(competitors@),
        pick matches Some(i) ==> is_most_threatening(competitors@, i as int),
{
    let mut best: Option<usize> = None;
    let mut best_threat: i64 = 0;
    let mut i: usize = 0;
    while i < competitors.len()
        invariant
            i <= competitors.len(),
            best.is_none() ==> forall|j: int| 0 <= j < i ==> !is_active(competitors@, j),
            best matches Some(b) ==> {
                &&& b < i
                &&& is_active(competitors@, b as int)
                &&& best_threat == threat(competitors@[b as int])
                &&& forall|j: int|
                    0 <= j < i && is_active(competitors@, j) ==> threat(competitors@[j])
                        <= best_threat
                &&& forall|j: int|
                    b < j < i && is_active(competitors@, j) ==> threat(competitors@[j])
                        < best_threat
            },
        decreases competitors.len() - i,
    {
        if !competitors[i].is_acquired {
            let level = threat_level(&competitors[i]);
            let better = match best {
                Some(_) => level >= best_threat,
                None => true,
            };
            if better {
                best = Some(i);
                best_threat = level;
            }
        }
        i = i + 1;
    }
    proof {
        if best.is_none() {
            assert(!any_active(competitors@));
        } else {
            assert(is_active(competitors@, best.unwrap() as int));
        }
    }
    best
}

/// Whether the competitor has raised a funding round.
pub open spec fn has_raised(c: Competitor) -> bool {
    exists|i: int|
        0 <= i < c.action_history@.len() && (#[trigger] c.action_history@[i]).action_type
            == CompetitorActionType::FundingRound
}

/// Whether the competitor has raised a funding round.
pub fn has_funding_round(competitor: &Competitor) -> (raised: bool)
    ensures
        raised == has_raised(*competitor),
{
    let mut i: usize = 0;
    while i < competitor.action_history.len()
        invariant
            i <= competitor.action_history.len(),
            forall|j: int|
                0 <= j < i ==> (#[trigger] competitor.action_history@[j]).action_type
                    != CompetitorActionType::FundingRound,
        decreases competitor.action_history.len() - i,
    {
        match competitor.action_history[i].action_type {
            CompetitorActionType::FundingRound => {
                return true;
            },
            _ => {},
        }
        i = i + 1;
    }
    false
}

/// The larger of two values.
pub open spec fn at_least(x: i64, floor: i64) -> i64 {
    if x < floor {
        floor
    } else {
        x
    }
}

/// Shipping velocity of a competitor: a tenth for each team member plus a
/// ten-thousandth for each dollar of funding.
pub open spec fn velocity_of(c: Competitor) -> i64 {
    capped(c.team_size * 100 + scaled(c.total_funding as int, 1, 10_000))
}

/// How much faster than the player a competitor ships, never below a tenth;
/// the player's velocity counts as at least a tenth.
pub open spec fn velocity_ratio(c: Competitor, player_velocity: i64) -> i64 {
    at_least(scaled(velocity_of(c) as int, 1_000, at_least(player_velocity, 100) as int), 100)
}

/// Feature parity of a competitor after a week: it moves by five points for
/// each unit by which the competitor's velocity exceeds the player's, and
/// stays within `[0, 100]`.
pub open spec fn parity_after(c: Competitor, player_velocity: i64) -> i64 {
    bounded(
        c.feature_parity + scaled(
            capped(
                scaled(velocity_of(c) as int, 1_000, at_least(player_velocity, 100) as int) - 1_000,
            ) as int,
            5,
            1,
        ),
        0,
        HUNDRED,
    )
}

/// Market share of a competitor at a feature parity: a hundredth of parity
/// times aggressiveness, at least one percent.
pub open spec fn share_at(parity: i64, aggressiveness: i64) -> i64 {
    at_least(scaled(parity as int, aggressiveness as int, 100_000), 1_000)
}

/// Shipping velocity of a competitor.
pub fn competitor_velocity(competitor: &Competitor) -> (velocity: i64)
    ensures
        velocity == velocity_of(*competitor),
{
    sum(competitor.team_size as i64 * 100, scale(competitor.total_funding, 1, 10_000))
}

/// How much faster than the player a competitor ships.
pub fn get_shipping_velocity_ratio(competitor: &Competitor, player_velocity: i64) -> (ratio: i64)
    ensures
        ratio == velocity_ratio(*competitor, player_velocity),
        ratio >= 100,
{
    let player: i64 = if player_velocity < 100 {
        100
    } else {
        player_velocity
    };
    let ratio = scale(competitor_velocity(competitor), 1_000, player);
    if ratio < 100 {
        100
    } else {
        ratio
    }
}

/// Feature parity of a competitor after a week at the player's velocity.
pub fn calculate_feature_parity(competitor: &Competitor, player_velocity: i64) -> (parity: i64)
    ensures
        parity == parity_after(*competitor, player_velocity),
        0 <= parity <= HUNDRED,
{
    let player: i64 = if player_velocity < 100 {
        100
    } else {
        player_velocity
    };
    let ratio = scale(competitor_velocity(competitor), 1_000, player);
    let drift = scale(crate::fixed::diff(ratio, 1_000), 5, 1);
    bound(competitor.feature_parity as i128 + drift as i128, 0, HUNDRED)
}

/// Lets a week pass for a competitor: its feature parity follows its
/// velocity, and its market share follows its parity.
pub fn update_competitor_state(competitor: &mut Competitor, player_velocity: i64)
    ensures
        *final(competitor) == (Competitor {
            feature_parity: parity_after(*old(competitor), player_velocity),
            market_share: share_at(
                parity_after(*old(competitor), player_velocity),
                old(competitor).aggressiveness,
            ),
            ..*old(competitor)
        }),
{
    let parity = calculate_feature_parity(competitor, player_velocity);
    competitor.feature_parity = parity;
    let share = scale(parity, competitor.aggressiveness, 100_000);
    competitor.market_share = if share < 1_000 {
        1_000
    } else {
        share
    };
}

/// Team of a competitor with some funding: one member for every $150,000,
/// at least one and at most 500.
pub fn calculate_competitor_team_size(funding: i64) -> (size: u32)
    ensures
        size == bounded(trunc_div(funding as int, 150_000_000), 1, 500),
        1 <= size <= 500,
{
    clamp(funding / 150_000_000, 1, 500) as u32
}

/// Smallest and largest funding, in dollars, that a competitor at a stage
/// has raised.
pub open spec fn funding_range(stage: FundingStage) -> (i64, i64) {
    match stage {
        FundingStage::Bootstrapped => (0, 0),
        FundingStage::Seed => (500_000_000, 2_000_000_000),
        FundingStage::SeriesA => (5_000_000_000, 15_000_000_000),
        FundingStage::SeriesB => (20_000_000_000, 50_000_000_000),
        FundingStage::SeriesC => (50_000_000_000, 100_000_000_000),
        FundingStage::PublicCompany => (100_000_000_000, 500_000_000_000),
    }
}

/// Funding of a competitor at a stage, drawn from the stage's range.
pub fn funding_stage_to_amount(stage: &FundingStage, rng: &mut GameRng) -> (amount: i64)
    ensures
        funding_range(*stage).0 <= amount <= funding_range(*stage).1,
{
    match stage {
        FundingStage::Bootstrapped => 0,
        FundingStage::Seed => rng.between(500_000_000, 2_000_000_000),
        FundingStage::SeriesA => rng.between(5_000_000_000, 15_000_000_000),
        FundingStage::SeriesB => rng.between(20_000_000_000, 50_000_000_000),
        FundingStage::SeriesC => rng.between(50_000_000_000, 100_000_000_000),
        FundingStage::PublicCompany => rng.between(100_000_000_000, 500_000_000_000),
    }
}

/// Chance, per mille, that a competitor of an indie is bootstrapped.
pub const BOOTSTRAPPED_CHANCE: i64 = 700;

/// The funding stage of a competitor of an indie, for the trial that
/// decides it.
pub open spec fn indie_stage(held: Trial) -> FundingStage {
    if held.hit {
        FundingStage::Bootstrapped
    } else {
        FundingStage::Seed
    }
}

/// Whether competitors at a stage are met at a difficulty.
pub open spec fn stage_occurs(difficulty: DifficultyMode, stage: FundingStage) -> bool {
    match difficulty {
        DifficultyMode::IndieBootstrap => stage == FundingStage::Bootstrapped || stage
            == FundingStage::Seed,
        DifficultyMode::VCTrack | DifficultyMode::InfraDevTool => stage == FundingStage::Seed
            || stage == FundingStage::SeriesA || stage == FundingStage::SeriesB,
        DifficultyMode::RegulatedFintech => stage == FundingStage::SeriesA || stage
            == FundingStage::SeriesB || stage == FundingStage::SeriesC,
    }
}

/// The funding stage of a new competitor: for an indie, bootstrapped with
/// 70 percent and seed otherwise; else one of the three stages of the
/// difficulty with equal chances.
pub fn determine_funding_stage(
    difficulty: &DifficultyMode,
    rng: &mut GameRng,
) -> (stage: FundingStage)
    ensures
        stage_occurs(*difficulty, stage),
        *difficulty == DifficultyMode::IndieBootstrap ==> exists|held: Trial|
            #[trigger] held.is_held_at(BOOTSTRAPPED_CHANCE as int) && stage == indie_stage(held),
{
    match difficulty {
        DifficultyMode::IndieBootstrap => {
            let held = rng.trial(BOOTSTRAPPED_CHANCE);
            assert(held.is_held_at(BOOTSTRAPPED_CHANCE as int));
            if held.hit {
                FundingStage::Bootstrapped
            } else {
                FundingStage::Seed
            }
        },
        DifficultyMode::VCTrack | DifficultyMode::InfraDevTool => {
            let pick = rng.between(0, 2);
            if pick == 0 {
                FundingStage::Seed
            } else if pick == 1 {
                FundingStage::SeriesA
            } else {
                FundingStage::SeriesB
            }
        },
        DifficultyMode::RegulatedFintech => {
            let pick = rng.between(0, 2);
            if pick == 0 {
                FundingStage::SeriesA
            } else if pick == 1 {
                FundingStage::SeriesB
            } else {
                FundingStage::SeriesC
            }
        },
    }
}

/// The pricing strategy for a roll between 0 and 99: freemium below 40,
/// undercutting below 60, premium below 80, enterprise below 95, open source
/// above.
pub open spec fn pricing_for(roll: i64) -> PricingStrategy {
    if roll < 40 {
        PricingStrategy::Freemium
    } else if roll < 60 {
        PricingStrategy::Undercut
    } else if roll < 80 {
        PricingStrategy::Premium
    } else if roll < 95 {
        PricingStrategy::Enterprise
    } else {
        PricingStrategy::OpenSource
    }
}

/// The pricing strategy for a roll.
pub fn pricing_strategy_for(roll: i64) -> (strategy: PricingStrategy)
    ensures
        strategy == pricing_for(roll),
{
    if roll < 40 {
        PricingStrategy::Freemium
    } else if roll < 60 {
        PricingStrategy::Undercut
    } else if roll < 80 {
        PricingStrategy::Premium
    } else if roll < 95 {
        PricingStrategy::Enterprise
    } else {
        PricingStrategy::OpenSource
    }
}

/// The pricing strategy of a new competitor, by a roll between 0 and 99.
pub fn determine_pricing_strategy(rng: &mut GameRng) -> (strategy: PricingStrategy)
    ensures
        exists|roll: i64| 0 <= roll <= 99 && strategy == #[trigger] pricing_for(roll),
{
    let roll = rng.between(0, 99);
    pricing_strategy_for(roll)
}

/// Smallest and largest aggressiveness of competitors at a difficulty.
pub open spec fn aggressiveness_range(difficulty: DifficultyMode) -> (i64, i64) {
    match difficulty {
        DifficultyMode::IndieBootstrap => (300, 600),
        DifficultyMode::VCTrack => (500, 800),
        DifficultyMode::RegulatedFintech => (400, 700),
        DifficultyMode::InfraDevTool => (600, 900),
    }
}

/// Whether the competitor is one that can enter the market at the
/// difficulty in `week`.
pub open spec fn is_newcomer(c: Competitor, difficulty: DifficultyMode, week: u32) -> bool {
    &&& stage_occurs(difficulty, c.funding_stage)
    &&& funding_range(c.funding_stage).0 <= c.total_funding <= funding_range(c.funding_stage).1
    &&& c.team_size == bounded(trunc_div(c.total_funding as int, 150_000_000), 1, 500)
    &&& aggressiveness_range(difficulty).0 <= c.aggressiveness <= aggressiveness_range(difficulty).1
    &&& 20_000 <= c.feature_parity <= 60_000
    &&& c.market_share == 0
    &&& c.last_action_week == week
    &&& c.action_history@.len() == 0
    &&& !c.is_acquired
}

/// A new competitor: a funding stage and a funding that go with the
/// difficulty, a team that the funding pays for, a feature parity between 20
/// and 60, no market share yet and no history.
pub fn generate_competitor_persona(
    difficulty: &DifficultyMode,
    week: u32,
    rng: &mut GameRng,
) -> (competitor: Competitor)
    ensures
        is_newcomer(competitor, *difficulty, week),
{
    let funding_stage = determine_funding_stage(difficulty, rng);
    let pricing_strategy = determine_pricing_strategy(rng);
    let total_funding = funding_stage_to_amount(&funding_stage, rng);
    let team_size = calculate_competitor_team_size(total_funding);
    let aggressiveness = match difficulty {
        DifficultyMode::IndieBootstrap => rng.between(300, 600),
        DifficultyMode::VCTrack => rng.between(500, 800),
        DifficultyMode::RegulatedFintech => rng.between(400, 700),
        DifficultyMode::InfraDevTool => rng.between(600, 900),
    };
    Competitor {
        funding_stage,
        feature_parity: rng.between(20_000, 60_000),
        pricing_strategy,
        market_share: 0,
        aggressiveness,
        last_action_week: week,
        action_history: Vec::new(),
        total_funding,
        team_size,
        is_acquired: false,
    }
}

/// The competitors of a new game: two or three for an indie or in regulated
/// fintech, three or four otherwise.
pub fn generate_competitors(
    difficulty: &DifficultyMode,
    week: u32,
    rng: &mut GameRng,
) -> (competitors: Vec<Competitor>)
    ensures
        match *difficulty {
            DifficultyMode::IndieBootstrap | DifficultyMode::RegulatedFintech => 2
                <= competitors@.len() <= 3,
            _ => 3 <= competitors@.len() <= 4,
        },
        forall|i: int|
            0 <= i < competitors@.len() ==> is_newcomer(#[trigger] competitors@[i], *difficulty, week),
{
    let count = match difficulty {
        DifficultyMode::IndieBootstrap | DifficultyMode::RegulatedFintech => rng.between(2, 3),
        _ => rng.between(3, 4),
    };
    let mut competitors: Vec<Competitor> = Vec::new();
    let mut i: i64 = 0;
    while i < count
        invariant
            0 <= i <= count <= 4,
            competitors@.len() == i,
            forall|k: int|
                0 <= k < competitors@.len() ==> is_newcomer(#[trigger] competitors@[k], *difficulty, week),
        decreases count - i,
    {
        competitors.push(generate_competitor_persona(difficulty, week, rng));
        i = i + 1;
    }
    competitors
}

/// The kind of action at a position among the eight kinds.
pub open spec fn action_type_at(i: int) -> CompetitorActionType {
    if i == 0 {
        CompetitorActionType::FeatureLaunch
    } else if i == 1 {
        CompetitorActionType::PricingChange
    } else if i == 2 {
        CompetitorActionType::FundingRound
    } else if i == 3 {
        CompetitorActionType::Acquisition
    } else if i == 4 {
        CompetitorActionType::ProductPivot
    } else if i == 5 {
        CompetitorActionType::MarketingBlitz
    } else if i == 6 {
        CompetitorActionType::TalentPoach
    } else {
        CompetitorActionType::PartnershipAnnouncement
    }
}

/// Chance, per mille, that a competitor acts in a week: three tenths of its
/// aggressiveness.
pub open spec fn action_chance(c: Competitor) -> i64 {
    scaled(c.aggressiveness as int, 300, 1_000)
}

/// What a competitor does in a week, if anything: it acts with a chance of
/// three tenths of its aggressiveness, and then does what
/// [`competitor_action_for`] gives for the kind and the price that are drawn.
/// With a chance of zero it never acts; with a chance of one it always does.
pub fn generate_competitor_action(
    competitor: &Competitor,
    week: u32,
    rng: &mut GameRng,
) -> (action: Option<CompetitorAction>)
    ensures
        exists|draw: ActionDraw|
            draw.fits(*competitor) && action == #[trigger] action_for_draw(*competitor, week, draw),
        action_chance(*competitor) <= 0 ==> action.is_none(),
        action_chance(*competitor) >= 1_000 ==> action.is_some(),
        action matches Some(a) ==> {
            &&& a.week == week
            &&& match a.action_type {
                CompetitorActionType::FundingRound => a.amount == Some(competitor.total_funding),
                CompetitorActionType::Acquisition => a.amount matches Some(x) && 50_000_000_000 <= x
                    <= 200_000_000_000,
                _ => a.amount.is_none(),
            }
        },
{
    let held = rng.trial(scale(competitor.aggressiveness, 300, 1_000));
    let acts = held.hit;
    let kind = if acts {
        rng.between(0, 7)
    } else {
        0
    };
    let millions = if acts && kind == 3 {
        rng.between(50, 200)
    } else {
        50
    };
    let draw = ActionDraw { chance: held.chance, acts, kind, millions };
    competitor_action_for(competitor, week, &draw)
}

/// What the draws of a competitor's week came to.
#[derive(Debug, Clone, Copy, PartialEq, Eq, Structural)]
pub struct ActionDraw {
    /// The chance, per mille, at which the trial for an action was held.
    pub chance: i64,
    /// Whether the competitor acts at all.
    pub acts: bool,
    /// Position of the kind of action among the eight kinds.
    pub kind: i64,
    /// Price of an acquisition, in millions of dollars.
    pub millions: i64,
}

impl ActionDraw {
    /// The trial for an action as it was held.
    pub open spec fn trial(self) -> Trial {
        Trial { chance: self.chance, hit: self.acts }
    }

    /// Whether the draw is one that can be made for the competitor: one of
    /// the eight kinds, a price between 50 and 200 million, and a trial held
    /// at the chance with which the competitor acts.
    pub open spec fn fits(self, c: Competitor) -> bool {
        &&& 0 <= self.kind <= 7
        &&& 50 <= self.millions <= 200
        &&& self.trial().is_held_at(action_chance(c) as int)
    }
}

/// What a competitor does for a draw: nothing unless it acts; otherwise an
/// action of the drawn kind in the given week. A funding round carries the
/// competitor's funding as its amount, an acquisition the drawn price, and
/// nothing else carries an amount.
pub open spec fn action_for_draw(c: Competitor, week: u32, draw: ActionDraw) -> Option<
    CompetitorAction,
> {
    if !draw.acts {
        None
    } else {
        let action_type = action_type_at(draw.kind as int);
        Some(
            CompetitorAction {
                week,
                action_type,
                amount: match action_type {
                    CompetitorActionType::FundingRound => Some(c.total_funding),
                    CompetitorActionType::Acquisition => Some(
                        scaled(draw.millions as int, 1_000_000_000, 1),
                    ),
                    _ => None,
                },
            },
        )
    }
}

/// What a competitor does for a draw.
pub fn competitor_action_for(
    competitor: &Competitor,
    week: u32,
    draw: &ActionDraw,
) -> (action: Option<CompetitorAction>)
    ensures
        action == action_for_draw(*competitor, week, *draw),
{
    if !draw.acts {
        return None;
    }
    let action_type = if draw.kind == 0 {
        CompetitorActionType::FeatureLaunch
    } else if draw.kind == 1 {
        CompetitorActionType::PricingChange
    } else if draw.kind == 2 {
        CompetitorActionType::FundingRound
    } else if draw.kind == 3 {
        CompetitorActionType::Acquisition
    } else if draw.kind == 4 {
        CompetitorActionType::ProductPivot
    } else if draw.kind == 5 {
        CompetitorActionType::MarketingBlitz
    } else if draw.kind == 6 {
        CompetitorActionType::TalentPoach
    } else {
        CompetitorActionType::PartnershipAnnouncement
    };
    let amount = match action_type {
        CompetitorActionType::FundingRound => Some(competitor.total_funding),
        CompetitorActionType::Acquisition => Some(scale(draw.millions, 1_000_000_000, 1)),
        _ => None,
    };
    Some(CompetitorAction { week, action_type, amount })
}

/// Whether `i` is the position of a competitor at the funding stage.
pub open spec fn is_at_funding_stage(
    competitors: Seq<Competitor>,
    stage: FundingStage,
    i: int,
) -> bool {
    0 <= i < competitors.len() && competitors[i].funding_stage == stage
}

/// The positions of the competitors at a funding stage, in order.
pub fn get_competitors_by_funding(
    competitors: &Vec<Competitor>,
    stage: FundingStage,
) -> (found: Vec<usize>)
    ensures
        forall|k: int|
            0 <= k < found@.len() ==> is_at_funding_stage(competitors@, stage, #[trigger] found@[k] as int),
        forall|i: int| is_at_funding_stage(competitors@, stage, i) ==> found@.contains(i as usize),
        forall|j: int, k: int| 0 <= j < k < found@.len() ==> found@[j] < found@[k],
{
    let mut found: Vec<usize> = Vec::new();
    let mut i: usize = 0;
    while i < competitors.len()
        invariant
            i <= competitors.len(),
            forall|k: int|
                0 <= k < found@.len() ==> is_at_funding_stage(
                    competitors@,
                    stage,
                    #[trigger] found@[k] as int,
                ) && found@[k] < i,
            forall|j: int|
                0 <= j < i && is_at_funding_stage(competitors@, stage, j) ==> found@.contains(j as usize),
            forall|j: int, k: int| 0 <= j < k < found@.len() ==> found@[j] < found@[k],
        decreases competitors.len() - i,
    {
        if competitors[i].funding_stage == stage {
            let ghost before = found@;
            found.push(i);
            assert(found@[found@.len() - 1] == i);
            assert forall|j: int|
                0 <= j < i + 1 && is_at_funding_stage(competitors@, stage, j) implies found@.contains(
                j as usize,
            ) by {
                if j < i {
                    let k = choose|k: int| 0 <= k < before.len() && before[k] == j as usize;
                    assert(found@[k] == j as usize);
                }
            }
        }
        i = i + 1;
    }
    found
}

/// Whether the competitor raised a funding round no more than
/// `lookback_weeks` before `current_week`.
pub open spec fn raised_recently(c: Competitor, current_week: u32, lookback_weeks: u32) -> bool {
    exists|i: int|
        0 <= i < c.action_history@.len() && (#[trigger] c.action_history@[i]).action_type
            == CompetitorActionType::FundingRound && c.action_history@[i].week <= current_week
            && current_week - c.action_history@[i].week <= lookback_weeks
}

/// Whether the competitor raised a funding round recently.
pub fn has_recent_funding(
    competitor: &Competitor,
    current_week: u32,
    lookback_weeks: u32,
) -> (recent: bool)
    ensures
        recent == raised_recently(*competitor, current_week, lookback_weeks),
{
    let mut i: usize = 0;
    while i < competitor.action_history.len()
        invariant
            i <= competitor.action_history.len(),
            forall|j: int|
                0 <= j < i ==> !((#[trigger] competitor.action_history@[j]).action_type
                    == CompetitorActionType::FundingRound && competitor.action_history@[j].week
                    <= current_week && current_week - competitor.action_history@[j].week
                    <= lookback_weeks),
        decreases competitor.action_history.len() - i,
    {
        let a = competitor.action_history[i];
        match a.action_type {
            CompetitorActionType::FundingRound => {
                if a.week <= current_week && current_week - a.week <= lookback_weeks {
                    return true;
                }
            },
            _ => {},
        }
        i = i + 1;
    }
    false
}

/// The positions of the competitors that raised a funding round no more
/// than `lookback_weeks` ago, in order.
pub fn get_recently_funded_competitors(
    competitors: &Vec<Competitor>,
    current_week: u32,
    lookback_weeks: u32,
) -> (found: Vec<usize>)
    ensures
        forall|k: int|
            0 <= k < found@.len() ==> (#[trigger] found@[k]) < competitors@.len() && raised_recently(
                competitors@[found@[k] as int],
                current_week,
                lookback_weeks,
            ),
        forall|i: int|
            0 <= i < competitors@.len() && raised_recently(
                #[trigger] competitors@[i],
                current_week,
                lookback_weeks,
            ) ==> found@.contains(i as usize),
        forall|j: int, k: int| 0 <= j < k < found@.len() ==> found@[j] < found@[k],
{
    let mut found: Vec<usize> = Vec::new();
    let mut i: usize = 0;
    while i < competitors.len()
        invariant
            i <= competitors.len(),
            forall|j: int, k: int| 0 <= j < k < found@.len() ==> found@[j] < found@[k],
            forall|k: int|
                0 <= k < found@.len() ==> (#[trigger] found@[k]) < i && raised_recently(
                    competitors@[found@[k] as int],
                    current_week,
                    lookback_weeks,
                ),
            forall|j: int|
                0 <= j < i && raised_recently(#[trigger] competitors@[j], current_week, lookback_weeks)
                    ==> found@.contains(j as usize),
        decreases competitors.len() - i,
    {
        if has_recent_funding(&competitors[i], current_week, lookback_weeks) {
            let ghost before = found@;
            found.push(i);
            assert(found@[found@.len() - 1] == i);
            assert forall|j: int|
                0 <= j < i + 1 && raised_recently(
                    #[trigger] competitors@[j],
                    current_week,
                    lookback_weeks,
                ) implies found@.contains(j as usize) by {
                if j < i {
                    let k = choose|k: int| 0 <= k < before.len() && before[k] == j as usize;
                    assert(found@[k] == j as usize);
                }
            }
        }
        i = i + 1;
    }
    found
}

/// The strength that a competitor brings to the market: its threat, or
/// nothing when it has been acquired or its threat is negative.
pub open spec fn strength(c: Competitor) -> i64 {
    if c.is_acquired || threat(c) < 0 {
        0
    } else {
        threat(c)
    }
}

/// The strengths of the competitors added up, capped.
pub open spec fn total_strength(competitors: Seq<Competitor>) -> i64
    decreases competitors.len(),
{
    if competitors.len() == 0 {
        0
    } else {
        capped(total_strength(competitors.drop_last()) + strength(competitors.last()))
    }
}

/// The strength of the player: reputation times net promoter score times
/// velocity, at least one.
pub open spec fn player_strength(reputation: i64, nps: i64, velocity: i64) -> i64 {
    at_least(
        scaled(scaled(reputation as int, nps as int, 1_000) as int, velocity as int, 1_000),
        1_000,
    )
}

/// The share, in percent, that a strength is of the whole, never below the
/// floor.
pub open spec fn share_of(part: i64, whole: i64, floor: i64) -> i64 {
    at_least(scaled(part as int, HUNDRED as int, at_least(whole, 1) as int), floor)
}

/// The strengths of the competitors added up.
pub fn sum_strengths(competitors: &Vec<Competitor>) -> (total: i64)
    ensures
        total == total_strength(competitors@),
        0 <= total <= CEILING,
{
    let mut total: i64 = 0;
    let mut i: usize = 0;
    while i < competitors.len()
        invariant
            i <= competitors.len(),
            total == total_strength(competitors@.take(i as int)),
            0 <= total <= CEILING,
        decreases competitors.len() - i,
    {
        assert(competitors@.take(i + 1).drop_last() =~= competitors@.take(i as int));
        total = sum(total, competitor_strength(&competitors[i]));
        i = i + 1;
    }
    assert(competitors@.take(i as int) =~= competitors@);
    total
}

/// The strength that a competitor brings to the market.
pub fn competitor_strength(competitor: &Competitor) -> (s: i64)
    ensures
        s == strength(*competitor),
        0 <= s <= CEILING,
{
    let level = threat_level(competitor);
    if competitor.is_acquired || level < 0 {
        0
    } else {
        level
    }
}

/// Market shares in percent: that of the player and that of each
/// competitor still in the market, by position.
#[derive(Debug, Clone, PartialEq, Eq)]
pub struct MarketShares {
    pub player: i64,
    pub competitors: Vec<(usize, i64)>,
}

/// The player's share of the market: all of it without a competitor in
/// the market; otherwise the player's strength as a share of all strengths,
/// at least five percent.
pub open spec fn player_share(
    competitors: Seq<Competitor>,
    reputation: i64,
    nps: i64,
    velocity: i64,
) -> i64 {
    if !any_active(competitors) {
        HUNDRED
    } else {
        let own = player_strength(reputation, nps, velocity);
        share_of(own, capped(total_strength(competitors) + own), 5_000)
    }
}

/// The shares of the market: the player's, and for each competitor still in
/// the market its strength as a share of all strengths, at least one percent.
pub fn calculate_market_share(
    competitors: &Vec<Competitor>,
    reputation: i64,
    nps: i64,
    velocity: i64,
) -> (shares: MarketShares)
    ensures
        shares.player == player_share(competitors@, reputation, nps, velocity),
        forall|k: int|
            0 <= k < shares.competitors@.len() ==> is_active(
                competitors@,
                (#[trigger] shares.competitors@[k]).0 as int,
            ) && shares.competitors@[k].1 == share_of(
                strength(competitors@[shares.competitors@[k].0 as int]),
                capped(
                    total_strength(competitors@) + player_strength(reputation, nps, velocity),
                ),
                1_000,
            ),
        forall|j: int, k: int|
            0 <= j < k < shares.competitors@.len() ==> shares.competitors@[j].0
                < shares.competitors@[k].0,
        shares.competitors@.len() == active_competitors_count(competitors@, competitors@.len() as int),
{
    let product = scale(scale(reputation, nps, 1_000), velocity, 1_000);
    let own: i64 = if product < 1_000 {
        1_000
    } else {
        product
    };
    let whole = sum(sum_strengths(competitors), own);
    let whole_floor: i64 = if whole < 1 {
        1
    } else {
        whole
    };
    let mut found: Vec<(usize, i64)> = Vec::new();
    let mut i: usize = 0;
    while i < competitors.len()
        invariant
            i <= competitors.len(),
            whole == capped(total_strength(competitors@) + player_strength(reputation, nps, velocity)),
            whole_floor == at_least(whole, 1),
            forall|k: int|
                0 <= k < found@.len() ==> is_active(competitors@, (#[trigger] found@[k]).0 as int)
                    && found@[k].0 < i && found@[k].1 == share_of(
                    strength(competitors@[found@[k].0 as int]),
                    whole,
                    1_000,
                ),
            forall|j: int, k: int| 0 <= j < k < found@.len() ==> found@[j].0 < found@[k].0,
            found@.len() == active_competitors_count(competitors@, i as int),
            found@.len() > 0 ==> any_active(competitors@),
            found@.len() == 0 ==> forall|j: int| 0 <= j < i ==> !is_active(competitors@, j),
        decreases competitors.len() - i,
    {
        if !competitors[i].is_acquired {
            let part = scale(competitor_strength(&competitors[i]), HUNDRED, whole_floor);
            let share: i64 = if part < 1_000 {
                1_000
            } else {
                part
            };
            found.push((i, share));
            assert(is_active(competitors@, i as int));
        }
        i = i + 1;
    }
    let player = if found.len() == 0 {
        assert(!any_active(competitors@));
        HUNDRED
    } else {
        let part = scale(own, HUNDRED, whole_floor);
        if part < 5_000 {
            5_000
        } else {
            part
        }
    };
    MarketShares { player, competitors: found }
}

/// Number of competitors among the first `n` that are still in the market.
pub open spec fn active_competitors_count(competitors: Seq<Competitor>, n: int) -> nat
    decreases n,
{
    if n <= 0 {
        0
    } else {
        active_competitors_count(competitors, n - 1) + if is_active(competitors, n - 1) {
            1nat
        } else {
            0nat
        }
    }
}

} // verus!
