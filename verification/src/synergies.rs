//! Synergies between the actions of one turn, and the specialization that a
//! run of turns shows.
use crate::actions::Action;
use crate::actions::Stat;
use crate::fixed::bound;
use crate::fixed::bounded;
use crate::fixed::capped;
use crate::fixed::scale;
use crate::fixed::scaled;
use crate::fixed::sum;
use crate::fixed::HUNDRED;
use crate::state::GameState;
use vstd::prelude::*;

verus! {

/// The kind of an action, without its parameters.
#[derive(Debug, Clone, Copy, PartialEq, Eq, Hash, Structural)]
pub enum ActionType {
    ShipFeature,
    FounderLedSales,
    Hire,
    Fundraise,
    TakeBreak,
    RefactorCode,
    RunExperiment,
    ContentLaunch,
    DevRel,
    PaidAds,
    Coach,
    Fire,
    ComplianceWork,
    IncidentResponse,
    ProcessImprovement,
}

/// A strategy that the recent actions consistently follow.
#[derive(Debug, Clone, Copy, PartialEq, Eq, Structural)]
pub enum SpecializationPath {
    ProductExcellence,
    GrowthHacking,
    OperationalEfficiency,
    CustomerObsessed,
}

impl Action {
    /// The kind of the action.
    pub open spec fn kind(self) -> ActionType {
        match self {
            Action::ShipFeature { .. } => ActionType::ShipFeature,
            Action::FounderLedSales { .. } => ActionType::FounderLedSales,
            Action::Hire => ActionType::Hire,
            Action::Fundraise { .. } => ActionType::Fundraise,
            Action::TakeBreak => ActionType::TakeBreak,
            Action::RefactorCode { .. } => ActionType::RefactorCode,
            Action::RunExperiment { .. } => ActionType::RunExperiment,
            Action::ContentLaunch { .. } => ActionType::ContentLaunch,
            Action::DevRel { .. } => ActionType::DevRel,
            Action::PaidAds { .. } => ActionType::PaidAds,
            Action::Coach { .. } => ActionType::Coach,
            Action::Fire { .. } => ActionType::Fire,
            Action::ComplianceWork { .. } => ActionType::ComplianceWork,
            Action::IncidentResponse => ActionType::IncidentResponse,
            Action::ProcessImprovement => ActionType::ProcessImprovement,
        }
    }
}

/// The kind of an action, ignoring its parameters.
pub fn get_action_type(action: &Action) -> (kind: ActionType)
    ensures
        kind == action.kind(),
{
    match action {
        Action::ShipFeature { .. } => ActionType::ShipFeature,
        Action::FounderLedSales { .. } => ActionType::FounderLedSales,
        Action::Hire => ActionType::Hire,
        Action::Fundraise { .. } => ActionType::Fundraise,
        Action::TakeBreak => ActionType::TakeBreak,
        Action::RefactorCode { .. } => ActionType::RefactorCode,
        Action::RunExperiment { .. } => ActionType::RunExperiment,
        Action::ContentLaunch { .. } => ActionType::ContentLaunch,
        Action::DevRel { .. } => ActionType::DevRel,
        Action::PaidAds { .. } => ActionType::PaidAds,
        Action::Coach { .. } => ActionType::Coach,
        Action::Fire { .. } => ActionType::Fire,
        Action::ComplianceWork { .. } => ActionType::ComplianceWork,
        Action::IncidentResponse => ActionType::IncidentResponse,
        Action::ProcessImprovement => ActionType::ProcessImprovement,
    }
}

/// Number of synergies in the catalog.
pub const SYNERGY_COUNT: usize = 20;

/// The synergies of the catalog.
#[derive(Debug, Clone, Copy, PartialEq, Eq, Hash, Structural)]
pub enum SynergyId {
    LaunchMomentum,
    ProductCredibility,
    FeatureLaunch,
    EngineeringExcellence,
    TechnicalFoundation,
    DataDrivenContent,
    CredibilityBoost,
    SalesTeam,
    CommunityBuilding,
    IntegratedMarketing,
    FullFunnel,
    TeamDevelopment,
    ScalableOperations,
    RegulatoryExcellence,
    IncidentPrevention,
    GrowthCapital,
    MarketingBudget,
    FounderWellness,
    TeamRestructuring,
    OptimizedAds,
}

/// One bonus of a synergy. A multiplier of `150` multiplies the stat by 1.15;
/// an additive bonus is in thousandths.
#[derive(Debug, Clone, Copy, PartialEq, Eq, Structural)]
pub struct SynergyBonus {
    pub stat: Stat,
    pub bonus_amount: i64,
    pub is_multiplier: bool,
}

/// A synergy: the kinds of action that must all be present in a turn, and
/// the bonuses it then gives.
#[derive(Debug, Clone)]
pub struct ActionSynergy {
    pub id: SynergyId,
    pub required_actions: Vec<ActionType>,
    pub bonus_effects: Vec<SynergyBonus>,
}

pub open spec fn multiplier(stat: Stat, amount: int) -> SynergyBonus {
    SynergyBonus { stat, bonus_amount: amount as i64, is_multiplier: true }
}

pub open spec fn additive(stat: Stat, amount: int) -> SynergyBonus {
    SynergyBonus { stat, bonus_amount: amount as i64, is_multiplier: false }
}

impl SynergyId {
    /// The synergy at a position of the catalog.
    pub open spec fn at(i: int) -> SynergyId {
        if i == 0 {
            SynergyId::LaunchMomentum
        } else if i == 1 {
            SynergyId::ProductCredibility
        } else if i == 2 {
            SynergyId::FeatureLaunch
        } else if i == 3 {
            SynergyId::EngineeringExcellence
        } else if i == 4 {
            SynergyId::TechnicalFoundation
        } else if i == 5 {
            SynergyId::DataDrivenContent
        } else if i == 6 {
            SynergyId::CredibilityBoost
        } else if i == 7 {
            SynergyId::SalesTeam
        } else if i == 8 {
            SynergyId::CommunityBuilding
        } else if i == 9 {
            SynergyId::IntegratedMarketing
        } else if i == 10 {
            SynergyId::FullFunnel
        } else if i == 11 {
            SynergyId::TeamDevelopment
        } else if i == 12 {
            SynergyId::ScalableOperations
        } else if i == 13 {
            SynergyId::RegulatoryExcellence
        } else if i == 14 {
            SynergyId::IncidentPrevention
        } else if i == 15 {
            SynergyId::GrowthCapital
        } else if i == 16 {
            SynergyId::MarketingBudget
        } else if i == 17 {
            SynergyId::FounderWellness
        } else if i == 18 {
            SynergyId::TeamRestructuring
        } else {
            SynergyId::OptimizedAds
        }
    }

    /// The kinds of action that the synergy needs.
    pub open spec fn required(self) -> Seq<ActionType> {
        match self {
            SynergyId::LaunchMomentum => seq![ActionType::ShipFeature, ActionType::ContentLaunch],
            SynergyId::ProductCredibility => seq![ActionType::ShipFeature, ActionType::DevRel],
            SynergyId::FeatureLaunch => seq![ActionType::ShipFeature, ActionType::PaidAds],
            SynergyId::EngineeringExcellence => seq![ActionType::RefactorCode, ActionType::Coach],
            SynergyId::TechnicalFoundation => seq![
                ActionType::RefactorCode,
                ActionType::ProcessImprovement,
            ],
            SynergyId::DataDrivenContent => seq![
                ActionType::RunExperiment,
                ActionType::ContentLaunch,
            ],
            SynergyId::CredibilityBoost => seq![ActionType::FounderLedSales, ActionType::DevRel],
            SynergyId::SalesTeam => seq![ActionType::FounderLedSales, ActionType::Coach],
            SynergyId::CommunityBuilding => seq![ActionType::ContentLaunch, ActionType::DevRel],
            SynergyId::IntegratedMarketing => seq![ActionType::ContentLaunch, ActionType::PaidAds],
            SynergyId::FullFunnel => seq![ActionType::DevRel, ActionType::PaidAds],
            SynergyId::TeamDevelopment => seq![ActionType::Hire, ActionType::Coach],
            SynergyId::ScalableOperations => seq![ActionType::Hire, ActionType::ProcessImprovement],
            SynergyId::RegulatoryExcellence => seq![
                ActionType::ComplianceWork,
                ActionType::ProcessImprovement,
            ],
            SynergyId::IncidentPrevention => seq![
                ActionType::IncidentResponse,
                ActionType::ProcessImprovement,
            ],
            SynergyId::GrowthCapital => seq![ActionType::Fundraise, ActionType::Hire],
            SynergyId::MarketingBudget => seq![ActionType::Fundraise, ActionType::PaidAds],
            SynergyId::FounderWellness => seq![ActionType::TakeBreak, ActionType::Coach],
            SynergyId::TeamRestructuring => seq![ActionType::Fire, ActionType::Hire],
            SynergyId::OptimizedAds => seq![ActionType::RunExperiment, ActionType::PaidAds],
        }
    }

    /// The bonuses that the synergy gives.
    pub open spec fn bonuses(self) -> Seq<SynergyBonus> {
        match self {
            SynergyId::LaunchMomentum => seq![multiplier(Stat::Wau, 150)],
            SynergyId::ProductCredibility => seq![
                additive(Stat::Reputation, 10_000),
                multiplier(Stat::Wau, 50),
            ],
            SynergyId::FeatureLaunch => seq![
                multiplier(Stat::Wau, 200),
                multiplier(Stat::Burn, -100),
            ],
            SynergyId::EngineeringExcellence => seq![additive(Stat::Velocity, 200)],
            SynergyId::TechnicalFoundation => seq![
                additive(Stat::Velocity, 150),
                additive(Stat::TechDebt, -10_000),
            ],
            SynergyId::DataDrivenContent => seq![multiplier(Stat::Reputation, 100)],
            SynergyId::CredibilityBoost => seq![additive(Stat::Reputation, 10_000)],
            SynergyId::SalesTeam => seq![multiplier(Stat::Mrr, 100)],
            SynergyId::CommunityBuilding => seq![
                multiplier(Stat::Wau, 200),
                additive(Stat::Reputation, 15_000),
            ],
            SynergyId::IntegratedMarketing => seq![multiplier(Stat::Wau, 500)],
            SynergyId::FullFunnel => seq![multiplier(Stat::Wau, 250)],
            SynergyId::TeamDevelopment => seq![
                additive(Stat::Velocity, 150),
                additive(Stat::Morale, 10_000),
            ],
            SynergyId::ScalableOperations => seq![
                multiplier(Stat::Burn, -150),
                additive(Stat::Velocity, 100),
            ],
            SynergyId::RegulatoryExcellence => seq![additive(Stat::ComplianceRisk, -20_000)],
            SynergyId::IncidentPrevention => seq![additive(Stat::TechDebt, -5_000)],
            SynergyId::GrowthCapital => seq![multiplier(Stat::Velocity, 200)],
            SynergyId::MarketingBudget => seq![multiplier(Stat::Wau, 300)],
            SynergyId::FounderWellness => seq![
                additive(Stat::Morale, 20_000),
                additive(Stat::Reputation, 5_000),
            ],
            SynergyId::TeamRestructuring => seq![
                additive(Stat::Velocity, 100),
                additive(Stat::Morale, -5_000),
            ],
            SynergyId::OptimizedAds => seq![multiplier(Stat::Wau, 150)],
        }
    }
}

impl ActionSynergy {
    /// Whether the synergy holds what the catalog defines for its id.
    pub open spec fn matches_catalog(self) -> bool {
        self.required_actions@ == self.id.required() && self.bonus_effects@ == self.id.bonuses()
    }
}

fn times(stat: Stat, amount: i64) -> (bonus: SynergyBonus)
    ensures
        bonus == multiplier(stat, amount as int),
{
    SynergyBonus { stat, bonus_amount: amount, is_multiplier: true }
}

fn plus(stat: Stat, amount: i64) -> (bonus: SynergyBonus)
    ensures
        bonus == additive(stat, amount as int),
{
    SynergyBonus { stat, bonus_amount: amount, is_multiplier: false }
}

/// The synergy at a position of the catalog.
pub fn synergy_id_at(i: usize) -> (id: SynergyId)
    ensures
        id == SynergyId::at(i as int),
{
    if i == 0 {
        SynergyId::LaunchMomentum
    } else if i == 1 {
        SynergyId::ProductCredibility
    } else if i == 2 {
        SynergyId::FeatureLaunch
    } else if i == 3 {
        SynergyId::EngineeringExcellence
    } else if i == 4 {
        SynergyId::TechnicalFoundation
    } else if i == 5 {
        SynergyId::DataDrivenContent
    } else if i == 6 {
        SynergyId::CredibilityBoost
    } else if i == 7 {
        SynergyId::SalesTeam
    } else if i == 8 {
        SynergyId::CommunityBuilding
    } else if i == 9 {
        SynergyId::IntegratedMarketing
    } else if i == 10 {
        SynergyId::FullFunnel
    } else if i == 11 {
        SynergyId::TeamDevelopment
    } else if i == 12 {
        SynergyId::ScalableOperations
    } else if i == 13 {
        SynergyId::RegulatoryExcellence
    } else if i == 14 {
        SynergyId::IncidentPrevention
    } else if i == 15 {
        SynergyId::GrowthCapital
    } else if i == 16 {
        SynergyId::MarketingBudget
    } else if i == 17 {
        SynergyId::FounderWellness
    } else if i == 18 {
        SynergyId::TeamRestructuring
    } else {
        SynergyId::OptimizedAds
    }
}

/// The kinds of action that a synergy needs.
pub fn required_kinds(id: SynergyId) -> (kinds: Vec<ActionType>)
    ensures
        kinds@ == id.required(),
{
    match id {
        SynergyId::LaunchMomentum => vec![ActionType::ShipFeature, ActionType::ContentLaunch],
        SynergyId::ProductCredibility => vec![ActionType::ShipFeature, ActionType::DevRel],
        SynergyId::FeatureLaunch => vec![ActionType::ShipFeature, ActionType::PaidAds],
        SynergyId::EngineeringExcellence => vec![ActionType::RefactorCode, ActionType::Coach],
        SynergyId::TechnicalFoundation => vec![
            ActionType::RefactorCode,
            ActionType::ProcessImprovement,
        ],
        SynergyId::DataDrivenContent => vec![ActionType::RunExperiment, ActionType::ContentLaunch],
        SynergyId::CredibilityBoost => vec![ActionType::FounderLedSales, ActionType::DevRel],
        SynergyId::SalesTeam => vec![ActionType::FounderLedSales, ActionType::Coach],
        SynergyId::CommunityBuilding => vec![ActionType::ContentLaunch, ActionType::DevRel],
        SynergyId::IntegratedMarketing => vec![ActionType::ContentLaunch, ActionType::PaidAds],
        SynergyId::FullFunnel => vec![ActionType::DevRel, ActionType::PaidAds],
        SynergyId::TeamDevelopment => vec![ActionType::Hire, ActionType::Coach],
        SynergyId::ScalableOperations => vec![ActionType::Hire, ActionType::ProcessImprovement],
        SynergyId::RegulatoryExcellence => vec![
            ActionType::ComplianceWork,
            ActionType::ProcessImprovement,
        ],
        SynergyId::IncidentPrevention => vec![
            ActionType::IncidentResponse,
            ActionType::ProcessImprovement,
        ],
        SynergyId::GrowthCapital => vec![ActionType::Fundraise, ActionType::Hire],
        SynergyId::MarketingBudget => vec![ActionType::Fundraise, ActionType::PaidAds],
        SynergyId::FounderWellness => vec![ActionType::TakeBreak, ActionType::Coach],
        SynergyId::TeamRestructuring => vec![ActionType::Fire, ActionType::Hire],
        SynergyId::OptimizedAds => vec![ActionType::RunExperiment, ActionType::PaidAds],
    }
}

/// The bonuses that a synergy gives.
pub fn bonus_list(id: SynergyId) -> (bonuses: Vec<SynergyBonus>)
    ensures
        bonuses@ == id.bonuses(),
{
    match id {
        SynergyId::LaunchMomentum => vec![times(Stat::Wau, 150)],
        SynergyId::ProductCredibility => vec![plus(Stat::Reputation, 10_000), times(Stat::Wau, 50)],
        SynergyId::FeatureLaunch => vec![times(Stat::Wau, 200), times(Stat::Burn, -100)],
        SynergyId::EngineeringExcellence => vec![plus(Stat::Velocity, 200)],
        SynergyId::TechnicalFoundation => vec![
            plus(Stat::Velocity, 150),
            plus(Stat::TechDebt, -10_000),
        ],
        SynergyId::DataDrivenContent => vec![times(Stat::Reputation, 100)],
        SynergyId::CredibilityBoost => vec![plus(Stat::Reputation, 10_000)],
        SynergyId::SalesTeam => vec![times(Stat::Mrr, 100)],
        SynergyId::CommunityBuilding => vec![times(Stat::Wau, 200), plus(Stat::Reputation, 15_000)],
        SynergyId::IntegratedMarketing => vec![times(Stat::Wau, 500)],
        SynergyId::FullFunnel => vec![times(Stat::Wau, 250)],
        SynergyId::TeamDevelopment => vec![plus(Stat::Velocity, 150), plus(Stat::Morale, 10_000)],
        SynergyId::ScalableOperations => vec![times(Stat::Burn, -150), plus(Stat::Velocity, 100)],
        SynergyId::RegulatoryExcellence => vec![plus(Stat::ComplianceRisk, -20_000)],
        SynergyId::IncidentPrevention => vec![plus(Stat::TechDebt, -5_000)],
        SynergyId::GrowthCapital => vec![times(Stat::Velocity, 200)],
        SynergyId::MarketingBudget => vec![times(Stat::Wau, 300)],
        SynergyId::FounderWellness => vec![
            plus(Stat::Morale, 20_000),
            plus(Stat::Reputation, 5_000),
        ],
        SynergyId::TeamRestructuring => vec![plus(Stat::Velocity, 100), plus(Stat::Morale, -5_000)],
        SynergyId::OptimizedAds => vec![times(Stat::Wau, 150)],
    }
}

/// The catalog entry of a synergy.
pub fn synergy(id: SynergyId) -> (entry: ActionSynergy)
    ensures
        entry.id == id,
        entry.matches_catalog(),
{
    ActionSynergy { id, required_actions: required_kinds(id), bonus_effects: bonus_list(id) }
}

/// Every synergy of the catalog, in catalog order.
pub fn get_all_synergies() -> (all: Vec<ActionSynergy>)
    ensures
        all@.len() == SYNERGY_COUNT,
        forall|i: int|
            0 <= i < all@.len() ==> (#[trigger] all@[i]).id == SynergyId::at(i)
                && all@[i].matches_catalog(),
{
    let mut all: Vec<ActionSynergy> = Vec::new();
    let mut i: usize = 0;
    while i < SYNERGY_COUNT
        invariant
            i <= SYNERGY_COUNT,
            all@.len() == i,
            forall|j: int|
                0 <= j < all@.len() ==> (#[trigger] all@[j]).id == SynergyId::at(j)
                    && all@[j].matches_catalog(),
        decreases SYNERGY_COUNT - i,
    {
        all.push(synergy(synergy_id_at(i)));
        i = i + 1;
    }
    all
}

/// Whether some action of the turn is of the given kind.
pub open spec fn uses_kind(actions: Seq<Action>, kind: ActionType) -> bool {
    exists|i: int| 0 <= i < actions.len() && (#[trigger] actions[i]).kind() == kind
}

/// Whether every required kind is among the kinds of the turn's actions.
pub open spec fn fires(required: Seq<ActionType>, actions: Seq<Action>) -> bool {
    forall|j: int| 0 <= j < required.len() ==> uses_kind(actions, #[trigger] required[j])
}

/// The synergies among the first `n` of the catalog that fire for the
/// actions, in catalog order.
pub open spec fn firing(actions: Seq<Action>, n: int) -> Seq<SynergyId>
    decreases n,
{
    if n <= 0 {
        Seq::<SynergyId>::empty()
    } else if fires(SynergyId::at(n - 1).required(), actions) {
        firing(actions, n - 1).push(SynergyId::at(n - 1))
    } else {
        firing(actions, n - 1)
    }
}

/// Whether some action of the turn is of the given kind.
pub fn has_kind(actions: &Vec<Action>, kind: ActionType) -> (found: bool)
    ensures
        found == uses_kind(actions@, kind),
{
    let mut i: usize = 0;
    while i < actions.len()
        invariant
            i <= actions.len(),
            forall|j: int| 0 <= j < i ==> (#[trigger] actions@[j]).kind() != kind,
        decreases actions.len() - i,
    {
        if get_action_type(&actions[i]) == kind {
            return true;
        }
        i = i + 1;
    }
    false
}

/// Whether every required kind is among the kinds of the actions.
pub fn all_kinds_present(required: &Vec<ActionType>, actions: &Vec<Action>) -> (yes: bool)
    ensures
        yes == fires(required@, actions@),
{
    let mut j: usize = 0;
    while j < required.len()
        invariant
            j <= required.len(),
            forall|k: int| 0 <= k < j ==> uses_kind(actions@, #[trigger] required@[k]),
        decreases required.len() - j,
    {
        if !has_kind(actions, required[j]) {
            return false;
        }
        j = j + 1;
    }
    true
}

/// The synergies that the actions of one turn set off: every synergy of the
/// catalog whose required kinds are all among the kinds of the actions, in
/// catalog order. The parameters of the actions play no part.
pub fn check_action_synergies(actions: &Vec<Action>) -> (found: Vec<ActionSynergy>)
    ensures
        found@.len() == firing(actions@, SYNERGY_COUNT as int).len(),
        forall|i: int|
            0 <= i < found@.len() ==> (#[trigger] found@[i]).id == firing(
                actions@,
                SYNERGY_COUNT as int,
            )[i] && found@[i].matches_catalog(),
{
    let mut found: Vec<ActionSynergy> = Vec::new();
    let mut n: usize = 0;
    while n < SYNERGY_COUNT
        invariant
            n <= SYNERGY_COUNT,
            found@.len() == firing(actions@, n as int).len(),
            forall|i: int|
                0 <= i < found@.len() ==> (#[trigger] found@[i]).id == firing(actions@, n as int)[i]
                    && found@[i].matches_catalog(),
        decreases SYNERGY_COUNT - n,
    {
        let entry = synergy(synergy_id_at(n));
        if all_kinds_present(&entry.required_actions, actions) {
            found.push(entry);
        }
        n = n + 1;
    }
    found
}

/// How well the actions work together: 0.3 for each synergy they set off and
/// 0.1 for each bonus of those synergies, at most 2.
pub open spec fn combo_score(ids: Seq<SynergyId>) -> int
    decreases ids.len(),
{
    if ids.len() == 0 {
        0
    } else {
        combo_score(ids.drop_last()) + 300 + 100 * ids.last().bonuses().len()
    }
}

/// A score for how well the actions work together, in thousandths.
pub fn calculate_action_combo_score(actions: &Vec<Action>) -> (score: i64)
    ensures
        score == if combo_score(firing(actions@, SYNERGY_COUNT as int)) < 2_000 {
            combo_score(firing(actions@, SYNERGY_COUNT as int))
        } else {
            2_000
        },
{
    let found = check_action_synergies(actions);
    let ghost ids = firing(actions@, SYNERGY_COUNT as int);
    let mut score: i64 = 0;
    let mut i: usize = 0;
    proof {
        lemma_firing_is_short(actions@, SYNERGY_COUNT as int);
    }
    while i < found.len()
        invariant
            i <= found.len(),
            found@.len() == ids.len(),
            ids.len() <= SYNERGY_COUNT,
            forall|k: int|
                0 <= k < found@.len() ==> (#[trigger] found@[k]).id == ids[k]
                    && found@[k].matches_catalog(),
            score == combo_score(ids.take(i as int)),
            0 <= score <= 500 * i,
        decreases found.len() - i,
    {
        assert(ids.take(i + 1).drop_last() =~= ids.take(i as int));
        assert(ids.take(i + 1).last() == ids[i as int]);
        assert(found@[i as int].matches_catalog());
        assert(ids[i as int].bonuses().len() <= 2);
        score = score + 300 + 100 * (found[i].bonus_effects.len() as i64);
        i = i + 1;
    }
    assert(ids.take(i as int) =~= ids);
    if score < 2_000 {
        score
    } else {
        2_000
    }
}

/// At most `n` synergies fire among the first `n`.
pub proof fn lemma_firing_is_short(actions: Seq<Action>, n: int)
    requires
        n >= 0,
    ensures
        firing(actions, n).len() <= n,
    decreases n,
{
    if n > 0 {
        lemma_firing_is_short(actions, n - 1);
    }
}

/// The value that a bonus takes a stat value to, before the stat's own
/// limits: multiplied by one plus the bonus, or increased by it.
pub open spec fn bonus_target(value: i64, bonus: SynergyBonus) -> i64 {
    if bonus.is_multiplier {
        scaled(value as int, capped(1_000 + bonus.bonus_amount) as int, 1_000)
    } else {
        capped(value + bonus.bonus_amount)
    }
}

/// The users after a bonus, rounded to the nearest whole user.
pub open spec fn users_after_bonus(wau: u32, bonus: SynergyBonus) -> u32 {
    if bonus.is_multiplier {
        crate::fixed::whole(wau * (1_000 + bonus.bonus_amount))
    } else {
        crate::fixed::whole(wau * 1_000 + bonus.bonus_amount)
    }
}

impl GameState {
    /// The state after one synergy bonus. Users are rounded to whole users,
    /// revenue and burn do not fall below zero, velocity stays within
    /// `[0, 5]` and the percentages within `[0, 100]`; a bonus on any other
    /// stat does nothing.
    #[verifier::opaque]
    pub open spec fn boosted(self, bonus: SynergyBonus) -> GameState {
        match bonus.stat {
            Stat::Wau => GameState { wau: users_after_bonus(self.wau, bonus), ..self },
            Stat::Mrr => GameState {
                mrr: bounded(bonus_target(self.mrr, bonus) as int, 0, crate::fixed::CEILING),
                ..self
            },
            Stat::Burn => GameState {
                burn: bounded(bonus_target(self.burn, bonus) as int, 0, crate::fixed::CEILING),
                ..self
            },
            Stat::Velocity => GameState {
                velocity: bounded(bonus_target(self.velocity, bonus) as int, 0, 5_000),
                ..self
            },
            Stat::Morale => GameState {
                morale: bounded(bonus_target(self.morale, bonus) as int, 0, HUNDRED),
                ..self
            },
            Stat::Reputation => GameState {
                reputation: bounded(bonus_target(self.reputation, bonus) as int, 0, HUNDRED),
                ..self
            },
            Stat::TechDebt => GameState {
                tech_debt: bounded(bonus_target(self.tech_debt, bonus) as int, 0, HUNDRED),
                ..self
            },
            Stat::ComplianceRisk => GameState {
                compliance_risk: bounded(bonus_target(self.compliance_risk, bonus) as int, 0, HUNDRED),
                ..self
            },
            _ => self,
        }
    }

    /// The state after each of the bonuses in turn.
    pub open spec fn boosted_by(self, bonuses: Seq<SynergyBonus>) -> GameState
        decreases bonuses.len(),
    {
        if bonuses.len() == 0 {
            self
        } else {
            self.boosted_by(bonuses.drop_last()).boosted(bonuses.last())
        }
    }

    /// The state after the bonuses of each of the synergies in turn.
    pub open spec fn synergized(self, synergies: Seq<ActionSynergy>) -> GameState
        decreases synergies.len(),
    {
        if synergies.len() == 0 {
            self
        } else {
            self.synergized(synergies.drop_last()).boosted_by(synergies.last().bonus_effects@)
        }
    }

    /// Applies one synergy bonus.
    pub fn boost(&mut self, bonus: &SynergyBonus)
        ensures
            *final(self) == old(self).boosted(*bonus),
            old(self).differs_in_stats_only(*final(self)),
    {
        reveal(GameState::boosted);
        match bonus.stat {
            Stat::Wau => {
                let milli: i128 = if bonus.is_multiplier {
                    let factor: i128 = 1_000 + bonus.bonus_amount as i128;
                    assert(-0x1_0000_0000_0000_0000_0000_0000 <= self.wau * factor
                        <= 0x1_0000_0000_0000_0000_0000_0000) by (nonlinear_arith)
                        requires
                            0 <= self.wau <= 0xffff_ffff,
                            -0x1_0000_0000_0000_0000 <= factor <= 0x1_0000_0000_0000_0000,
                    ;
                    (self.wau as i128) * factor
                } else {
                    (self.wau as i128) * 1_000 + bonus.bonus_amount as i128
                };
                self.wau = crate::fixed::round_whole(milli);
            },
            Stat::Mrr => {
                self.mrr = crate::fixed::clamp(apply_bonus(self.mrr, bonus), 0, crate::fixed::CEILING);
            },
            Stat::Burn => {
                self.burn = crate::fixed::clamp(
                    apply_bonus(self.burn, bonus),
                    0,
                    crate::fixed::CEILING,
                );
            },
            Stat::Velocity => {
                self.velocity = crate::fixed::clamp(apply_bonus(self.velocity, bonus), 0, 5_000);
            },
            Stat::Morale => {
                self.morale = crate::fixed::clamp(apply_bonus(self.morale, bonus), 0, HUNDRED);
            },
            Stat::Reputation => {
                self.reputation = crate::fixed::clamp(
                    apply_bonus(self.reputation, bonus),
                    0,
                    HUNDRED,
                );
            },
            Stat::TechDebt => {
                self.tech_debt = crate::fixed::clamp(apply_bonus(self.tech_debt, bonus), 0, HUNDRED);
            },
            Stat::ComplianceRisk => {
                self.compliance_risk = crate::fixed::clamp(
                    apply_bonus(self.compliance_risk, bonus),
                    0,
                    HUNDRED,
                );
            },
            _ => {},
        }
    }

    /// Applies the bonuses in order.
    pub fn boost_all(&mut self, bonuses: &Vec<SynergyBonus>)
        ensures
            *final(self) == old(self).boosted_by(bonuses@),
            old(self).differs_in_stats_only(*final(self)),
    {
        let mut i: usize = 0;
        while i < bonuses.len()
            invariant
                i <= bonuses.len(),
                *self == old(self).boosted_by(bonuses@.take(i as int)),
                old(self).differs_in_stats_only(*self),
            decreases bonuses.len() - i,
        {
            assert(bonuses@.take(i + 1).drop_last() =~= bonuses@.take(i as int));
            self.boost(&bonuses[i]);
            i = i + 1;
        }
        assert(bonuses@.take(i as int) =~= bonuses@);
    }
}

/// A value after a bonus: multiplied by one plus the bonus, or increased by
/// it.
pub fn apply_bonus(value: i64, bonus: &SynergyBonus) -> (target: i64)
    ensures
        target == bonus_target(value, *bonus),
{
    if bonus.is_multiplier {
        scale(value, sum(1_000, bonus.bonus_amount), 1_000)
    } else {
        sum(value, bonus.bonus_amount)
    }
}

/// Applies the bonuses of all the synergies in one batch, synergy by synergy
/// and bonus by bonus, and then re-derives and bounds the stats.
pub fn apply_synergy_bonuses(state: &mut GameState, synergies: &Vec<ActionSynergy>)
    ensures
        *final(state) == old(state).synergized(synergies@).derived(),
        final(state).stats_in_range(),
        old(state).differs_in_stats_only(*final(state)),
{
    let mut i: usize = 0;
    while i < synergies.len()
        invariant
            i <= synergies.len(),
            *state == old(state).synergized(synergies@.take(i as int)),
            old(state).differs_in_stats_only(*state),
        decreases synergies.len() - i,
    {
        assert(synergies@.take(i + 1).drop_last() =~= synergies@.take(i as int));
        state.boost_all(&synergies[i].bonus_effects);
        i = i + 1;
    }
    assert(synergies@.take(i as int) =~= synergies@);
    state.update_derived_metrics();
}

/// The four areas that actions fall into, and the rest.
#[derive(Debug, Clone, Copy, PartialEq, Eq, Structural)]
pub enum ActionCategory {
    Product,
    Growth,
    Ops,
    Team,
    Other,
}

impl ActionType {
    /// The area of a kind of action.
    pub open spec fn category(self) -> ActionCategory {
        match self {
            ActionType::ShipFeature | ActionType::RefactorCode | ActionType::RunExperiment =>
                ActionCategory::Product,
            ActionType::FounderLedSales | ActionType::ContentLaunch | ActionType::DevRel
            | ActionType::PaidAds => ActionCategory::Growth,
            ActionType::ComplianceWork | ActionType::IncidentResponse
            | ActionType::ProcessImprovement => ActionCategory::Ops,
            ActionType::Hire | ActionType::Coach | ActionType::Fire => ActionCategory::Team,
            _ => ActionCategory::Other,
        }
    }

    /// The area of a kind of action: product, growth, operations or team;
    /// fundraising and breaks belong to none of the four.
    pub fn area(&self) -> (category: ActionCategory)
        ensures
            category == self.category(),
    {
        match self {
            ActionType::ShipFeature | ActionType::RefactorCode | ActionType::RunExperiment =>
                ActionCategory::Product,
            ActionType::FounderLedSales | ActionType::ContentLaunch | ActionType::DevRel
            | ActionType::PaidAds => ActionCategory::Growth,
            ActionType::ComplianceWork | ActionType::IncidentResponse
            | ActionType::ProcessImprovement => ActionCategory::Ops,
            ActionType::Hire | ActionType::Coach | ActionType::Fire => ActionCategory::Team,
            _ => ActionCategory::Other,
        }
    }
}

/// Weeks of the action log that the specialization looks back on.
pub const SPECIALIZATION_WEEKS: usize = 8;

/// Number of actions of a category among `actions`.
pub open spec fn tally(actions: Seq<Action>, category: ActionCategory) -> nat
    decreases actions.len(),
{
    if actions.len() == 0 {
        0
    } else {
        tally(actions.drop_last(), category) + if actions.last().kind().category() == category {
            1nat
        } else {
            0nat
        }
    }
}

/// Number of actions of a category in the weeks `from..` of the log.
pub open spec fn tally_weeks(
    log: Seq<(u32, Vec<Action>)>,
    from: int,
    category: ActionCategory,
) -> nat
    decreases log.len() - from,
{
    if from >= log.len() || from < 0 {
        0
    } else {
        tally(log[from].1@, category) + tally_weeks(log, from + 1, category)
    }
}

/// Number of actions in the weeks `from..` of the log.
pub open spec fn size_weeks(log: Seq<(u32, Vec<Action>)>, from: int) -> nat
    decreases log.len() - from,
{
    if from >= log.len() || from < 0 {
        0
    } else {
        log[from].1@.len() + size_weeks(log, from + 1)
    }
}

/// First week of the log that the specialization looks at.
pub open spec fn lookback_start(log: Seq<(u32, Vec<Action>)>) -> int {
    if log.len() > SPECIALIZATION_WEEKS {
        log.len() - SPECIALIZATION_WEEKS
    } else {
        0
    }
}

/// The path that the counts amount to: a category holding at least 60
/// percent of the actions, tried in the order product, growth, operations,
/// and then growth plus half of team for customer obsession.
pub open spec fn path_of(
    product: int,
    growth: int,
    ops: int,
    team: int,
    total: int,
) -> Option<SpecializationPath> {
    if total <= 0 {
        None
    } else if product * 10 >= total * 6 {
        Some(SpecializationPath::ProductExcellence)
    } else if growth * 10 >= total * 6 {
        Some(SpecializationPath::GrowthHacking)
    } else if ops * 10 >= total * 6 {
        Some(SpecializationPath::OperationalEfficiency)
    } else if (2 * growth + team) * 10 >= total * 12 {
        Some(SpecializationPath::CustomerObsessed)
    } else {
        None
    }
}

/// The specialization that the last eight weeks of the log and the current
/// turn show.
pub open spec fn specialization_of(
    log: Seq<(u32, Vec<Action>)>,
    recent: Seq<Action>,
) -> Option<SpecializationPath> {
    let from = lookback_start(log);
    path_of(
        (tally_weeks(log, from, ActionCategory::Product) + tally(recent, ActionCategory::Product)) as int,
        (tally_weeks(log, from, ActionCategory::Growth) + tally(recent, ActionCategory::Growth)) as int,
        (tally_weeks(log, from, ActionCategory::Ops) + tally(recent, ActionCategory::Ops)) as int,
        (tally_weeks(log, from, ActionCategory::Team) + tally(recent, ActionCategory::Team)) as int,
        (size_weeks(log, from) + recent.len()) as int,
    )
}

/// Counts of the four categories among some actions.
pub struct CategoryCounts {
    pub product: u128,
    pub growth: u128,
    pub ops: u128,
    pub team: u128,
    pub total: u128,
}

/// A bound that no count of actions in memory can reach.
pub const COUNT_LIMIT: u128 = 0x1_0000_0000_0000_0000_0000;

/// Adds the actions to the counts.
fn count_actions(counts: &mut CategoryCounts, actions: &Vec<Action>)
    requires
        old(counts).total + actions@.len() <= COUNT_LIMIT,
        old(counts).product <= old(counts).total,
        old(counts).growth <= old(counts).total,
        old(counts).ops <= old(counts).total,
        old(counts).team <= old(counts).total,
    ensures
        final(counts).product == old(counts).product + tally(actions@, ActionCategory::Product),
        final(counts).growth == old(counts).growth + tally(actions@, ActionCategory::Growth),
        final(counts).ops == old(counts).ops + tally(actions@, ActionCategory::Ops),
        final(counts).team == old(counts).team + tally(actions@, ActionCategory::Team),
        final(counts).total == old(counts).total + actions@.len(),
        final(counts).product <= final(counts).total,
        final(counts).growth <= final(counts).total,
        final(counts).ops <= final(counts).total,
        final(counts).team <= final(counts).total,
{
    let mut i: usize = 0;
    while i < actions.len()
        invariant
            i <= actions.len(),
            old(counts).total + actions@.len() <= COUNT_LIMIT,
            counts.product == old(counts).product + tally(
                actions@.take(i as int),
                ActionCategory::Product,
            ),
            counts.growth == old(counts).growth + tally(
                actions@.take(i as int),
                ActionCategory::Growth,
            ),
            counts.ops == old(counts).ops + tally(actions@.take(i as int), ActionCategory::Ops),
            counts.team == old(counts).team + tally(actions@.take(i as int), ActionCategory::Team),
            counts.total == old(counts).total + i,
            counts.product <= counts.total,
            counts.growth <= counts.total,
            counts.ops <= counts.total,
            counts.team <= counts.total,
        decreases actions.len() - i,
    {
        assert(actions@.take(i + 1).drop_last() =~= actions@.take(i as int));
        assert(actions@.take(i + 1).last() == actions@[i as int]);
        match get_action_type(&actions[i]).area() {
            ActionCategory::Product => {
                counts.product = counts.product + 1;
            },
            ActionCategory::Growth => {
                counts.growth = counts.growth + 1;
            },
            ActionCategory::Ops => {
                counts.ops = counts.ops + 1;
            },
            ActionCategory::Team => {
                counts.team = counts.team + 1;
            },
            ActionCategory::Other => {},
        }
        counts.total = counts.total + 1;
        i = i + 1;
    }
    assert(actions@.take(i as int) =~= actions@);
}

/// The specialization that the counts amount to.
pub fn path_for_counts(counts: &CategoryCounts) -> (path: Option<SpecializationPath>)
    requires
        counts.product <= counts.total,
        counts.growth <= counts.total,
        counts.ops <= counts.total,
        counts.team <= counts.total,
        counts.total <= COUNT_LIMIT,
    ensures
        path == path_of(
            counts.product as int,
            counts.growth as int,
            counts.ops as int,
            counts.team as int,
            counts.total as int,
        ),
{
    let total = counts.total;
    if total == 0 {
        None
    } else if counts.product * 10 >= total * 6 {
        Some(SpecializationPath::ProductExcellence)
    } else if counts.growth * 10 >= total * 6 {
        Some(SpecializationPath::GrowthHacking)
    } else if counts.ops * 10 >= total * 6 {
        Some(SpecializationPath::OperationalEfficiency)
    } else if (2 * counts.growth + counts.team) * 10 >= total * 12 {
        Some(SpecializationPath::CustomerObsessed)
    } else {
        None
    }
}

/// Detects the specialization that the last eight weeks of the action log
/// and the current turn show: a category with at least 60 percent of the
/// actions, or growth plus half of team reaching 60 percent; `None` when no
/// action was taken or no share is that large.
pub fn detect_specialization_path(
    action_history: &Vec<(u32, Vec<Action>)>,
    recent_actions: &Vec<Action>,
) -> (path: Option<SpecializationPath>)
    ensures
        path == specialization_of(action_history@, recent_actions@),
{
    let mut counts = CategoryCounts { product: 0, growth: 0, ops: 0, team: 0, total: 0 };
    let start: usize = if action_history.len() > SPECIALIZATION_WEEKS {
        action_history.len() - SPECIALIZATION_WEEKS
    } else {
        0
    };
    let ghost log = action_history@;
    let mut week: usize = action_history.len();
    while week > start
        invariant
            start <= week <= action_history.len(),
            log == action_history@,
            start == lookback_start(log),
            counts.total <= (action_history.len() - week) * 0x1_0000_0000_0000_0000,
            action_history.len() - start <= SPECIALIZATION_WEEKS,
            counts.product == tally_weeks(log, week as int, ActionCategory::Product),
            counts.growth == tally_weeks(log, week as int, ActionCategory::Growth),
            counts.ops == tally_weeks(log, week as int, ActionCategory::Ops),
            counts.team == tally_weeks(log, week as int, ActionCategory::Team),
            counts.total == size_weeks(log, week as int),
            counts.product <= counts.total,
            counts.growth <= counts.total,
            counts.ops <= counts.total,
            counts.team <= counts.total,
        decreases week,
    {
        week = week - 1;
        let batch = &action_history[week].1;
        let size = batch.len();
        assert(size <= 0xffff_ffff_ffff_ffff);
        count_actions(&mut counts, batch);
    }
    let size = recent_actions.len();
    assert(size <= 0xffff_ffff_ffff_ffff);
    count_actions(&mut counts, recent_actions);
    path_for_counts(&counts)
}

} // verus!
