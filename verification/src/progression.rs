//! Unlocks, milestones and seasonal challenges.
use crate::actions::Action;
use crate::actions::AdChannel;
use crate::actions::CoachingFocus;
use crate::actions::ContentType;
use crate::actions::DevRelEvent;
use crate::actions::ExperimentType;
use crate::actions::FiringReason;
use crate::actions::Quality;
use crate::actions::RefactorDepth;
use crate::events_enhanced::EventId;
use crate::fixed::capped;
use crate::fixed::sum;
use crate::state::DifficultyMode;
use crate::state::GameState;
use crate::synergies::get_action_type;
use crate::synergies::ActionType;
use vstd::prelude::*;

verus! {

/// The temporary challenges of a year.
#[derive(Debug, Clone, Copy, PartialEq, Eq, Structural)]
pub enum ChallengeType {
    HiringFreeze,
    FeatureSprint,
    FundraisingWindow,
}

/// A temporary challenge; `difficulty_modifier` is in thousandths.
#[derive(Debug, Clone, Copy, PartialEq, Eq, Structural)]
pub struct SeasonalChallenge {
    pub week_trigger: u32,
    pub challenge_type: ChallengeType,
    pub difficulty_modifier: i64,
}

/// The metrics that an unlock may look at.
#[derive(Debug, Clone, Copy, PartialEq, Eq, Structural)]
pub enum Metric {
    Reputation,
    Wau,
    Mrr,
    TeamSize,
    IncidentCount,
}

/// The achievements that carry over into a new game.
#[derive(Debug, Clone, Copy, PartialEq, Eq, Structural)]
pub enum Achievement {
    Bootstrapper,
    GrowthMaster,
    EngineeringExcellence,
    TeamBuilder,
    ThoughtLeader,
    /// An achievement without a starting bonus.
    Other,
}

/// What must hold for an action to unlock. A metric is compared in
/// thousandths.
#[derive(Debug, Clone, Copy, PartialEq, Eq, Structural)]
pub enum UnlockCondition {
    ReachWeek(u32),
    AchieveMetric(Metric, i64),
    CompleteEvent(EventId),
    EarnAchievement(Achievement),
}

/// An action that unlocks during the game.
#[derive(Debug, Clone, Copy, PartialEq, Eq, Structural)]
pub struct UnlockableAction {
    pub action: Action,
    pub unlock_condition: UnlockCondition,
}

/// The milestones of the first year.
#[derive(Debug, Clone, Copy, PartialEq, Eq, Structural)]
pub enum Milestone {
    QuarterReview,
    HalfYear,
    ScalingChallenges,
    YearOneComplete,
}

/// A milestone that a week brings.
#[derive(Debug, Clone, Copy, PartialEq, Eq, Structural)]
pub struct MilestoneEvent {
    pub week: u32,
    pub milestone: Milestone,
}

/// Bonuses with which a new game starts.
#[derive(Debug, Clone, Copy, PartialEq, Eq, Structural)]
pub struct StartingBonuses {
    pub bank_bonus: i64,
    pub wau_bonus: u32,
    pub tech_debt_bonus: i64,
    pub morale_bonus: i64,
    pub reputation_bonus: i64,
}

/// Number of actions that unlock during the game.
pub const UNLOCKABLE_COUNT: usize = 10;

impl ActionType {
    /// The stable key of a kind of action.
    pub open spec fn key(self) -> Seq<char> {
        match self {
            ActionType::RefactorCode => "RefactorCode"@,
            ActionType::ContentLaunch => "ContentLaunch"@,
            ActionType::Coach => "Coach"@,
            ActionType::RunExperiment => "RunExperiment"@,
            ActionType::ComplianceWork => "ComplianceWork"@,
            ActionType::DevRel => "DevRel"@,
            ActionType::PaidAds => "PaidAds"@,
            ActionType::ProcessImprovement => "ProcessImprovement"@,
            ActionType::Fire => "Fire"@,
            ActionType::IncidentResponse => "IncidentResponse"@,
            ActionType::ShipFeature => "ShipFeature"@,
            ActionType::FounderLedSales => "FounderLedSales"@,
            ActionType::Hire => "Hire"@,
            ActionType::Fundraise => "Fundraise"@,
            ActionType::TakeBreak => "TakeBreak"@,
        }
    }

    /// The action that stands for a kind where a key is turned back into an
    /// action.
    pub open spec fn representative(self) -> Action {
        match self {
            ActionType::RefactorCode => Action::RefactorCode { depth: RefactorDepth::Surface },
            ActionType::ContentLaunch => Action::ContentLaunch { content_type: ContentType::BlogPost },
            ActionType::Coach => Action::Coach { focus: CoachingFocus::Skills },
            ActionType::RunExperiment => Action::RunExperiment { category: ExperimentType::Pricing },
            ActionType::ComplianceWork => Action::ComplianceWork { hours: 8 },
            ActionType::DevRel => Action::DevRel { event_type: DevRelEvent::Conference },
            ActionType::PaidAds => Action::PaidAds { budget: 20_000_000, channel: AdChannel::Google },
            ActionType::ProcessImprovement => Action::ProcessImprovement,
            ActionType::Fire => Action::Fire { reason: FiringReason::Performance },
            ActionType::IncidentResponse => Action::IncidentResponse,
            ActionType::ShipFeature => Action::ShipFeature { quality: Quality::Quick },
            ActionType::FounderLedSales => Action::FounderLedSales { call_count: 3 },
            ActionType::Hire => Action::Hire,
            ActionType::Fundraise => Action::Fundraise { target: 250_000_000 },
            ActionType::TakeBreak => Action::TakeBreak,
        }
    }
}

/// The stable key of a kind of action: the name of the kind.
pub fn kind_key(kind: ActionType) -> (key: String)
    ensures
        key@ == kind.key(),
{
    match kind {
        ActionType::RefactorCode => "RefactorCode".to_string(),
        ActionType::ContentLaunch => "ContentLaunch".to_string(),
        ActionType::Coach => "Coach".to_string(),
        ActionType::RunExperiment => "RunExperiment".to_string(),
        ActionType::ComplianceWork => "ComplianceWork".to_string(),
        ActionType::DevRel => "DevRel".to_string(),
        ActionType::PaidAds => "PaidAds".to_string(),
        ActionType::ProcessImprovement => "ProcessImprovement".to_string(),
        ActionType::Fire => "Fire".to_string(),
        ActionType::IncidentResponse => "IncidentResponse".to_string(),
        ActionType::ShipFeature => "ShipFeature".to_string(),
        ActionType::FounderLedSales => "FounderLedSales".to_string(),
        ActionType::Hire => "Hire".to_string(),
        ActionType::Fundraise => "Fundraise".to_string(),
        ActionType::TakeBreak => "TakeBreak".to_string(),
    }
}

/// The key under which an action is unlocked: the key of its kind,
/// whatever its parameters.
pub fn action_unlock_key(action: &Action) -> (key: String)
    ensures
        key@ == action.kind().key(),
{
    kind_key(get_action_type(action))
}

/// The kind of action that a key names, if it names one.
pub fn kind_from_key(key: &str) -> (kind: Option<ActionType>)
    ensures
        kind matches Some(k) ==> key@ == k.key(),
        kind.is_none() ==> forall|k: ActionType| key@ != k.key(),
{
    let owned = key.to_owned();
    if owned == "RefactorCode".to_owned() {
        Some(ActionType::RefactorCode)
    } else if owned == "ContentLaunch".to_owned() {
        Some(ActionType::ContentLaunch)
    } else if owned == "Coach".to_owned() {
        Some(ActionType::Coach)
    } else if owned == "RunExperiment".to_owned() {
        Some(ActionType::RunExperiment)
    } else if owned == "ComplianceWork".to_owned() {
        Some(ActionType::ComplianceWork)
    } else if owned == "DevRel".to_owned() {
        Some(ActionType::DevRel)
    } else if owned == "PaidAds".to_owned() {
        Some(ActionType::PaidAds)
    } else if owned == "ProcessImprovement".to_owned() {
        Some(ActionType::ProcessImprovement)
    } else if owned == "Fire".to_owned() {
        Some(ActionType::Fire)
    } else if owned == "IncidentResponse".to_owned() {
        Some(ActionType::IncidentResponse)
    } else if owned == "ShipFeature".to_owned() {
        Some(ActionType::ShipFeature)
    } else if owned == "FounderLedSales".to_owned() {
        Some(ActionType::FounderLedSales)
    } else if owned == "Hire".to_owned() {
        Some(ActionType::Hire)
    } else if owned == "Fundraise".to_owned() {
        Some(ActionType::Fundraise)
    } else if owned == "TakeBreak".to_owned() {
        Some(ActionType::TakeBreak)
    } else {
        None
    }
}

/// The representative action of a kind.
pub fn representative_action(kind: ActionType) -> (action: Action)
    ensures
        action == kind.representative(),
        action.kind() == kind,
{
    match kind {
        ActionType::RefactorCode => Action::RefactorCode { depth: RefactorDepth::Surface },
        ActionType::ContentLaunch => Action::ContentLaunch { content_type: ContentType::BlogPost },
        ActionType::Coach => Action::Coach { focus: CoachingFocus::Skills },
        ActionType::RunExperiment => Action::RunExperiment { category: ExperimentType::Pricing },
        ActionType::ComplianceWork => Action::ComplianceWork { hours: 8 },
        ActionType::DevRel => Action::DevRel { event_type: DevRelEvent::Conference },
        ActionType::PaidAds => Action::PaidAds { budget: 20_000_000, channel: AdChannel::Google },
        ActionType::ProcessImprovement => Action::ProcessImprovement,
        ActionType::Fire => Action::Fire { reason: FiringReason::Performance },
        ActionType::IncidentResponse => Action::IncidentResponse,
        ActionType::ShipFeature => Action::ShipFeature { quality: Quality::Quick },
        ActionType::FounderLedSales => Action::FounderLedSales { call_count: 3 },
        ActionType::Hire => Action::Hire,
        ActionType::Fundraise => Action::Fundraise { target: 250_000_000 },
        ActionType::TakeBreak => Action::TakeBreak,
    }
}

/// The action that a key unlocks: the representative of the kind that the
/// key names; `None` for a key that names no kind.
pub fn action_from_unlock_key(key: &str) -> (action: Option<Action>)
    ensures
        action matches Some(a) ==> key@ == a.kind().key() && a == a.kind().representative(),
        action.is_none() ==> forall|k: ActionType| key@ != k.key(),
{
    match kind_from_key(key) {
        Some(kind) => Some(representative_action(kind)),
        None => None,
    }
}

/// The action at a position of the list of unlockable actions, with its
/// condition.
pub open spec fn unlockable(i: int) -> UnlockableAction {
    if i == 0 {
        UnlockableAction {
            action: Action::RefactorCode { depth: RefactorDepth::Surface },
            unlock_condition: UnlockCondition::ReachWeek(5),
        }
    } else if i == 1 {
        UnlockableAction {
            action: Action::ContentLaunch { content_type: ContentType::BlogPost },
            unlock_condition: UnlockCondition::ReachWeek(5),
        }
    } else if i == 2 {
        UnlockableAction {
            action: Action::Coach { focus: CoachingFocus::Skills },
            unlock_condition: UnlockCondition::ReachWeek(5),
        }
    } else if i == 3 {
        UnlockableAction {
            action: Action::RunExperiment { category: ExperimentType::Pricing },
            unlock_condition: UnlockCondition::AchieveMetric(Metric::Wau, 500_000),
        }
    } else if i == 4 {
        UnlockableAction {
            action: Action::ComplianceWork { hours: 4 },
            unlock_condition: UnlockCondition::ReachWeek(9),
        }
    } else if i == 5 {
        UnlockableAction {
            action: Action::DevRel { event_type: DevRelEvent::Conference },
            unlock_condition: UnlockCondition::ReachWeek(13),
        }
    } else if i == 6 {
        UnlockableAction {
            action: Action::PaidAds { budget: 5_000_000, channel: AdChannel::Social },
            unlock_condition: UnlockCondition::ReachWeek(13),
        }
    } else if i == 7 {
        UnlockableAction {
            action: Action::ProcessImprovement,
            unlock_condition: UnlockCondition::ReachWeek(13),
        }
    } else if i == 8 {
        UnlockableAction {
            action: Action::Fire { reason: FiringReason::Performance },
            unlock_condition: UnlockCondition::AchieveMetric(Metric::TeamSize, 1_000),
        }
    } else {
        UnlockableAction {
            action: Action::IncidentResponse,
            unlock_condition: UnlockCondition::AchieveMetric(Metric::IncidentCount, 1_000),
        }
    }
}

/// The action at a position of the list of unlockable actions.
pub fn unlockable_at(i: usize) -> (entry: UnlockableAction)
    ensures
        entry == unlockable(i as int),
{
    if i == 0 {
        UnlockableAction {
            action: Action::RefactorCode { depth: RefactorDepth::Surface },
            unlock_condition: UnlockCondition::ReachWeek(5),
        }
    } else if i == 1 {
        UnlockableAction {
            action: Action::ContentLaunch { content_type: ContentType::BlogPost },
            unlock_condition: UnlockCondition::ReachWeek(5),
        }
    } else if i == 2 {
        UnlockableAction {
            action: Action::Coach { focus: CoachingFocus::Skills },
            unlock_condition: UnlockCondition::ReachWeek(5),
        }
    } else if i == 3 {
        UnlockableAction {
            action: Action::RunExperiment { category: ExperimentType::Pricing },
            unlock_condition: UnlockCondition::AchieveMetric(Metric::Wau, 500_000),
        }
    } else if i == 4 {
        UnlockableAction {
            action: Action::ComplianceWork { hours: 4 },
            unlock_condition: UnlockCondition::ReachWeek(9),
        }
    } else if i == 5 {
        UnlockableAction {
            action: Action::DevRel { event_type: DevRelEvent::Conference },
            unlock_condition: UnlockCondition::ReachWeek(13),
        }
    } else if i == 6 {
        UnlockableAction {
            action: Action::PaidAds { budget: 5_000_000, channel: AdChannel::Social },
            unlock_condition: UnlockCondition::ReachWeek(13),
        }
    } else if i == 7 {
        UnlockableAction {
            action: Action::ProcessImprovement,
            unlock_condition: UnlockCondition::ReachWeek(13),
        }
    } else if i == 8 {
        UnlockableAction {
            action: Action::Fire { reason: FiringReason::Performance },
            unlock_condition: UnlockCondition::AchieveMetric(Metric::TeamSize, 1_000),
        }
    } else {
        UnlockableAction {
            action: Action::IncidentResponse,
            unlock_condition: UnlockCondition::AchieveMetric(Metric::IncidentCount, 1_000),
        }
    }
}

impl UnlockCondition {
    /// Whether the state meets the condition. Conditions on events and
    /// achievements are never met by a state alone.
    pub open spec fn met_by(self, state: GameState) -> bool {
        match self {
            UnlockCondition::ReachWeek(week) => state.week >= week,
            UnlockCondition::AchieveMetric(metric, value) => match metric {
                Metric::Reputation => state.reputation >= value,
                Metric::Wau => state.wau * 1_000 >= value,
                Metric::Mrr => state.mrr >= value,
                Metric::TeamSize => state.team_size * 1_000 >= value,
                Metric::IncidentCount => state.incident_count * 1_000 >= value,
            },
            UnlockCondition::CompleteEvent(_) => false,
            UnlockCondition::EarnAchievement(_) => false,
        }
    }

    /// Whether the state meets the condition.
    pub fn is_met(&self, state: &GameState) -> (met: bool)
        ensures
            met == self.met_by(*state),
    {
        match self {
            UnlockCondition::ReachWeek(week) => state.week >= *week,
            UnlockCondition::AchieveMetric(metric, value) => match metric {
                Metric::Reputation => state.reputation >= *value,
                Metric::Wau => state.wau as i64 * 1_000 >= *value,
                Metric::Mrr => state.mrr >= *value,
                Metric::TeamSize => state.team_size as i64 * 1_000 >= *value,
                Metric::IncidentCount => state.incident_count as i64 * 1_000 >= *value,
            },
            UnlockCondition::CompleteEvent(_) => false,
            UnlockCondition::EarnAchievement(_) => false,
        }
    }
}

/// Whether the entry unlocks now: its kind is still locked and the state
/// meets its condition.
pub open spec fn unlocks_now(state: GameState, entry: UnlockableAction) -> bool {
    !state.unlocked().contains(entry.action.kind()) && entry.unlock_condition.met_by(state)
}

/// The actions among the first `n` unlockable ones that unlock now, in
/// order.
pub open spec fn newly_unlocked(state: GameState, n: int) -> Seq<Action>
    decreases n,
{
    if n <= 0 {
        Seq::<Action>::empty()
    } else if unlocks_now(state, unlockable(n - 1)) {
        newly_unlocked(state, n - 1).push(unlockable(n - 1).action)
    } else {
        newly_unlocked(state, n - 1)
    }
}

/// The actions that unlock in the current state: every unlockable action
/// whose kind is still locked and whose condition the state meets, in the
/// order of the list.
pub fn check_unlocks(state: &GameState) -> (unlocked: Vec<Action>)
    ensures
        unlocked@ == newly_unlocked(*state, UNLOCKABLE_COUNT as int),
{
    let mut unlocked: Vec<Action> = Vec::new();
    let mut n: usize = 0;
    while n < UNLOCKABLE_COUNT
        invariant
            n <= UNLOCKABLE_COUNT,
            unlocked@ == newly_unlocked(*state, n as int),
        decreases UNLOCKABLE_COUNT - n,
    {
        let entry = unlockable_at(n);
        if !state.is_action_unlocked(&entry.action) && entry.unlock_condition.is_met(state) {
            unlocked.push(entry.action);
        }
        n = n + 1;
    }
    unlocked
}

/// The kinds after the kinds of `actions` that are not among them yet have
/// been appended, in order.
pub open spec fn with_kinds(kinds: Seq<ActionType>, actions: Seq<Action>) -> Seq<ActionType>
    decreases actions.len(),
{
    if actions.len() == 0 {
        kinds
    } else {
        let before = with_kinds(kinds, actions.drop_last());
        if before.contains(actions.last().kind()) {
            before
        } else {
            before.push(actions.last().kind())
        }
    }
}

/// Records the kinds of the actions as unlocked; a kind that is unlocked
/// already is not recorded twice.
pub fn unlock_actions(state: &mut GameState, actions: &Vec<Action>)
    ensures
        final(state).unlocked_actions@ == with_kinds(old(state).unlocked_actions@, actions@),
        *final(state) == (GameState { unlocked_actions: final(state).unlocked_actions, ..*old(state) }),
{
    let mut i: usize = 0;
    while i < actions.len()
        invariant
            i <= actions.len(),
            state.unlocked_actions@ == with_kinds(old(state).unlocked_actions@, actions@.take(i as int)),
            *state == (GameState { unlocked_actions: state.unlocked_actions, ..*old(state) }),
        decreases actions.len() - i,
    {
        assert(actions@.take(i + 1).drop_last() =~= actions@.take(i as int));
        assert(actions@.take(i + 1).last() == actions@[i as int]);
        let kind = get_action_type(&actions[i]);
        if !state.is_kind_unlocked(kind) {
            state.unlocked_actions.push(kind);
        }
        i = i + 1;
    }
    assert(actions@.take(i as int) =~= actions@);
}

/// The actions that are always on offer.
pub open spec fn core_actions() -> Seq<Action> {
    seq![
        Action::ShipFeature { quality: Quality::Quick },
        Action::ShipFeature { quality: Quality::Balanced },
        Action::ShipFeature { quality: Quality::Polish },
        Action::FounderLedSales { call_count: 3 },
        Action::FounderLedSales { call_count: 5 },
        Action::Hire,
        Action::Fundraise { target: 250_000_000 },
        Action::Fundraise { target: 500_000_000 },
        Action::TakeBreak,
    ]
}

/// The actions that an unlocked kind puts on offer besides the core ones.
pub open spec fn offers(kind: ActionType) -> Seq<Action> {
    match kind {
        ActionType::RefactorCode => seq![
            Action::RefactorCode { depth: RefactorDepth::Surface },
            Action::RefactorCode { depth: RefactorDepth::Deep },
        ],
        ActionType::ContentLaunch => seq![
            Action::ContentLaunch { content_type: ContentType::BlogPost },
            Action::ContentLaunch { content_type: ContentType::Tutorial },
        ],
        ActionType::Coach => seq![Action::Coach { focus: CoachingFocus::Skills }],
        ActionType::RunExperiment => seq![
            Action::RunExperiment { category: ExperimentType::Pricing },
        ],
        ActionType::ComplianceWork => seq![Action::ComplianceWork { hours: 8 }],
        ActionType::DevRel => seq![Action::DevRel { event_type: DevRelEvent::Conference }],
        ActionType::PaidAds => seq![
            Action::PaidAds { budget: 20_000_000, channel: AdChannel::Google },
        ],
        ActionType::ProcessImprovement => seq![Action::ProcessImprovement],
        ActionType::Fire => seq![Action::Fire { reason: FiringReason::Performance }],
        ActionType::IncidentResponse => seq![Action::IncidentResponse],
        _ => Seq::<Action>::empty(),
    }
}

/// The list after each of `more` that is not in it yet has been appended.
pub open spec fn with_unique(list: Seq<Action>, more: Seq<Action>) -> Seq<Action>
    decreases more.len(),
{
    if more.len() == 0 {
        list
    } else {
        let before = with_unique(list, more.drop_last());
        if before.contains(more.last()) {
            before
        } else {
            before.push(more.last())
        }
    }
}

/// The actions on offer when the given kinds are unlocked: the core actions,
/// followed by what each kind offers, kind by kind, without repeats.
pub open spec fn available(kinds: Seq<ActionType>) -> Seq<Action>
    decreases kinds.len(),
{
    if kinds.len() == 0 {
        core_actions()
    } else {
        with_unique(available(kinds.drop_last()), offers(kinds.last()))
    }
}

/// The actions that an unlocked kind puts on offer besides the core ones.
pub fn offered_by(kind: ActionType) -> (actions: Vec<Action>)
    ensures
        actions@ == offers(kind),
{
    match kind {
        ActionType::RefactorCode => vec![
            Action::RefactorCode { depth: RefactorDepth::Surface },
            Action::RefactorCode { depth: RefactorDepth::Deep },
        ],
        ActionType::ContentLaunch => vec![
            Action::ContentLaunch { content_type: ContentType::BlogPost },
            Action::ContentLaunch { content_type: ContentType::Tutorial },
        ],
        ActionType::Coach => vec![Action::Coach { focus: CoachingFocus::Skills }],
        ActionType::RunExperiment => vec![
            Action::RunExperiment { category: ExperimentType::Pricing },
        ],
        ActionType::ComplianceWork => vec![Action::ComplianceWork { hours: 8 }],
        ActionType::DevRel => vec![Action::DevRel { event_type: DevRelEvent::Conference }],
        ActionType::PaidAds => vec![
            Action::PaidAds { budget: 20_000_000, channel: AdChannel::Google },
        ],
        ActionType::ProcessImprovement => vec![Action::ProcessImprovement],
        ActionType::Fire => vec![Action::Fire { reason: FiringReason::Performance }],
        ActionType::IncidentResponse => vec![Action::IncidentResponse],
        _ => Vec::new(),
    }
}

/// Whether the list holds the action.
pub fn holds_action(list: &Vec<Action>, action: Action) -> (found: bool)
    ensures
        found == list@.contains(action),
{
    let mut i: usize = 0;
    while i < list.len()
        invariant
            i <= list.len(),
            forall|j: int| 0 <= j < i ==> list@[j] != action,
        decreases list.len() - i,
    {
        if list[i] == action {
            return true;
        }
        i = i + 1;
    }
    false
}

/// Appends each of `more` that the list does not hold yet.
pub fn push_unique(list: &mut Vec<Action>, more: &Vec<Action>)
    ensures
        final(list)@ == with_unique(old(list)@, more@),
{
    let mut i: usize = 0;
    while i < more.len()
        invariant
            i <= more.len(),
            list@ == with_unique(old(list)@, more@.take(i as int)),
        decreases more.len() - i,
    {
        assert(more@.take(i + 1).drop_last() =~= more@.take(i as int));
        assert(more@.take(i + 1).last() == more@[i as int]);
        if !holds_action(list, more[i]) {
            list.push(more[i]);
        }
        i = i + 1;
    }
    assert(more@.take(i as int) =~= more@);
}

/// All the actions that may be submitted in the state: the core actions and
/// what the unlocked kinds offer.
pub fn get_available_actions(state: &GameState) -> (actions: Vec<Action>)
    ensures
        actions@ == available(state.unlocked_actions@),
{
    let mut actions: Vec<Action> = vec![
        Action::ShipFeature { quality: Quality::Quick },
        Action::ShipFeature { quality: Quality::Balanced },
        Action::ShipFeature { quality: Quality::Polish },
        Action::FounderLedSales { call_count: 3 },
        Action::FounderLedSales { call_count: 5 },
        Action::Hire,
        Action::Fundraise { target: 250_000_000 },
        Action::Fundraise { target: 500_000_000 },
        Action::TakeBreak,
    ];
    let mut i: usize = 0;
    while i < state.unlocked_actions.len()
        invariant
            i <= state.unlocked_actions.len(),
            actions@ == available(state.unlocked_actions@.take(i as int)),
        decreases state.unlocked_actions.len() - i,
    {
        assert(state.unlocked_actions@.take(i + 1).drop_last() =~= state.unlocked_actions@.take(
            i as int,
        ));
        assert(state.unlocked_actions@.take(i + 1).last() == state.unlocked_actions@[i as int]);
        let more = offered_by(state.unlocked_actions[i]);
        push_unique(&mut actions, &more);
        i = i + 1;
    }
    assert(state.unlocked_actions@.take(i as int) =~= state.unlocked_actions@);
    actions
}

/// The milestone of a week: the quarter review in week 12, the half-year
/// mark in week 26, the scaling challenges in week 39 and the end of year
/// one in week 52.
pub open spec fn milestone_of(week: u32) -> Option<MilestoneEvent> {
    if week == 12 {
        Some(MilestoneEvent { week: 12, milestone: Milestone::QuarterReview })
    } else if week == 26 {
        Some(MilestoneEvent { week: 26, milestone: Milestone::HalfYear })
    } else if week == 39 {
        Some(MilestoneEvent { week: 39, milestone: Milestone::ScalingChallenges })
    } else if week == 52 {
        Some(MilestoneEvent { week: 52, milestone: Milestone::YearOneComplete })
    } else {
        None
    }
}

/// The milestone that the current week brings, if any.
pub fn check_milestone_events(state: &GameState) -> (milestone: Option<MilestoneEvent>)
    ensures
        milestone == milestone_of(state.week),
{
    if state.week == 12 {
        Some(MilestoneEvent { week: 12, milestone: Milestone::QuarterReview })
    } else if state.week == 26 {
        Some(MilestoneEvent { week: 26, milestone: Milestone::HalfYear })
    } else if state.week == 39 {
        Some(MilestoneEvent { week: 39, milestone: Milestone::ScalingChallenges })
    } else if state.week == 52 {
        Some(MilestoneEvent { week: 52, milestone: Milestone::YearOneComplete })
    } else {
        None
    }
}

/// The seasonal challenge of a week: a hiring freeze in week 13, a feature
/// sprint in week 26 and a fundraising window in week 39.
pub open spec fn challenge_of(week: u32) -> Option<SeasonalChallenge> {
    if week == 13 {
        Some(
            SeasonalChallenge {
                week_trigger: 13,
                challenge_type: ChallengeType::HiringFreeze,
                difficulty_modifier: 1_200,
            },
        )
    } else if week == 26 {
        Some(
            SeasonalChallenge {
                week_trigger: 26,
                challenge_type: ChallengeType::FeatureSprint,
                difficulty_modifier: 1_500,
            },
        )
    } else if week == 39 {
        Some(
            SeasonalChallenge {
                week_trigger: 39,
                challenge_type: ChallengeType::FundraisingWindow,
                difficulty_modifier: 800,
            },
        )
    } else {
        None
    }
}

/// The seasonal challenge that a week brings, if any. The difficulty plays
/// no part.
pub fn generate_seasonal_challenge(
    week: u32,
    _difficulty: &DifficultyMode,
) -> (challenge: Option<SeasonalChallenge>)
    ensures
        challenge == challenge_of(week),
{
    if week == 13 {
        Some(
            SeasonalChallenge {
                week_trigger: 13,
                challenge_type: ChallengeType::HiringFreeze,
                difficulty_modifier: 1_200,
            },
        )
    } else if week == 26 {
        Some(
            SeasonalChallenge {
                week_trigger: 26,
                challenge_type: ChallengeType::FeatureSprint,
                difficulty_modifier: 1_500,
            },
        )
    } else if week == 39 {
        Some(
            SeasonalChallenge {
                week_trigger: 39,
                challenge_type: ChallengeType::FundraisingWindow,
                difficulty_modifier: 800,
            },
        )
    } else {
        None
    }
}

/// No starting bonus.
pub open spec fn no_bonuses() -> StartingBonuses {
    StartingBonuses {
        bank_bonus: 0,
        wau_bonus: 0,
        tech_debt_bonus: 0,
        morale_bonus: 0,
        reputation_bonus: 0,
    }
}

/// The bonuses after one more achievement: $20,000 for a bootstrapper, 100
/// users for a growth master, 10 less tech debt for engineering excellence,
/// 10 morale for a team builder, 15 reputation for a thought leader.
pub open spec fn with_achievement(
    bonuses: StartingBonuses,
    achievement: Achievement,
) -> StartingBonuses {
    match achievement {
        Achievement::Bootstrapper => StartingBonuses {
            bank_bonus: capped(bonuses.bank_bonus + 20_000_000),
            ..bonuses
        },
        Achievement::GrowthMaster => StartingBonuses {
            wau_bonus: if bonuses.wau_bonus <= u32::MAX - 100 {
                (bonuses.wau_bonus + 100) as u32
            } else {
                u32::MAX
            },
            ..bonuses
        },
        Achievement::EngineeringExcellence => StartingBonuses {
            tech_debt_bonus: capped(bonuses.tech_debt_bonus - 10_000),
            ..bonuses
        },
        Achievement::TeamBuilder => StartingBonuses {
            morale_bonus: capped(bonuses.morale_bonus + 10_000),
            ..bonuses
        },
        Achievement::ThoughtLeader => StartingBonuses {
            reputation_bonus: capped(bonuses.reputation_bonus + 15_000),
            ..bonuses
        },
        Achievement::Other => bonuses,
    }
}

/// The bonuses that the achievements add up to.
pub open spec fn bonuses_for(achievements: Seq<Achievement>) -> StartingBonuses
    decreases achievements.len(),
{
    if achievements.len() == 0 {
        no_bonuses()
    } else {
        with_achievement(bonuses_for(achievements.drop_last()), achievements.last())
    }
}

/// The starting bonuses that the achievements earn, each achievement
/// counting as often as it occurs.
pub fn calculate_meta_progression_bonuses(
    achievements: &Vec<Achievement>,
) -> (bonuses: StartingBonuses)
    ensures
        bonuses == bonuses_for(achievements@),
{
    let mut bonuses = StartingBonuses {
        bank_bonus: 0,
        wau_bonus: 0,
        tech_debt_bonus: 0,
        morale_bonus: 0,
        reputation_bonus: 0,
    };
    let mut i: usize = 0;
    while i < achievements.len()
        invariant
            i <= achievements.len(),
            bonuses == bonuses_for(achievements@.take(i as int)),
        decreases achievements.len() - i,
    {
        assert(achievements@.take(i + 1).drop_last() =~= achievements@.take(i as int));
        match achievements[i] {
            Achievement::Bootstrapper => {
                bonuses.bank_bonus = sum(bonuses.bank_bonus, 20_000_000);
            },
            Achievement::GrowthMaster => {
                bonuses.wau_bonus = if bonuses.wau_bonus <= u32::MAX - 100 {
                    bonuses.wau_bonus + 100
                } else {
                    u32::MAX
                };
            },
            Achievement::EngineeringExcellence => {
                bonuses.tech_debt_bonus = sum(bonuses.tech_debt_bonus, -10_000);
            },
            Achievement::TeamBuilder => {
                bonuses.morale_bonus = sum(bonuses.morale_bonus, 10_000);
            },
            Achievement::ThoughtLeader => {
                bonuses.reputation_bonus = sum(bonuses.reputation_bonus, 15_000);
            },
            Achievement::Other => {},
        }
        i = i + 1;
    }
    assert(achievements@.take(i as int) =~= achievements@);
    bonuses
}

} // verus!
