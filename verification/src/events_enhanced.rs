//! Conditional events: the catalog, the weekly evaluation pass with its
//! cooldowns and cap, and the application of a chosen option.
use crate::actions::Stat;
use crate::chance::GameRng;
use crate::chance::Trial;
use crate::competitors::Competitor;
use crate::competitors::FundingStage;
use crate::competitors::PricingStrategy;
use crate::compounding::consecutive_weeks;
use crate::compounding::count_consecutive_weeks;
use crate::compounding::SnapshotTest;
use crate::customers::Customer;
use crate::customers::CustomerLifecycle;
use crate::customers::CustomerSegment;
use crate::fixed::scale;
use crate::fixed::scaled;
use crate::state::DifficultyMode;
use crate::state::GameState;
use crate::state::WeekSnapshot;
use std::collections::HashMap;
use vstd::prelude::*;

verus! {

/// Number of events in the catalog.
pub const EVENT_COUNT: usize = 36;

/// Number of events in the catalog, as a bound on the keys of their
/// cooldowns.
pub const EVENT_KEYS: u64 = 36;

/// Most events that one week may bring.
pub const WEEKLY_EVENT_CAP: usize = 2;

/// The events of the catalog.
#[derive(Debug, Clone, Copy, PartialEq, Eq, Hash, Structural)]
pub enum EventId {
    TechDebtCrisis,
    ViralMoment,
    MajorClientDeal,
    CustomerChurnWarning,
    BigLogoSigns,
    CustomerChampion,
    CompetitorFeatureLaunch,
    PricingWar,
    CompetitorFunding,
    CompetitorAcquisitionOpportunity,
    TalentPoaching,
    CompetitorPivot,
    VcOffer,
    KeyEmployeeBurnout,
    CompetitorLaunch,
    PivotOpportunity,
    AcquisitionOffer,
    KeyPartnership,
    TeamConflict,
    PressOpportunity,
    TechnicalRewrite,
    CompetitorAcquisition,
    RegulatoryAudit,
    ViralMomentGoneWrong,
    FounderHealthCrisis,
    PressMention,
    CustomerTestimonial,
    CompetitorFailure,
    TalentJoins,
    ServerOutage,
    CustomerComplaint,
    CompetitorFeature,
    KeyPersonSick,
    MarketShift,
    NewRegulation,
    IndustryTrend,
}

impl EventId {
    /// Position of the event in the catalog.
    pub open spec fn position(self) -> int {
        match self {
            EventId::TechDebtCrisis => 0,
            EventId::ViralMoment => 1,
            EventId::MajorClientDeal => 2,
            EventId::CustomerChurnWarning => 3,
            EventId::BigLogoSigns => 4,
            EventId::CustomerChampion => 5,
            EventId::CompetitorFeatureLaunch => 6,
            EventId::PricingWar => 7,
            EventId::CompetitorFunding => 8,
            EventId::CompetitorAcquisitionOpportunity => 9,
            EventId::TalentPoaching => 10,
            EventId::CompetitorPivot => 11,
            EventId::VcOffer => 12,
            EventId::KeyEmployeeBurnout => 13,
            EventId::CompetitorLaunch => 14,
            EventId::PivotOpportunity => 15,
            EventId::AcquisitionOffer => 16,
            EventId::KeyPartnership => 17,
            EventId::TeamConflict => 18,
            EventId::PressOpportunity => 19,
            EventId::TechnicalRewrite => 20,
            EventId::CompetitorAcquisition => 21,
            EventId::RegulatoryAudit => 22,
            EventId::ViralMomentGoneWrong => 23,
            EventId::FounderHealthCrisis => 24,
            EventId::PressMention => 25,
            EventId::CustomerTestimonial => 26,
            EventId::CompetitorFailure => 27,
            EventId::TalentJoins => 28,
            EventId::ServerOutage => 29,
            EventId::CustomerComplaint => 30,
            EventId::CompetitorFeature => 31,
            EventId::KeyPersonSick => 32,
            EventId::MarketShift => 33,
            EventId::NewRegulation => 34,
            EventId::IndustryTrend => 35,
        }
    }

    /// Weeks for which the event stays away after it has fired.
    pub open spec fn cooldown(self) -> u32 {
        match self {
            EventId::TechDebtCrisis => 8,
            EventId::ViralMoment => 12,
            EventId::MajorClientDeal => 10,
            EventId::CustomerChurnWarning => 6,
            EventId::BigLogoSigns => 8,
            EventId::CustomerChampion => 10,
            EventId::CompetitorFeatureLaunch => 8,
            EventId::PricingWar => 10,
            EventId::CompetitorFunding => 12,
            EventId::CompetitorAcquisitionOpportunity => 16,
            EventId::TalentPoaching => 10,
            EventId::CompetitorPivot => 20,
            EventId::VcOffer => 16,
            EventId::KeyEmployeeBurnout => 12,
            EventId::CompetitorLaunch => 6,
            EventId::PivotOpportunity => 16,
            EventId::AcquisitionOffer => 20,
            EventId::KeyPartnership => 12,
            EventId::TeamConflict => 10,
            EventId::PressOpportunity => 14,
            EventId::TechnicalRewrite => 18,
            EventId::CompetitorAcquisition => 15,
            EventId::RegulatoryAudit => 12,
            EventId::ViralMomentGoneWrong => 10,
            EventId::FounderHealthCrisis => 20,
            EventId::PressMention => 4,
            EventId::CustomerTestimonial => 6,
            EventId::CompetitorFailure => 8,
            EventId::TalentJoins => 10,
            EventId::ServerOutage => 3,
            EventId::CustomerComplaint => 5,
            EventId::CompetitorFeature => 7,
            EventId::KeyPersonSick => 9,
            EventId::MarketShift => 12,
            EventId::NewRegulation => 15,
            EventId::IndustryTrend => 10,
        }
    }

    /// Position of the event in the catalog.
    pub fn index(&self) -> (i: usize)
        ensures
            i == self.position(),
            i < EVENT_COUNT,
    {
        match self {
            EventId::TechDebtCrisis => 0,
            EventId::ViralMoment => 1,
            EventId::MajorClientDeal => 2,
            EventId::CustomerChurnWarning => 3,
            EventId::BigLogoSigns => 4,
            EventId::CustomerChampion => 5,
            EventId::CompetitorFeatureLaunch => 6,
            EventId::PricingWar => 7,
            EventId::CompetitorFunding => 8,
            EventId::CompetitorAcquisitionOpportunity => 9,
            EventId::TalentPoaching => 10,
            EventId::CompetitorPivot => 11,
            EventId::VcOffer => 12,
            EventId::KeyEmployeeBurnout => 13,
            EventId::CompetitorLaunch => 14,
            EventId::PivotOpportunity => 15,
            EventId::AcquisitionOffer => 16,
            EventId::KeyPartnership => 17,
            EventId::TeamConflict => 18,
            EventId::PressOpportunity => 19,
            EventId::TechnicalRewrite => 20,
            EventId::CompetitorAcquisition => 21,
            EventId::RegulatoryAudit => 22,
            EventId::ViralMomentGoneWrong => 23,
            EventId::FounderHealthCrisis => 24,
            EventId::PressMention => 25,
            EventId::CustomerTestimonial => 26,
            EventId::CompetitorFailure => 27,
            EventId::TalentJoins => 28,
            EventId::ServerOutage => 29,
            EventId::CustomerComplaint => 30,
            EventId::CompetitorFeature => 31,
            EventId::KeyPersonSick => 32,
            EventId::MarketShift => 33,
            EventId::NewRegulation => 34,
            EventId::IndustryTrend => 35,
        }
    }

    /// Weeks for which the event stays away after it has fired.
    pub fn cooldown_weeks(&self) -> (weeks: u32)
        ensures
            weeks == self.cooldown(),
            weeks >= 1,
    {
        match self {
            EventId::TechDebtCrisis => 8,
            EventId::ViralMoment => 12,
            EventId::MajorClientDeal => 10,
            EventId::CustomerChurnWarning => 6,
            EventId::BigLogoSigns => 8,
            EventId::CustomerChampion => 10,
            EventId::CompetitorFeatureLaunch => 8,
            EventId::PricingWar => 10,
            EventId::CompetitorFunding => 12,
            EventId::CompetitorAcquisitionOpportunity => 16,
            EventId::TalentPoaching => 10,
            EventId::CompetitorPivot => 20,
            EventId::VcOffer => 16,
            EventId::KeyEmployeeBurnout => 12,
            EventId::CompetitorLaunch => 6,
            EventId::PivotOpportunity => 16,
            EventId::AcquisitionOffer => 20,
            EventId::KeyPartnership => 12,
            EventId::TeamConflict => 10,
            EventId::PressOpportunity => 14,
            EventId::TechnicalRewrite => 18,
            EventId::CompetitorAcquisition => 15,
            EventId::RegulatoryAudit => 12,
            EventId::ViralMomentGoneWrong => 10,
            EventId::FounderHealthCrisis => 20,
            EventId::PressMention => 4,
            EventId::CustomerTestimonial => 6,
            EventId::CompetitorFailure => 8,
            EventId::TalentJoins => 10,
            EventId::ServerOutage => 3,
            EventId::CustomerComplaint => 5,
            EventId::CompetitorFeature => 7,
            EventId::KeyPersonSick => 9,
            EventId::MarketShift => 12,
            EventId::NewRegulation => 15,
            EventId::IndustryTrend => 10,
        }
    }
}

/// Weeks that remain, per event, until the event may fire again. The map is
/// keyed by the event's position in the catalog. An event without an entry
/// is ready, as is one whose entry is zero.
#[derive(Debug, Clone)]
pub struct Cooldowns {
    pub weeks: HashMap<u64, u32>,
}

/// A cooldown one week later: it counts down to zero and stays there.
pub open spec fn ticked(weeks: u32) -> u32 {
    if weeks > 0 {
        (weeks - 1) as u32
    } else {
        0
    }
}

/// Weeks that a map of cooldowns holds under a key; zero without an entry.
pub open spec fn weeks_under(weeks: Map<u64, u32>, key: u64) -> u32 {
    if weeks.contains_key(key) {
        weeks[key]
    } else {
        0
    }
}

impl Cooldowns {
    /// Weeks that remain for the event; zero when it is ready.
    pub open spec fn remaining(self, id: EventId) -> u32 {
        weeks_under(self.weeks@, id.position() as u64)
    }

    /// Every event is ready.
    pub fn new() -> (cooldowns: Cooldowns)
        ensures
            cooldowns.weeks@ == Map::<u64, u32>::empty(),
            forall|id: EventId| cooldowns.remaining(id) == 0,
    {
        Cooldowns { weeks: HashMap::new() }
    }

    /// Weeks that remain for the event.
    pub fn get(&self, id: EventId) -> (weeks: u32)
        ensures
            weeks == self.remaining(id),
    {
        let key: u64 = id.index() as u64;
        match self.weeks.get(&key) {
            Some(weeks) => *weeks,
            None => 0,
        }
    }

    /// Sets the weeks that remain for one event and leaves the others as
    /// they are.
    pub fn set(&mut self, id: EventId, weeks: u32)
        ensures
            final(self).weeks@ == old(self).weeks@.insert(id.position() as u64, weeks),
            final(self).remaining(id) == weeks,
            forall|other: EventId| other != id ==> final(self).remaining(other) == old(self).remaining(other),
    {
        let key: u64 = id.index() as u64;
        self.weeks.insert(key, weeks);
    }

    /// Lets one week pass: the cooldown of every event of the catalog that
    /// is above zero goes down by one. Entries under other keys stay.
    pub fn tick(&mut self)
        ensures
            forall|id: EventId| final(self).remaining(id) == ticked(old(self).remaining(id)),
            forall|k: u64|
                k >= EVENT_KEYS ==> #[trigger] weeks_under(final(self).weeks@, k) == weeks_under(
                    old(self).weeks@,
                    k,
                ),
    {
        let mut key: u64 = 0;
        while key < EVENT_KEYS
            invariant
                key <= EVENT_KEYS,
                forall|k: u64|
                    k < key ==> #[trigger] weeks_under(self.weeks@, k) == ticked(
                        weeks_under(old(self).weeks@, k),
                    ),
                forall|k: u64|
                    k >= key ==> #[trigger] weeks_under(self.weeks@, k) == weeks_under(
                        old(self).weeks@,
                        k,
                    ),
            decreases EVENT_KEYS - key,
        {
            let ghost earlier = self.weeks@;
            let left: u32 = match self.weeks.get(&key) {
                Some(weeks) => *weeks,
                None => 0,
            };
            if left > 0 {
                self.weeks.insert(key, left - 1);
            }
            proof {
                assert(left == weeks_under(earlier, key));
                assert(weeks_under(self.weeks@, key) == ticked(left));
                assert forall|k: u64| k != key implies #[trigger] weeks_under(self.weeks@, k)
                    == weeks_under(earlier, k) by {}
            }
            key = key + 1;
        }
    }
}

/// Whether the event is off cooldown.
pub fn can_trigger_event(cooldowns: &Cooldowns, id: EventId) -> (ready: bool)
    ensures
        ready == (cooldowns.remaining(id) == 0),
{
    cooldowns.get(id) == 0
}

/// One effect of an event on one stat, in thousandths.
#[derive(Debug, Clone, Copy, PartialEq, Eq, Structural)]
pub struct EventEffect {
    pub stat: Stat,
    pub change: i64,
}

/// One option of a dilemma.
#[derive(Debug, Clone)]
pub struct EventChoice {
    pub effects: Vec<EventEffect>,
}

/// What an event asks of the player.
#[derive(Debug, Clone)]
pub enum EnhancedEventType {
    /// The effects are applied at once.
    Automatic { effects: Vec<EventEffect> },
    /// The player picks one of the choices.
    Dilemma { choices: Vec<EventChoice> },
}

/// An event that has fired.
#[derive(Debug, Clone)]
pub struct GameEvent {
    pub id: EventId,
    pub week: u32,
    pub event_type: EnhancedEventType,
    pub cooldown_weeks: u32,
    /// The event that this one makes likely later on.
    pub follow_up_event_id: Option<EventId>,
    /// The factor, in thousandths, by which the difficulty scales effects.
    pub difficulty_modifier: i64,
}

/// What the effects of an event are computed from: the difficulty factor,
/// three stats as they stand when the event fires, the size of the deal on
/// offer and the revenue of the customer the event is about.
#[derive(Debug, Clone, Copy, PartialEq, Eq, Structural)]
pub struct EventContext {
    pub modifier: i64,
    pub mrr: i64,
    pub burn: i64,
    /// Weekly active users, in thousandths.
    pub users: i64,
    pub deal_size: i64,
    pub customer_mrr: i64,
}

/// The customers and competitors that this week's events are about.
#[derive(Debug, Clone, Copy, PartialEq, Eq, Structural)]
pub struct Picks {
    /// A customer drawn from all customers.
    pub customer: Option<usize>,
    /// A customer drawn from the enterprise segment.
    pub enterprise: Option<usize>,
    /// A competitor drawn from those still in the market.
    pub rival: Option<usize>,
    /// The most threatening competitor.
    pub threat: Option<usize>,
}

/// An effect whose size is scaled by the difficulty.
pub open spec fn flat(stat: Stat, amount: int, ctx: EventContext) -> EventEffect {
    EventEffect { stat, change: scaled(amount, ctx.modifier as int, 1_000) }
}

/// An effect that is a share of a quantity, scaled by the difficulty.
pub open spec fn share(stat: Stat, base: i64, factor: int, ctx: EventContext) -> EventEffect {
    EventEffect {
        stat,
        change: scaled(scaled(base as int, factor, 1_000) as int, ctx.modifier as int, 1_000),
    }
}

/// An effect whose size does not depend on the difficulty.
pub open spec fn fixed(stat: Stat, amount: int) -> EventEffect {
    EventEffect { stat, change: amount as i64 }
}

/// The factor by which a difficulty scales the effects of events.
pub open spec fn difficulty_factor(difficulty: DifficultyMode) -> i64 {
    match difficulty {
        DifficultyMode::IndieBootstrap => 1_000,
        DifficultyMode::VCTrack => 1_200,
        DifficultyMode::RegulatedFintech => 1_500,
        DifficultyMode::InfraDevTool => 1_300,
    }
}

impl EventId {
    /// The event at a position of the catalog.
    pub open spec fn at(i: int) -> EventId {
        if i == 0 {
            EventId::TechDebtCrisis
        } else if i == 1 {
            EventId::ViralMoment
        } else if i == 2 {
            EventId::MajorClientDeal
        } else if i == 3 {
            EventId::CustomerChurnWarning
        } else if i == 4 {
            EventId::BigLogoSigns
        } else if i == 5 {
            EventId::CustomerChampion
        } else if i == 6 {
            EventId::CompetitorFeatureLaunch
        } else if i == 7 {
            EventId::PricingWar
        } else if i == 8 {
            EventId::CompetitorFunding
        } else if i == 9 {
            EventId::CompetitorAcquisitionOpportunity
        } else if i == 10 {
            EventId::TalentPoaching
        } else if i == 11 {
            EventId::CompetitorPivot
        } else if i == 12 {
            EventId::VcOffer
        } else if i == 13 {
            EventId::KeyEmployeeBurnout
        } else if i == 14 {
            EventId::CompetitorLaunch
        } else if i == 15 {
            EventId::PivotOpportunity
        } else if i == 16 {
            EventId::AcquisitionOffer
        } else if i == 17 {
            EventId::KeyPartnership
        } else if i == 18 {
            EventId::TeamConflict
        } else if i == 19 {
            EventId::PressOpportunity
        } else if i == 20 {
            EventId::TechnicalRewrite
        } else if i == 21 {
            EventId::CompetitorAcquisition
        } else if i == 22 {
            EventId::RegulatoryAudit
        } else if i == 23 {
            EventId::ViralMomentGoneWrong
        } else if i == 24 {
            EventId::FounderHealthCrisis
        } else if i == 25 {
            EventId::PressMention
        } else if i == 26 {
            EventId::CustomerTestimonial
        } else if i == 27 {
            EventId::CompetitorFailure
        } else if i == 28 {
            EventId::TalentJoins
        } else if i == 29 {
            EventId::ServerOutage
        } else if i == 30 {
            EventId::CustomerComplaint
        } else if i == 31 {
            EventId::CompetitorFeature
        } else if i == 32 {
            EventId::KeyPersonSick
        } else if i == 33 {
            EventId::MarketShift
        } else if i == 34 {
            EventId::NewRegulation
        } else {
            EventId::IndustryTrend
        }
    }

    /// Chance, per mille, that the event fires in a week in which it may.
    pub open spec fn chance(self) -> i64 {
        match self {
            EventId::TechDebtCrisis => 300,
            EventId::ViralMoment => 150,
            EventId::MajorClientDeal => 200,
            EventId::CustomerChurnWarning => 250,
            EventId::BigLogoSigns => 250,
            EventId::CustomerChampion => 200,
            EventId::CompetitorFeatureLaunch => 200,
            EventId::PricingWar => 150,
            EventId::CompetitorFunding => 250,
            EventId::CompetitorAcquisitionOpportunity => 100,
            EventId::TalentPoaching => 120,
            EventId::CompetitorPivot => 80,
            EventId::VcOffer => 150,
            EventId::KeyEmployeeBurnout => 250,
            EventId::CompetitorLaunch => 100,
            EventId::PivotOpportunity => 400,
            EventId::AcquisitionOffer => 200,
            EventId::KeyPartnership => 150,
            EventId::TeamConflict => 300,
            EventId::PressOpportunity => 200,
            EventId::TechnicalRewrite => 350,
            EventId::CompetitorAcquisition => 100,
            EventId::RegulatoryAudit => 400,
            EventId::ViralMomentGoneWrong => 250,
            EventId::FounderHealthCrisis => 300,
            EventId::PressMention => 50,
            EventId::CustomerTestimonial => 30,
            EventId::CompetitorFailure => 20,
            EventId::TalentJoins => 40,
            EventId::ServerOutage => 60,
            EventId::CustomerComplaint => 40,
            EventId::CompetitorFeature => 30,
            EventId::KeyPersonSick => 20,
            EventId::MarketShift => 30,
            EventId::NewRegulation => 20,
            EventId::IndustryTrend => 40,
        }
    }

    /// Whether the event asks the player to choose.
    pub open spec fn is_dilemma(self) -> bool {
        match self {
            EventId::CompetitorPivot
            | EventId::CompetitorLaunch
            | EventId::PressMention
            | EventId::CustomerTestimonial
            | EventId::CompetitorFailure
            | EventId::TalentJoins
            | EventId::ServerOutage
            | EventId::CustomerComplaint
            | EventId::CompetitorFeature
            | EventId::KeyPersonSick
            | EventId::MarketShift
            | EventId::NewRegulation
            | EventId::IndustryTrend => false,
            _ => true,
        }
    }

    /// The event that this one makes likely later on.
    pub open spec fn follow_up(self) -> Option<EventId> {
        match self {
            EventId::ViralMoment => Some(EventId::ViralMomentGoneWrong),
            _ => None,
        }
    }

    /// Number of options of a dilemma; one for an automatic event.
    pub open spec fn option_count(self) -> nat {
        match self {
            EventId::BigLogoSigns
            | EventId::CustomerChampion
            | EventId::CompetitorFeatureLaunch
            | EventId::PricingWar
            | EventId::CompetitorFunding
            | EventId::CompetitorAcquisitionOpportunity
            | EventId::TalentPoaching
            | EventId::TeamConflict
            | EventId::TechnicalRewrite => 3,
            EventId::CompetitorPivot
            | EventId::CompetitorLaunch
            | EventId::PressMention
            | EventId::CustomerTestimonial
            | EventId::CompetitorFailure
            | EventId::TalentJoins
            | EventId::ServerOutage
            | EventId::CustomerComplaint
            | EventId::CompetitorFeature
            | EventId::KeyPersonSick
            | EventId::MarketShift
            | EventId::NewRegulation
            | EventId::IndustryTrend => 1,
            _ => 2,
        }
    }

    /// The effects of option `choice` of the event (of the event itself, for
    /// an automatic one), computed from the context.
    pub open spec fn effects_of(self, choice: int, ctx: EventContext) -> Seq<EventEffect> {
        match self {
            EventId::TechDebtCrisis => {
                if choice == 0 {
                    seq![
                        flat(Stat::Morale, -15_000, ctx),
                        flat(Stat::Reputation, -10_000, ctx),
                        flat(Stat::Velocity, -150, ctx),
                    ]
                } else if choice == 1 {
                    seq![
                        flat(Stat::Morale, -5_000, ctx),
                        flat(Stat::TechDebt, -10_000, ctx),
                        flat(Stat::Reputation, 5_000, ctx),
                        flat(Stat::Wau, -50_000, ctx),
                    ]
                } else {
                    Seq::<EventEffect>::empty()
                }
            },
            EventId::ViralMoment => {
                if choice == 0 {
                    seq![
                        flat(Stat::Wau, 5_000_000, ctx),
                        flat(Stat::Burn, 2_000_000, ctx),
                        flat(Stat::Reputation, 15_000, ctx),
                    ]
                } else if choice == 1 {
                    seq![flat(Stat::Wau, 2_000_000, ctx), flat(Stat::Reputation, -5_000, ctx)]
                } else {
                    Seq::<EventEffect>::empty()
                }
            },
            EventId::MajorClientDeal => {
                if choice == 0 {
                    seq![
                        share(Stat::Mrr, ctx.deal_size, 1_000, ctx),
                        flat(Stat::Morale, -20_000, ctx),
                        flat(Stat::TechDebt, 25_000, ctx),
                        flat(Stat::Reputation, 10_000, ctx),
                    ]
                } else if choice == 1 {
                    seq![
                        share(Stat::Mrr, ctx.deal_size, 600, ctx),
                        flat(Stat::Morale, 5_000, ctx),
                        flat(Stat::TechDebt, -5_000, ctx),
                    ]
                } else {
                    Seq::<EventEffect>::empty()
                }
            },
            EventId::CustomerChurnWarning => {
                if choice == 0 {
                    seq![flat(Stat::Morale, 5_000, ctx), flat(Stat::Nps, 5_000, ctx)]
                } else if choice == 1 {
                    seq![
                        flat(Stat::Focus, 1_000, ctx),
                        share(Stat::Mrr, ctx.customer_mrr, -1_000, ctx),
                    ]
                } else {
                    Seq::<EventEffect>::empty()
                }
            },
            EventId::BigLogoSigns => {
                if choice == 0 {
                    seq![flat(Stat::Reputation, 15_000, ctx), flat(Stat::Focus, -1_000, ctx)]
                } else if choice == 1 {
                    seq![flat(Stat::Reputation, 5_000, ctx)]
                } else if choice == 2 {
                    seq![flat(Stat::Nps, 3_000, ctx)]
                } else {
                    Seq::<EventEffect>::empty()
                }
            },
            EventId::CustomerChampion => {
                if choice == 0 {
                    seq![
                        flat(Stat::Reputation, 20_000, ctx),
                        flat(Stat::Wau, 300_000, ctx),
                        flat(Stat::Nps, 15_000, ctx),
                    ]
                } else if choice == 1 {
                    seq![flat(Stat::Reputation, 8_000, ctx), flat(Stat::Nps, 5_000, ctx)]
                } else if choice == 2 {
                    seq![flat(Stat::Nps, 8_000, ctx)]
                } else {
                    Seq::<EventEffect>::empty()
                }
            },
            EventId::CompetitorFeatureLaunch => {
                if choice == 0 {
                    seq![
                        flat(Stat::TechDebt, 15_000, ctx),
                        flat(Stat::Velocity, 200, ctx),
                        flat(Stat::Morale, -5_000, ctx),
                    ]
                } else if choice == 1 {
                    seq![
                        flat(Stat::Velocity, 100, ctx),
                        flat(Stat::Morale, -10_000, ctx),
                        flat(Stat::Reputation, -5_000, ctx),
                    ]
                } else if choice == 2 {
                    seq![flat(Stat::Morale, 10_000, ctx), flat(Stat::Reputation, 5_000, ctx)]
                } else {
                    Seq::<EventEffect>::empty()
                }
            },
            EventId::PricingWar => {
                if choice == 0 {
                    seq![
                        share(Stat::Mrr, ctx.mrr, -200, ctx),
                        flat(Stat::Nps, 5_000, ctx),
                        flat(Stat::Reputation, -10_000, ctx),
                    ]
                } else if choice == 1 {
                    seq![
                        flat(Stat::Reputation, 10_000, ctx),
                        flat(Stat::ChurnRate, 10_000, ctx),
                        flat(Stat::Morale, 5_000, ctx),
                    ]
                } else if choice == 2 {
                    seq![
                        share(Stat::Mrr, ctx.mrr, 150, ctx),
                        flat(Stat::ChurnRate, -20_000, ctx),
                        flat(Stat::Reputation, 15_000, ctx),
                    ]
                } else {
                    Seq::<EventEffect>::empty()
                }
            },
            EventId::CompetitorFunding => {
                if choice == 0 {
                    seq![flat(Stat::Reputation, 10_000, ctx), flat(Stat::Morale, -5_000, ctx)]
                } else if choice == 1 {
                    seq![
                        flat(Stat::Morale, 15_000, ctx),
                        flat(Stat::Reputation, -10_000, ctx),
                        flat(Stat::Velocity, 100, ctx),
                    ]
                } else if choice == 2 {
                    seq![flat(Stat::Morale, 5_000, ctx)]
                } else {
                    Seq::<EventEffect>::empty()
                }
            },
            EventId::CompetitorAcquisitionOpportunity => {
                if choice == 0 {
                    seq![flat(Stat::Reputation, 20_000, ctx), flat(Stat::Morale, -10_000, ctx)]
                } else if choice == 1 {
                    seq![flat(Stat::Morale, 15_000, ctx), flat(Stat::Reputation, 10_000, ctx)]
                } else if choice == 2 {
                    Seq::<EventEffect>::empty()
                } else {
                    Seq::<EventEffect>::empty()
                }
            },
            EventId::TalentPoaching => {
                if choice == 0 {
                    seq![share(Stat::Burn, ctx.burn, 300, ctx), flat(Stat::Morale, 10_000, ctx)]
                } else if choice == 1 {
                    seq![flat(Stat::Morale, 5_000, ctx), flat(Stat::Velocity, 100, ctx)]
                } else if choice == 2 {
                    seq![
                        flat(Stat::Morale, -20_000, ctx),
                        flat(Stat::Velocity, -200, ctx),
                        share(Stat::Burn, ctx.burn, -100, ctx),
                    ]
                } else {
                    Seq::<EventEffect>::empty()
                }
            },
            EventId::CompetitorPivot => {
                if choice == 0 {
                    seq![flat(Stat::Morale, 10_000, ctx), flat(Stat::Reputation, 5_000, ctx)]
                } else {
                    Seq::<EventEffect>::empty()
                }
            },
            EventId::VcOffer => {
                if choice == 0 {
                    seq![
                        flat(Stat::Bank, 2_000_000_000, ctx),
                        flat(Stat::FounderEquity, -20_000, ctx),
                        share(Stat::Burn, ctx.burn, 2_000, ctx),
                        flat(Stat::Reputation, 15_000, ctx),
                    ]
                } else if choice == 1 {
                    seq![flat(Stat::Morale, 10_000, ctx), flat(Stat::Focus, 1_000, ctx)]
                } else {
                    Seq::<EventEffect>::empty()
                }
            },
            EventId::KeyEmployeeBurnout => {
                if choice == 0 {
                    seq![
                        flat(Stat::Morale, -15_000, ctx),
                        flat(Stat::Velocity, -200, ctx),
                        flat(Stat::Reputation, -10_000, ctx),
                    ]
                } else if choice == 1 {
                    seq![
                        flat(Stat::Morale, 25_000, ctx),
                        flat(Stat::Velocity, -100, ctx),
                        flat(Stat::Reputation, 5_000, ctx),
                    ]
                } else {
                    Seq::<EventEffect>::empty()
                }
            },
            EventId::CompetitorLaunch => {
                if choice == 0 {
                    seq![flat(Stat::WauGrowth, -5_000, ctx), flat(Stat::Morale, -5_000, ctx)]
                } else {
                    Seq::<EventEffect>::empty()
                }
            },
            EventId::PivotOpportunity => {
                if choice == 0 {
                    seq![
                        share(Stat::Wau, ctx.users, -500, ctx),
                        flat(Stat::Reputation, 50_000, ctx),
                        flat(Stat::Morale, -20_000, ctx),
                    ]
                } else if choice == 1 {
                    seq![flat(Stat::Focus, 1_000, ctx), flat(Stat::Reputation, -10_000, ctx)]
                } else {
                    Seq::<EventEffect>::empty()
                }
            },
            EventId::AcquisitionOffer => {
                if choice == 0 {
                    seq![fixed(Stat::GameEnd, 1_000)]
                } else if choice == 1 {
                    seq![flat(Stat::Morale, 20_000, ctx), flat(Stat::Reputation, 15_000, ctx)]
                } else {
                    Seq::<EventEffect>::empty()
                }
            },
            EventId::KeyPartnership => {
                if choice == 0 {
                    seq![flat(Stat::Mrr, 20_000_000, ctx), flat(Stat::FounderEquity, -30_000, ctx)]
                } else if choice == 1 {
                    seq![flat(Stat::Mrr, 8_000_000, ctx)]
                } else {
                    Seq::<EventEffect>::empty()
                }
            },
            EventId::TeamConflict => {
                if choice == 0 {
                    seq![flat(Stat::Velocity, 100, ctx), flat(Stat::Mrr, -5_000_000, ctx)]
                } else if choice == 1 {
                    seq![flat(Stat::Mrr, 5_000_000, ctx), flat(Stat::TechDebt, 15_000, ctx)]
                } else if choice == 2 {
                    seq![flat(Stat::Morale, -15_000, ctx), flat(Stat::Focus, -1_000, ctx)]
                } else {
                    Seq::<EventEffect>::empty()
                }
            },
            EventId::PressOpportunity => {
                if choice == 0 {
                    seq![
                        flat(Stat::Reputation, 30_000, ctx),
                        flat(Stat::Wau, 500_000, ctx),
                        flat(Stat::Focus, -2_000, ctx),
                    ]
                } else if choice == 1 {
                    seq![flat(Stat::Reputation, -5_000, ctx), flat(Stat::Velocity, 100, ctx)]
                } else {
                    Seq::<EventEffect>::empty()
                }
            },
            EventId::TechnicalRewrite => {
                if choice == 0 {
                    seq![flat(Stat::TechDebt, -60_000, ctx), flat(Stat::WauGrowth, -40_000, ctx)]
                } else if choice == 1 {
                    seq![flat(Stat::TechDebt, -30_000, ctx), flat(Stat::Velocity, -100, ctx)]
                } else if choice == 2 {
                    seq![flat(Stat::TechDebt, 5_000, ctx)]
                } else {
                    Seq::<EventEffect>::empty()
                }
            },
            EventId::CompetitorAcquisition => {
                if choice == 0 {
                    seq![
                        flat(Stat::Wau, 500_000, ctx),
                        flat(Stat::Bank, -100_000_000, ctx),
                        flat(Stat::Burn, 15_000_000, ctx),
                        flat(Stat::TechDebt, 20_000, ctx),
                    ]
                } else if choice == 1 {
                    seq![flat(Stat::WauGrowth, -10_000, ctx)]
                } else {
                    Seq::<EventEffect>::empty()
                }
            },
            EventId::RegulatoryAudit => {
                if choice == 0 {
                    seq![
                        flat(Stat::ComplianceRisk, -50_000, ctx),
                        flat(Stat::Bank, -30_000_000, ctx),
                        flat(Stat::Focus, -3_000, ctx),
                    ]
                } else if choice == 1 {
                    seq![
                        flat(Stat::ComplianceRisk, -20_000, ctx),
                        flat(Stat::Bank, -10_000_000, ctx),
                    ]
                } else {
                    Seq::<EventEffect>::empty()
                }
            },
            EventId::ViralMomentGoneWrong => {
                if choice == 0 {
                    seq![flat(Stat::Bank, -50_000_000, ctx)]
                } else if choice == 1 {
                    seq![
                        share(Stat::Wau, ctx.users, -400, ctx),
                        flat(Stat::Reputation, -25_000, ctx),
                    ]
                } else {
                    Seq::<EventEffect>::empty()
                }
            },
            EventId::FounderHealthCrisis => {
                if choice == 0 {
                    seq![flat(Stat::Morale, 40_000, ctx), flat(Stat::Mrr, -10_000_000, ctx)]
                } else if choice == 1 {
                    seq![fixed(Stat::BurnoutRisk, 50_000)]
                } else {
                    Seq::<EventEffect>::empty()
                }
            },
            EventId::PressMention => {
                if choice == 0 {
                    seq![flat(Stat::Reputation, 5_000, ctx), flat(Stat::Wau, 50_000, ctx)]
                } else {
                    Seq::<EventEffect>::empty()
                }
            },
            EventId::CustomerTestimonial => {
                if choice == 0 {
                    seq![flat(Stat::Nps, 10_000, ctx), flat(Stat::Reputation, 3_000, ctx)]
                } else {
                    Seq::<EventEffect>::empty()
                }
            },
            EventId::CompetitorFailure => {
                if choice == 0 {
                    seq![flat(Stat::Wau, 200_000, ctx), flat(Stat::Morale, 5_000, ctx)]
                } else {
                    Seq::<EventEffect>::empty()
                }
            },
            EventId::TalentJoins => {
                if choice == 0 {
                    seq![flat(Stat::Velocity, 150, ctx), flat(Stat::Morale, 8_000, ctx)]
                } else {
                    Seq::<EventEffect>::empty()
                }
            },
            EventId::ServerOutage => {
                if choice == 0 {
                    seq![flat(Stat::Reputation, -5_000, ctx), flat(Stat::Wau, -20_000, ctx)]
                } else {
                    Seq::<EventEffect>::empty()
                }
            },
            EventId::CustomerComplaint => {
                if choice == 0 {
                    seq![flat(Stat::Nps, -8_000, ctx), flat(Stat::Reputation, -3_000, ctx)]
                } else {
                    Seq::<EventEffect>::empty()
                }
            },
            EventId::CompetitorFeature => {
                if choice == 0 {
                    seq![flat(Stat::ChurnRate, 2_000, ctx), flat(Stat::Morale, -3_000, ctx)]
                } else {
                    Seq::<EventEffect>::empty()
                }
            },
            EventId::KeyPersonSick => {
                if choice == 0 {
                    seq![flat(Stat::Velocity, -100, ctx), flat(Stat::Morale, -2_000, ctx)]
                } else {
                    Seq::<EventEffect>::empty()
                }
            },
            EventId::MarketShift => {
                if choice == 0 {
                    seq![flat(Stat::TechDebt, 5_000, ctx), flat(Stat::Morale, -2_000, ctx)]
                } else {
                    Seq::<EventEffect>::empty()
                }
            },
            EventId::NewRegulation => {
                if choice == 0 {
                    seq![flat(Stat::ComplianceRisk, 10_000, ctx)]
                } else {
                    Seq::<EventEffect>::empty()
                }
            },
            EventId::IndustryTrend => {
                if choice == 0 {
                    seq![flat(Stat::Reputation, 2_000, ctx)]
                } else {
                    Seq::<EventEffect>::empty()
                }
            },
        }
    }
}

fn flat_effect(stat: Stat, amount: i64, ctx: &EventContext) -> (effect: EventEffect)
    ensures
        effect == flat(stat, amount as int, *ctx),
{
    EventEffect { stat, change: scale(amount, ctx.modifier, 1_000) }
}

fn share_effect(stat: Stat, base: i64, factor: i64, ctx: &EventContext) -> (effect: EventEffect)
    ensures
        effect == share(stat, base, factor as int, *ctx),
{
    EventEffect { stat, change: scale(scale(base, factor, 1_000), ctx.modifier, 1_000) }
}

fn fixed_effect(stat: Stat, amount: i64) -> (effect: EventEffect)
    ensures
        effect == fixed(stat, amount as int),
{
    EventEffect { stat, change: amount }
}

/// The event at a position of the catalog.
pub fn event_at(i: usize) -> (id: EventId)
    ensures
        id == EventId::at(i as int),
        i < EVENT_COUNT ==> id.position() == i,
{
    if i == 0 {
        EventId::TechDebtCrisis
    } else if i == 1 {
        EventId::ViralMoment
    } else if i == 2 {
        EventId::MajorClientDeal
    } else if i == 3 {
        EventId::CustomerChurnWarning
    } else if i == 4 {
        EventId::BigLogoSigns
    } else if i == 5 {
        EventId::CustomerChampion
    } else if i == 6 {
        EventId::CompetitorFeatureLaunch
    } else if i == 7 {
        EventId::PricingWar
    } else if i == 8 {
        EventId::CompetitorFunding
    } else if i == 9 {
        EventId::CompetitorAcquisitionOpportunity
    } else if i == 10 {
        EventId::TalentPoaching
    } else if i == 11 {
        EventId::CompetitorPivot
    } else if i == 12 {
        EventId::VcOffer
    } else if i == 13 {
        EventId::KeyEmployeeBurnout
    } else if i == 14 {
        EventId::CompetitorLaunch
    } else if i == 15 {
        EventId::PivotOpportunity
    } else if i == 16 {
        EventId::AcquisitionOffer
    } else if i == 17 {
        EventId::KeyPartnership
    } else if i == 18 {
        EventId::TeamConflict
    } else if i == 19 {
        EventId::PressOpportunity
    } else if i == 20 {
        EventId::TechnicalRewrite
    } else if i == 21 {
        EventId::CompetitorAcquisition
    } else if i == 22 {
        EventId::RegulatoryAudit
    } else if i == 23 {
        EventId::ViralMomentGoneWrong
    } else if i == 24 {
        EventId::FounderHealthCrisis
    } else if i == 25 {
        EventId::PressMention
    } else if i == 26 {
        EventId::CustomerTestimonial
    } else if i == 27 {
        EventId::CompetitorFailure
    } else if i == 28 {
        EventId::TalentJoins
    } else if i == 29 {
        EventId::ServerOutage
    } else if i == 30 {
        EventId::CustomerComplaint
    } else if i == 31 {
        EventId::CompetitorFeature
    } else if i == 32 {
        EventId::KeyPersonSick
    } else if i == 33 {
        EventId::MarketShift
    } else if i == 34 {
        EventId::NewRegulation
    } else {
        EventId::IndustryTrend
    }
}

/// Chance, per mille, that an event fires in a week in which it may.
pub fn trigger_chance(id: EventId) -> (per_mille: i64)
    ensures
        per_mille == id.chance(),
        0 < per_mille < 1_000,
{
    match id {
        EventId::TechDebtCrisis => 300,
        EventId::ViralMoment => 150,
        EventId::MajorClientDeal => 200,
        EventId::CustomerChurnWarning => 250,
        EventId::BigLogoSigns => 250,
        EventId::CustomerChampion => 200,
        EventId::CompetitorFeatureLaunch => 200,
        EventId::PricingWar => 150,
        EventId::CompetitorFunding => 250,
        EventId::CompetitorAcquisitionOpportunity => 100,
        EventId::TalentPoaching => 120,
        EventId::CompetitorPivot => 80,
        EventId::VcOffer => 150,
        EventId::KeyEmployeeBurnout => 250,
        EventId::CompetitorLaunch => 100,
        EventId::PivotOpportunity => 400,
        EventId::AcquisitionOffer => 200,
        EventId::KeyPartnership => 150,
        EventId::TeamConflict => 300,
        EventId::PressOpportunity => 200,
        EventId::TechnicalRewrite => 350,
        EventId::CompetitorAcquisition => 100,
        EventId::RegulatoryAudit => 400,
        EventId::ViralMomentGoneWrong => 250,
        EventId::FounderHealthCrisis => 300,
        EventId::PressMention => 50,
        EventId::CustomerTestimonial => 30,
        EventId::CompetitorFailure => 20,
        EventId::TalentJoins => 40,
        EventId::ServerOutage => 60,
        EventId::CustomerComplaint => 40,
        EventId::CompetitorFeature => 30,
        EventId::KeyPersonSick => 20,
        EventId::MarketShift => 30,
        EventId::NewRegulation => 20,
        EventId::IndustryTrend => 40,
    }
}

/// Whether an event asks the player to choose.
pub fn requires_choice(id: EventId) -> (dilemma: bool)
    ensures
        dilemma == id.is_dilemma(),
{
    match id {
        EventId::CompetitorPivot
        | EventId::CompetitorLaunch
        | EventId::PressMention
        | EventId::CustomerTestimonial
        | EventId::CompetitorFailure
        | EventId::TalentJoins
        | EventId::ServerOutage
        | EventId::CustomerComplaint
        | EventId::CompetitorFeature
        | EventId::KeyPersonSick
        | EventId::MarketShift
        | EventId::NewRegulation
        | EventId::IndustryTrend => false,
        _ => true,
    }
}

/// The event that an event makes likely later on.
pub fn follow_up_of(id: EventId) -> (next: Option<EventId>)
    ensures
        next == id.follow_up(),
{
    match id {
        EventId::ViralMoment => Some(EventId::ViralMomentGoneWrong),
        _ => None,
    }
}

/// Number of options of a dilemma; one for an automatic event.
pub fn count_options(id: EventId) -> (count: usize)
    ensures
        count == id.option_count(),
        1 <= count <= 3,
        id.is_dilemma() ==> count >= 2,
{
    match id {
        EventId::BigLogoSigns
        | EventId::CustomerChampion
        | EventId::CompetitorFeatureLaunch
        | EventId::PricingWar
        | EventId::CompetitorFunding
        | EventId::CompetitorAcquisitionOpportunity
        | EventId::TalentPoaching
        | EventId::TeamConflict
        | EventId::TechnicalRewrite => 3,
        EventId::CompetitorPivot
        | EventId::CompetitorLaunch
        | EventId::PressMention
        | EventId::CustomerTestimonial
        | EventId::CompetitorFailure
        | EventId::TalentJoins
        | EventId::ServerOutage
        | EventId::CustomerComplaint
        | EventId::CompetitorFeature
        | EventId::KeyPersonSick
        | EventId::MarketShift
        | EventId::NewRegulation
        | EventId::IndustryTrend => 1,
        _ => 2,
    }
}

/// The effects of an option of one of the events about customers and
/// competitors; no effects for any other event.
fn customer_event_effects(
    id: EventId,
    choice: usize,
    ctx: &EventContext,
) -> (effects: Vec<EventEffect>)
    ensures
        (id == EventId::TechDebtCrisis
            || id == EventId::ViralMoment
            || id == EventId::MajorClientDeal
            || id == EventId::CustomerChurnWarning
            || id == EventId::BigLogoSigns
            || id == EventId::CustomerChampion
            || id == EventId::CompetitorFeatureLaunch
            || id == EventId::PricingWar
            || id == EventId::CompetitorFunding)
            ==> effects@ == id.effects_of(choice as int, *ctx),
{
    match id {
        EventId::TechDebtCrisis => {
            if choice == 0 {
                vec![
                    flat_effect(Stat::Morale, -15_000, ctx),
                    flat_effect(Stat::Reputation, -10_000, ctx),
                    flat_effect(Stat::Velocity, -150, ctx),
                ]
            } else if choice == 1 {
                vec![
                    flat_effect(Stat::Morale, -5_000, ctx),
                    flat_effect(Stat::TechDebt, -10_000, ctx),
                    flat_effect(Stat::Reputation, 5_000, ctx),
                    flat_effect(Stat::Wau, -50_000, ctx),
                ]
            } else {
                Vec::new()
            }
        },
        EventId::ViralMoment => {
            if choice == 0 {
                vec![
                    flat_effect(Stat::Wau, 5_000_000, ctx),
                    flat_effect(Stat::Burn, 2_000_000, ctx),
                    flat_effect(Stat::Reputation, 15_000, ctx),
                ]
            } else if choice == 1 {
                vec![
                    flat_effect(Stat::Wau, 2_000_000, ctx),
                    flat_effect(Stat::Reputation, -5_000, ctx),
                ]
            } else {
                Vec::new()
            }
        },
        EventId::MajorClientDeal => {
            if choice == 0 {
                vec![
                    share_effect(Stat::Mrr, ctx.deal_size, 1_000, ctx),
                    flat_effect(Stat::Morale, -20_000, ctx),
                    flat_effect(Stat::TechDebt, 25_000, ctx),
                    flat_effect(Stat::Reputation, 10_000, ctx),
                ]
            } else if choice == 1 {
                vec![
                    share_effect(Stat::Mrr, ctx.deal_size, 600, ctx),
                    flat_effect(Stat::Morale, 5_000, ctx),
                    flat_effect(Stat::TechDebt, -5_000, ctx),
                ]
            } else {
                Vec::new()
            }
        },
        EventId::CustomerChurnWarning => {
            if choice == 0 {
                vec![flat_effect(Stat::Morale, 5_000, ctx), flat_effect(Stat::Nps, 5_000, ctx)]
            } else if choice == 1 {
                vec![
                    flat_effect(Stat::Focus, 1_000, ctx),
                    share_effect(Stat::Mrr, ctx.customer_mrr, -1_000, ctx),
                ]
            } else {
                Vec::new()
            }
        },
        EventId::BigLogoSigns => {
            if choice == 0 {
                vec![
                    flat_effect(Stat::Reputation, 15_000, ctx),
                    flat_effect(Stat::Focus, -1_000, ctx),
                ]
            } else if choice == 1 {
                vec![flat_effect(Stat::Reputation, 5_000, ctx)]
            } else if choice == 2 {
                vec![flat_effect(Stat::Nps, 3_000, ctx)]
            } else {
                Vec::new()
            }
        },
        EventId::CustomerChampion => {
            if choice == 0 {
                vec![
                    flat_effect(Stat::Reputation, 20_000, ctx),
                    flat_effect(Stat::Wau, 300_000, ctx),
                    flat_effect(Stat::Nps, 15_000, ctx),
                ]
            } else if choice == 1 {
                vec![flat_effect(Stat::Reputation, 8_000, ctx), flat_effect(Stat::Nps, 5_000, ctx)]
            } else if choice == 2 {
                vec![flat_effect(Stat::Nps, 8_000, ctx)]
            } else {
                Vec::new()
            }
        },
        EventId::CompetitorFeatureLaunch => {
            if choice == 0 {
                vec![
                    flat_effect(Stat::TechDebt, 15_000, ctx),
                    flat_effect(Stat::Velocity, 200, ctx),
                    flat_effect(Stat::Morale, -5_000, ctx),
                ]
            } else if choice == 1 {
                vec![
                    flat_effect(Stat::Velocity, 100, ctx),
                    flat_effect(Stat::Morale, -10_000, ctx),
                    flat_effect(Stat::Reputation, -5_000, ctx),
                ]
            } else if choice == 2 {
                vec![
                    flat_effect(Stat::Morale, 10_000, ctx),
                    flat_effect(Stat::Reputation, 5_000, ctx),
                ]
            } else {
                Vec::new()
            }
        },
        EventId::PricingWar => {
            if choice == 0 {
                vec![
                    share_effect(Stat::Mrr, ctx.mrr, -200, ctx),
                    flat_effect(Stat::Nps, 5_000, ctx),
                    flat_effect(Stat::Reputation, -10_000, ctx),
                ]
            } else if choice == 1 {
                vec![
                    flat_effect(Stat::Reputation, 10_000, ctx),
                    flat_effect(Stat::ChurnRate, 10_000, ctx),
                    flat_effect(Stat::Morale, 5_000, ctx),
                ]
            } else if choice == 2 {
                vec![
                    share_effect(Stat::Mrr, ctx.mrr, 150, ctx),
                    flat_effect(Stat::ChurnRate, -20_000, ctx),
                    flat_effect(Stat::Reputation, 15_000, ctx),
                ]
            } else {
                Vec::new()
            }
        },
        EventId::CompetitorFunding => {
            if choice == 0 {
                vec![
                    flat_effect(Stat::Reputation, 10_000, ctx),
                    flat_effect(Stat::Morale, -5_000, ctx),
                ]
            } else if choice == 1 {
                vec![
                    flat_effect(Stat::Morale, 15_000, ctx),
                    flat_effect(Stat::Reputation, -10_000, ctx),
                    flat_effect(Stat::Velocity, 100, ctx),
                ]
            } else if choice == 2 {
                vec![flat_effect(Stat::Morale, 5_000, ctx)]
            } else {
                Vec::new()
            }
        },
        _ => Vec::new(),
    }
}

/// The effects of an option of one of the events about funding and the
/// team; no effects for any other event.
fn company_event_effects(
    id: EventId,
    choice: usize,
    ctx: &EventContext,
) -> (effects: Vec<EventEffect>)
    ensures
        (id == EventId::CompetitorAcquisitionOpportunity
            || id == EventId::TalentPoaching
            || id == EventId::CompetitorPivot
            || id == EventId::VcOffer
            || id == EventId::KeyEmployeeBurnout
            || id == EventId::CompetitorLaunch
            || id == EventId::PivotOpportunity
            || id == EventId::AcquisitionOffer
            || id == EventId::KeyPartnership)
            ==> effects@ == id.effects_of(choice as int, *ctx),
{
    match id {
        EventId::CompetitorAcquisitionOpportunity => {
            if choice == 0 {
                vec![
                    flat_effect(Stat::Reputation, 20_000, ctx),
                    flat_effect(Stat::Morale, -10_000, ctx),
                ]
            } else if choice == 1 {
                vec![
                    flat_effect(Stat::Morale, 15_000, ctx),
                    flat_effect(Stat::Reputation, 10_000, ctx),
                ]
            } else if choice == 2 {
                Vec::new()
            } else {
                Vec::new()
            }
        },
        EventId::TalentPoaching => {
            if choice == 0 {
                vec![
                    share_effect(Stat::Burn, ctx.burn, 300, ctx),
                    flat_effect(Stat::Morale, 10_000, ctx),
                ]
            } else if choice == 1 {
                vec![flat_effect(Stat::Morale, 5_000, ctx), flat_effect(Stat::Velocity, 100, ctx)]
            } else if choice == 2 {
                vec![
                    flat_effect(Stat::Morale, -20_000, ctx),
                    flat_effect(Stat::Velocity, -200, ctx),
                    share_effect(Stat::Burn, ctx.burn, -100, ctx),
                ]
            } else {
                Vec::new()
            }
        },
        EventId::CompetitorPivot => {
            if choice == 0 {
                vec![
                    flat_effect(Stat::Morale, 10_000, ctx),
                    flat_effect(Stat::Reputation, 5_000, ctx),
                ]
            } else {
                Vec::new()
            }
        },
        EventId::VcOffer => {
            if choice == 0 {
                vec![
                    flat_effect(Stat::Bank, 2_000_000_000, ctx),
                    flat_effect(Stat::FounderEquity, -20_000, ctx),
                    share_effect(Stat::Burn, ctx.burn, 2_000, ctx),
                    flat_effect(Stat::Reputation, 15_000, ctx),
                ]
            } else if choice == 1 {
                vec![flat_effect(Stat::Morale, 10_000, ctx), flat_effect(Stat::Focus, 1_000, ctx)]
            } else {
                Vec::new()
            }
        },
        EventId::KeyEmployeeBurnout => {
            if choice == 0 {
                vec![
                    flat_effect(Stat::Morale, -15_000, ctx),
                    flat_effect(Stat::Velocity, -200, ctx),
                    flat_effect(Stat::Reputation, -10_000, ctx),
                ]
            } else if choice == 1 {
                vec![
                    flat_effect(Stat::Morale, 25_000, ctx),
                    flat_effect(Stat::Velocity, -100, ctx),
                    flat_effect(Stat::Reputation, 5_000, ctx),
                ]
            } else {
                Vec::new()
            }
        },
        EventId::CompetitorLaunch => {
            if choice == 0 {
                vec![
                    flat_effect(Stat::WauGrowth, -5_000, ctx),
                    flat_effect(Stat::Morale, -5_000, ctx),
                ]
            } else {
                Vec::new()
            }
        },
        EventId::PivotOpportunity => {
            if choice == 0 {
                vec![
                    share_effect(Stat::Wau, ctx.users, -500, ctx),
                    flat_effect(Stat::Reputation, 50_000, ctx),
                    flat_effect(Stat::Morale, -20_000, ctx),
                ]
            } else if choice == 1 {
                vec![
                    flat_effect(Stat::Focus, 1_000, ctx),
                    flat_effect(Stat::Reputation, -10_000, ctx),
                ]
            } else {
                Vec::new()
            }
        },
        EventId::AcquisitionOffer => {
            if choice == 0 {
                vec![fixed_effect(Stat::GameEnd, 1_000)]
            } else if choice == 1 {
                vec![
                    flat_effect(Stat::Morale, 20_000, ctx),
                    flat_effect(Stat::Reputation, 15_000, ctx),
                ]
            } else {
                Vec::new()
            }
        },
        EventId::KeyPartnership => {
            if choice == 0 {
                vec![
                    flat_effect(Stat::Mrr, 20_000_000, ctx),
                    flat_effect(Stat::FounderEquity, -30_000, ctx),
                ]
            } else if choice == 1 {
                vec![flat_effect(Stat::Mrr, 8_000_000, ctx)]
            } else {
                Vec::new()
            }
        },
        _ => Vec::new(),
    }
}

/// The effects of an option of one of the strategic dilemmas; no effects
/// for any other event.
fn strategy_event_effects(
    id: EventId,
    choice: usize,
    ctx: &EventContext,
) -> (effects: Vec<EventEffect>)
    ensures
        (id == EventId::TeamConflict
            || id == EventId::PressOpportunity
            || id == EventId::TechnicalRewrite
            || id == EventId::CompetitorAcquisition
            || id == EventId::RegulatoryAudit
            || id == EventId::ViralMomentGoneWrong
            || id == EventId::FounderHealthCrisis
            || id == EventId::PressMention
            || id == EventId::CustomerTestimonial)
            ==> effects@ == id.effects_of(choice as int, *ctx),
{
    match id {
        EventId::TeamConflict => {
            if choice == 0 {
                vec![flat_effect(Stat::Velocity, 100, ctx), flat_effect(Stat::Mrr, -5_000_000, ctx)]
            } else if choice == 1 {
                vec![
                    flat_effect(Stat::Mrr, 5_000_000, ctx),
                    flat_effect(Stat::TechDebt, 15_000, ctx),
                ]
            } else if choice == 2 {
                vec![flat_effect(Stat::Morale, -15_000, ctx), flat_effect(Stat::Focus, -1_000, ctx)]
            } else {
                Vec::new()
            }
        },
        EventId::PressOpportunity => {
            if choice == 0 {
                vec![
                    flat_effect(Stat::Reputation, 30_000, ctx),
                    flat_effect(Stat::Wau, 500_000, ctx),
                    flat_effect(Stat::Focus, -2_000, ctx),
                ]
            } else if choice == 1 {
                vec![
                    flat_effect(Stat::Reputation, -5_000, ctx),
                    flat_effect(Stat::Velocity, 100, ctx),
                ]
            } else {
                Vec::new()
            }
        },
        EventId::TechnicalRewrite => {
            if choice == 0 {
                vec![
                    flat_effect(Stat::TechDebt, -60_000, ctx),
                    flat_effect(Stat::WauGrowth, -40_000, ctx),
                ]
            } else if choice == 1 {
                vec![
                    flat_effect(Stat::TechDebt, -30_000, ctx),
                    flat_effect(Stat::Velocity, -100, ctx),
                ]
            } else if choice == 2 {
                vec![flat_effect(Stat::TechDebt, 5_000, ctx)]
            } else {
                Vec::new()
            }
        },
        EventId::CompetitorAcquisition => {
            if choice == 0 {
                vec![
                    flat_effect(Stat::Wau, 500_000, ctx),
                    flat_effect(Stat::Bank, -100_000_000, ctx),
                    flat_effect(Stat::Burn, 15_000_000, ctx),
                    flat_effect(Stat::TechDebt, 20_000, ctx),
                ]
            } else if choice == 1 {
                vec![flat_effect(Stat::WauGrowth, -10_000, ctx)]
            } else {
                Vec::new()
            }
        },
        EventId::RegulatoryAudit => {
            if choice == 0 {
                vec![
                    flat_effect(Stat::ComplianceRisk, -50_000, ctx),
                    flat_effect(Stat::Bank, -30_000_000, ctx),
                    flat_effect(Stat::Focus, -3_000, ctx),
                ]
            } else if choice == 1 {
                vec![
                    flat_effect(Stat::ComplianceRisk, -20_000, ctx),
                    flat_effect(Stat::Bank, -10_000_000, ctx),
                ]
            } else {
                Vec::new()
            }
        },
        EventId::ViralMomentGoneWrong => {
            if choice == 0 {
                vec![flat_effect(Stat::Bank, -50_000_000, ctx)]
            } else if choice == 1 {
                vec![
                    share_effect(Stat::Wau, ctx.users, -400, ctx),
                    flat_effect(Stat::Reputation, -25_000, ctx),
                ]
            } else {
                Vec::new()
            }
        },
        EventId::FounderHealthCrisis => {
            if choice == 0 {
                vec![
                    flat_effect(Stat::Morale, 40_000, ctx),
                    flat_effect(Stat::Mrr, -10_000_000, ctx),
                ]
            } else if choice == 1 {
                vec![fixed_effect(Stat::BurnoutRisk, 50_000)]
            } else {
                Vec::new()
            }
        },
        EventId::PressMention => {
            if choice == 0 {
                vec![flat_effect(Stat::Reputation, 5_000, ctx), flat_effect(Stat::Wau, 50_000, ctx)]
            } else {
                Vec::new()
            }
        },
        EventId::CustomerTestimonial => {
            if choice == 0 {
                vec![flat_effect(Stat::Nps, 10_000, ctx), flat_effect(Stat::Reputation, 3_000, ctx)]
            } else {
                Vec::new()
            }
        },
        _ => Vec::new(),
    }
}

/// The effects of an option of one of the ambient events; no effects for
/// any other event.
fn ambient_event_effects(
    id: EventId,
    choice: usize,
    ctx: &EventContext,
) -> (effects: Vec<EventEffect>)
    ensures
        (id == EventId::CompetitorFailure
            || id == EventId::TalentJoins
            || id == EventId::ServerOutage
            || id == EventId::CustomerComplaint
            || id == EventId::CompetitorFeature
            || id == EventId::KeyPersonSick
            || id == EventId::MarketShift
            || id == EventId::NewRegulation
            || id == EventId::IndustryTrend)
            ==> effects@ == id.effects_of(choice as int, *ctx),
{
    match id {
        EventId::CompetitorFailure => {
            if choice == 0 {
                vec![flat_effect(Stat::Wau, 200_000, ctx), flat_effect(Stat::Morale, 5_000, ctx)]
            } else {
                Vec::new()
            }
        },
        EventId::TalentJoins => {
            if choice == 0 {
                vec![flat_effect(Stat::Velocity, 150, ctx), flat_effect(Stat::Morale, 8_000, ctx)]
            } else {
                Vec::new()
            }
        },
        EventId::ServerOutage => {
            if choice == 0 {
                vec![
                    flat_effect(Stat::Reputation, -5_000, ctx),
                    flat_effect(Stat::Wau, -20_000, ctx),
                ]
            } else {
                Vec::new()
            }
        },
        EventId::CustomerComplaint => {
            if choice == 0 {
                vec![
                    flat_effect(Stat::Nps, -8_000, ctx),
                    flat_effect(Stat::Reputation, -3_000, ctx),
                ]
            } else {
                Vec::new()
            }
        },
        EventId::CompetitorFeature => {
            if choice == 0 {
                vec![
                    flat_effect(Stat::ChurnRate, 2_000, ctx),
                    flat_effect(Stat::Morale, -3_000, ctx),
                ]
            } else {
                Vec::new()
            }
        },
        EventId::KeyPersonSick => {
            if choice == 0 {
                vec![flat_effect(Stat::Velocity, -100, ctx), flat_effect(Stat::Morale, -2_000, ctx)]
            } else {
                Vec::new()
            }
        },
        EventId::MarketShift => {
            if choice == 0 {
                vec![
                    flat_effect(Stat::TechDebt, 5_000, ctx),
                    flat_effect(Stat::Morale, -2_000, ctx),
                ]
            } else {
                Vec::new()
            }
        },
        EventId::NewRegulation => {
            if choice == 0 {
                vec![flat_effect(Stat::ComplianceRisk, 10_000, ctx)]
            } else {
                Vec::new()
            }
        },
        EventId::IndustryTrend => {
            if choice == 0 {
                vec![flat_effect(Stat::Reputation, 2_000, ctx)]
            } else {
                Vec::new()
            }
        },
        _ => Vec::new(),
    }
}

/// The effects of option `choice` of an event (of the event itself, for an
/// automatic one), computed from the context.
pub fn effects_for(id: EventId, choice: usize, ctx: &EventContext) -> (effects: Vec<EventEffect>)
    ensures
        effects@ == id.effects_of(choice as int, *ctx),
{
    let position = id.index();
    if position < 9 {
        customer_event_effects(id, choice, ctx)
    } else if position < 18 {
        company_event_effects(id, choice, ctx)
    } else if position < 27 {
        strategy_event_effects(id, choice, ctx)
    } else {
        ambient_event_effects(id, choice, ctx)
    }
}

/// The customer that a pick designates.
pub open spec fn customer_at(customers: Seq<Customer>, pick: Option<usize>) -> Option<Customer> {
    match pick {
        Some(i) => if i < customers.len() {
            Some(customers[i as int])
        } else {
            None
        },
        None => None,
    }
}

/// The competitor that a pick designates.
pub open spec fn rival_at(competitors: Seq<Competitor>, pick: Option<usize>) -> Option<Competitor> {
    match pick {
        Some(i) => if i < competitors.len() {
            Some(competitors[i as int])
        } else {
            None
        },
        None => None,
    }
}

/// Growth has stalled: momentum below 0.03 in each of the last eight weeks.
pub open spec fn growth_stagnant(history: Seq<WeekSnapshot>) -> bool {
    history.len() >= 8 && consecutive_weeks(history, 8, SnapshotTest::MomentumBelow(30)) == 8
}

/// Morale was below 30 in each of the last four weeks (in all of them, when
/// the history is shorter).
pub open spec fn morale_low(history: Seq<WeekSnapshot>) -> bool {
    consecutive_weeks(history, 4, SnapshotTest::MoraleBelow(30_000)) == if history.len() < 4 {
        history.len()
    } else {
        4
    }
}

/// Whether the competitor has raised a series A or later.
pub open spec fn is_well_funded(stage: FundingStage) -> bool {
    stage == FundingStage::SeriesA || stage == FundingStage::SeriesB || stage
        == FundingStage::SeriesC || stage == FundingStage::PublicCompany
}

impl Picks {
    /// Whether the picks are ones that can be drawn in the state: each is a
    /// member of the group it is drawn from, and is missing only when the
    /// group is empty.
    pub open spec fn fits(self, state: GameState) -> bool {
        &&& self.customer matches Some(i) ==> crate::customers::is_in_segment(
            state.customers@,
            None,
            i as int,
        )
        &&& self.customer.is_none() <==> !crate::customers::any_in_segment(state.customers@, None)
        &&& self.enterprise matches Some(i) ==> crate::customers::is_in_segment(
            state.customers@,
            Some(CustomerSegment::Enterprise),
            i as int,
        )
        &&& self.enterprise.is_none() <==> !crate::customers::any_in_segment(
            state.customers@,
            Some(CustomerSegment::Enterprise),
        )
        &&& self.rival matches Some(i) ==> crate::competitors::is_active(state.competitors@, i as int)
        &&& self.rival.is_none() <==> !crate::competitors::any_active(state.competitors@)
        &&& self.threat matches Some(i) ==> crate::competitors::is_most_threatening(
            state.competitors@,
            i as int,
        )
        &&& self.threat.is_none() <==> !crate::competitors::any_active(state.competitors@)
    }
}

impl EventId {
    /// What the state must show for the event to be a candidate.
    pub open spec fn prerequisite(self, s: GameState, p: Picks) -> bool {
        match self {
            EventId::TechDebtCrisis => s.tech_debt > 70_000,
            EventId::ViralMoment => s.nps > 60_000 && s.tech_debt < 35_000 && s.wau > 200,
            EventId::MajorClientDeal => s.mrr > 2_000_000 && s.reputation > 50_000,
            EventId::CustomerChurnWarning => crate::customers::any_at_risk(s.customers@)
                && match customer_at(s.customers@, p.customer) {
                Some(c) => c.latest_feedback.is_some(),
                None => false,
            },
            EventId::BigLogoSigns => match customer_at(s.customers@, p.enterprise) {
                Some(c) => c.lifecycle_stage == CustomerLifecycle::Active && c.mrr_contribution
                    > 5_000_000,
                None => false,
            },
            EventId::CustomerChampion => match customer_at(s.customers@, p.customer) {
                Some(c) => c.lifecycle_stage == CustomerLifecycle::Champion,
                None => false,
            },
            EventId::CompetitorFeatureLaunch => match rival_at(s.competitors@, p.threat) {
                Some(r) => r.feature_parity > 70_000 && s.velocity < 1_000,
                None => false,
            },
            EventId::PricingWar => match rival_at(s.competitors@, p.rival) {
                Some(r) => r.pricing_strategy == PricingStrategy::Undercut,
                None => false,
            },
            EventId::CompetitorFunding => match rival_at(s.competitors@, p.rival) {
                Some(r) => crate::competitors::has_raised(r),
                None => false,
            },
            EventId::CompetitorAcquisitionOpportunity => s.mrr > 50_000_000 && s.reputation > 60_000
                && s.nps > 40_000 && rival_at(s.competitors@, p.rival).is_some(),
            EventId::TalentPoaching => match rival_at(s.competitors@, p.rival) {
                Some(r) => is_well_funded(r.funding_stage) && s.morale > 70_000,
                None => false,
            },
            EventId::CompetitorPivot => match rival_at(s.competitors@, p.rival) {
                Some(r) => r.feature_parity < 40_000,
                None => false,
            },
            EventId::VcOffer => s.runway_months.is_above(18_000) && s.wau > 500 && s.reputation
                > 60_000,
            EventId::KeyEmployeeBurnout => s.morale < 50_000 && s.week > 12,
            EventId::CompetitorLaunch => s.week > 8,
            EventId::PivotOpportunity => growth_stagnant(s.history@),
            EventId::AcquisitionOffer => s.reputation > 70_000 && s.mrr > 50_000_000,
            EventId::KeyPartnership => s.reputation > 60_000,
            EventId::TeamConflict => s.morale < 60_000 && s.team_size > 3,
            EventId::PressOpportunity => s.wau > 1_000 && s.reputation > 50_000,
            EventId::TechnicalRewrite => s.tech_debt > 80_000 && s.velocity < 500,
            EventId::CompetitorAcquisition => s.week > 20,
            EventId::RegulatoryAudit => s.difficulty == DifficultyMode::RegulatedFintech
                && s.compliance_risk > 60_000,
            EventId::ViralMomentGoneWrong => s.wau_growth_rate > 30_000,
            EventId::FounderHealthCrisis => morale_low(s.history@),
            _ => true,
        }
    }
}

/// The customer that a pick designates.
pub fn picked_customer(
    customers: &Vec<Customer>,
    pick: Option<usize>,
) -> (customer: Option<Customer>)
    ensures
        customer == customer_at(customers@, pick),
{
    match pick {
        Some(i) => if i < customers.len() {
            Some(customers[i])
        } else {
            None
        },
        None => None,
    }
}

/// The competitor that a pick designates.
pub fn picked_rival(
    competitors: &Vec<Competitor>,
    pick: Option<usize>,
) -> (rival: Option<&Competitor>)
    ensures
        rival.is_some() == rival_at(competitors@, pick).is_some(),
        rival matches Some(r) ==> *r == rival_at(competitors@, pick).unwrap(),
{
    match pick {
        Some(i) => if i < competitors.len() {
            Some(&competitors[i])
        } else {
            None
        },
        None => None,
    }
}

/// Whether growth has stalled for eight weeks.
pub fn is_growth_stagnant(history: &Vec<WeekSnapshot>) -> (stagnant: bool)
    ensures
        stagnant == growth_stagnant(history@),
{
    history.len() >= 8 && count_consecutive_weeks(history, 8, &SnapshotTest::MomentumBelow(30)) == 8
}

/// Whether morale was below 30 in each of the last four weeks.
pub fn is_morale_low(history: &Vec<WeekSnapshot>) -> (low: bool)
    ensures
        low == morale_low(history@),
{
    let weeks = count_consecutive_weeks(history, 4, &SnapshotTest::MoraleBelow(30_000));
    if history.len() < 4 {
        weeks as usize == history.len()
    } else {
        weeks == 4
    }
}

/// Whether the state meets the prerequisite of the customer events.
fn customer_prerequisite(id: EventId, s: &GameState, p: &Picks) -> (met: bool)
    ensures
        met == match id {
            EventId::CustomerChurnWarning | EventId::BigLogoSigns | EventId::CustomerChampion =>
                id.prerequisite(*s, *p),
            _ => false,
        },
{
    match id {
        EventId::CustomerChurnWarning => crate::customers::has_at_risk_customers(&s.customers)
            && match picked_customer(&s.customers, p.customer) {
            Some(c) => c.latest_feedback.is_some(),
            None => false,
        },
        EventId::BigLogoSigns => match picked_customer(&s.customers, p.enterprise) {
            Some(c) => match c.lifecycle_stage {
                CustomerLifecycle::Active => c.mrr_contribution > 5_000_000,
                _ => false,
            },
            None => false,
        },
        EventId::CustomerChampion => match picked_customer(&s.customers, p.customer) {
            Some(c) => match c.lifecycle_stage {
                CustomerLifecycle::Champion => true,
                _ => false,
            },
            None => false,
        },
        _ => false,
    }
}

/// Whether the state meets the prerequisite of the competitor events.
fn rival_prerequisite(id: EventId, s: &GameState, p: &Picks) -> (met: bool)
    ensures
        met == match id {
            EventId::CompetitorFeatureLaunch
            | EventId::PricingWar
            | EventId::CompetitorFunding
            | EventId::CompetitorAcquisitionOpportunity
            | EventId::TalentPoaching
            | EventId::CompetitorPivot => id.prerequisite(*s, *p),
            _ => false,
        },
{
    match id {
        EventId::CompetitorFeatureLaunch => match picked_rival(&s.competitors, p.threat) {
            Some(r) => r.feature_parity > 70_000 && s.velocity < 1_000,
            None => false,
        },
        EventId::PricingWar => match picked_rival(&s.competitors, p.rival) {
            Some(r) => match r.pricing_strategy {
                PricingStrategy::Undercut => true,
                _ => false,
            },
            None => false,
        },
        EventId::CompetitorFunding => match picked_rival(&s.competitors, p.rival) {
            Some(r) => crate::competitors::has_funding_round(r),
            None => false,
        },
        EventId::CompetitorAcquisitionOpportunity => s.mrr > 50_000_000 && s.reputation > 60_000
            && s.nps > 40_000 && picked_rival(&s.competitors, p.rival).is_some(),
        EventId::TalentPoaching => match picked_rival(&s.competitors, p.rival) {
            Some(r) => match r.funding_stage {
                FundingStage::SeriesA
                | FundingStage::SeriesB
                | FundingStage::SeriesC
                | FundingStage::PublicCompany => s.morale > 70_000,
                _ => false,
            },
            None => false,
        },
        EventId::CompetitorPivot => match picked_rival(&s.competitors, p.rival) {
            Some(r) => r.feature_parity < 40_000,
            None => false,
        },
        _ => false,
    }
}

/// Whether the state meets the prerequisite of an event.
pub fn prerequisite_holds(id: EventId, s: &GameState, p: &Picks) -> (met: bool)
    ensures
        met == id.prerequisite(*s, *p),
{
    match id {
        EventId::TechDebtCrisis => s.tech_debt > 70_000,
        EventId::ViralMoment => s.nps > 60_000 && s.tech_debt < 35_000 && s.wau > 200,
        EventId::MajorClientDeal => s.mrr > 2_000_000 && s.reputation > 50_000,
        EventId::CustomerChurnWarning | EventId::BigLogoSigns | EventId::CustomerChampion =>
            customer_prerequisite(id, s, p),
        EventId::CompetitorFeatureLaunch
        | EventId::PricingWar
        | EventId::CompetitorFunding
        | EventId::CompetitorAcquisitionOpportunity
        | EventId::TalentPoaching
        | EventId::CompetitorPivot => rival_prerequisite(id, s, p),
        EventId::VcOffer => s.runway_months.above(18_000) && s.wau > 500 && s.reputation > 60_000,
        EventId::KeyEmployeeBurnout => s.morale < 50_000 && s.week > 12,
        EventId::CompetitorLaunch => s.week > 8,
        EventId::PivotOpportunity => is_growth_stagnant(&s.history),
        EventId::AcquisitionOffer => s.reputation > 70_000 && s.mrr > 50_000_000,
        EventId::KeyPartnership => s.reputation > 60_000,
        EventId::TeamConflict => s.morale < 60_000 && s.team_size > 3,
        EventId::PressOpportunity => s.wau > 1_000 && s.reputation > 50_000,
        EventId::TechnicalRewrite => s.tech_debt > 80_000 && s.velocity < 500,
        EventId::CompetitorAcquisition => s.week > 20,
        EventId::RegulatoryAudit => match s.difficulty {
            DifficultyMode::RegulatedFintech => s.compliance_risk > 60_000,
            _ => false,
        },
        EventId::ViralMomentGoneWrong => s.wau_growth_rate > 30_000,
        EventId::FounderHealthCrisis => is_morale_low(&s.history),
        _ => true,
    }
}

/// The context in which the effects of this week's events are computed.
pub open spec fn context_of(s: GameState, p: Picks, deal_size: i64) -> EventContext {
    EventContext {
        modifier: difficulty_factor(s.difficulty),
        mrr: s.mrr,
        burn: s.burn,
        users: s.stat(Stat::Wau),
        deal_size,
        customer_mrr: match customer_at(s.customers@, p.customer) {
            Some(c) => c.mrr_contribution,
            None => 0,
        },
    }
}

/// The context in which the effects of this week's events are computed.
pub fn event_context(s: &GameState, p: &Picks, deal_size: i64) -> (ctx: EventContext)
    ensures
        ctx == context_of(*s, *p, deal_size),
{
    EventContext {
        modifier: match s.difficulty {
            DifficultyMode::IndieBootstrap => 1_000,
            DifficultyMode::VCTrack => 1_200,
            DifficultyMode::RegulatedFintech => 1_500,
            DifficultyMode::InfraDevTool => 1_300,
        },
        mrr: s.mrr,
        burn: s.burn,
        users: s.stat_value(Stat::Wau),
        deal_size,
        customer_mrr: match picked_customer(&s.customers, p.customer) {
            Some(c) => c.mrr_contribution,
            None => 0,
        },
    }
}

/// Morale after burnout.
pub const BURNT_OUT: i64 = -100_000;

/// Morale after an exit.
pub const ELATED: i64 = 100_000;

/// Smallest and largest monthly revenue of the deal that a major client
/// offers, $5,000 and $8,000.
pub const DEAL_MIN: i64 = 5_000_000;

pub const DEAL_MAX: i64 = 8_000_000;

/// Chance, per mille, of burnout that an effect list carries: that of its
/// last burnout risk (a risk in percent), zero without one.
pub open spec fn burnout_chance(effects: Seq<EventEffect>) -> i64
    decreases effects.len(),
{
    if effects.len() == 0 {
        0
    } else if effects.last().stat == Stat::BurnoutRisk {
        scaled(effects.last().change as int, 1, 100)
    } else {
        burnout_chance(effects.drop_last())
    }
}

impl GameState {
    /// The state after one effect of an event. An exit sets morale to 100; a
    /// burnout risk sets it to -100 when the risk comes true; every other
    /// effect adds its change to its stat.
    #[verifier::opaque]
    pub open spec fn affected(self, effect: EventEffect, unlucky: bool) -> GameState {
        match effect.stat {
            Stat::GameEnd => GameState { morale: ELATED, ..self },
            Stat::BurnoutRisk => if unlucky {
                GameState { morale: BURNT_OUT, ..self }
            } else {
                self
            },
            _ => self.raised(effect.stat, effect.change),
        }
    }

    /// The state after each of the effects in turn.
    pub open spec fn affected_by(self, effects: Seq<EventEffect>, unlucky: bool) -> GameState
        decreases effects.len(),
    {
        if effects.len() == 0 {
            self
        } else {
            self.affected_by(effects.drop_last(), unlucky).affected(effects.last(), unlucky)
        }
    }

    /// Applies one effect of an event.
    pub fn affect(&mut self, effect: &EventEffect, unlucky: bool)
        ensures
            *final(self) == old(self).affected(*effect, unlucky),
            old(self).differs_in_stats_only(*final(self)),
    {
        reveal(GameState::affected);
        match effect.stat {
            Stat::GameEnd => {
                self.morale = ELATED;
            },
            Stat::BurnoutRisk => {
                if unlucky {
                    self.morale = BURNT_OUT;
                }
            },
            _ => {
                self.raise_stat(effect.stat, effect.change);
            },
        }
    }
}

/// Chance, per mille, of burnout that an effect list carries.
pub fn burnout_risk(effects: &Vec<EventEffect>) -> (per_mille: i64)
    ensures
        per_mille == burnout_chance(effects@),
{
    let mut risk: i64 = 0;
    let mut i: usize = 0;
    while i < effects.len()
        invariant
            i <= effects.len(),
            risk == burnout_chance(effects@.take(i as int)),
        decreases effects.len() - i,
    {
        assert(effects@.take(i + 1).drop_last() =~= effects@.take(i as int));
        match effects[i].stat {
            Stat::BurnoutRisk => {
                risk = scale(effects[i].change, 1, 100);
            },
            _ => {},
        }
        i = i + 1;
    }
    assert(effects@.take(i as int) =~= effects@);
    risk
}

/// Applies the effects of an event in order, with a burnout risk coming
/// true or not as `unlucky` says, and then re-derives and bounds the stats.
pub fn apply_effects(state: &mut GameState, effects: &Vec<EventEffect>, unlucky: bool)
    ensures
        *final(state) == old(state).affected_by(effects@, unlucky).derived(),
        final(state).stats_in_range(),
        old(state).differs_in_stats_only(*final(state)),
{
    let mut i: usize = 0;
    while i < effects.len()
        invariant
            i <= effects.len(),
            *state == old(state).affected_by(effects@.take(i as int), unlucky),
            old(state).differs_in_stats_only(*state),
        decreases effects.len() - i,
    {
        assert(effects@.take(i + 1).drop_last() =~= effects@.take(i as int));
        state.affect(&effects[i], unlucky);
        i = i + 1;
    }
    assert(effects@.take(i as int) =~= effects@);
    state.update_derived_metrics();
}

/// Applies the option that the player chose: its effects in order, by the
/// same dispatch on the stat as actions use, and then re-derives and bounds
/// the stats. A burnout risk among the effects is decided by one draw, which
/// a risk of zero never and a risk of a hundred percent always makes come
/// true.
pub fn apply_event_choice(state: &mut GameState, choice: &EventChoice, rng: &mut GameRng)
    ensures
        exists|held: Trial|
            held.is_held_at(burnout_chance(choice.effects@) as int) && *final(state)
                == #[trigger] old(state).affected_by(choice.effects@, held.hit).derived(),
        final(state).stats_in_range(),
{
    let risk = burnout_risk(&choice.effects);
    let held = if risk > 0 {
        rng.trial(risk)
    } else {
        Trial { chance: 0, hit: false }
    };
    apply_effects(state, &choice.effects, held.hit);
    assert(held.is_held_at(burnout_chance(choice.effects@) as int) && *state == old(state).affected_by(
        choice.effects@,
        held.hit,
    ).derived());
}

impl GameEvent {
    /// Whether the event is the catalog's event `id` as it fires in `week`
    /// in the given context.
    pub open spec fn describes(self, id: EventId, ctx: EventContext, week: u32) -> bool {
        &&& self.id == id
        &&& self.week == week
        &&& self.cooldown_weeks == id.cooldown()
        &&& self.follow_up_event_id == id.follow_up()
        &&& self.difficulty_modifier == ctx.modifier
        &&& match self.event_type {
            EnhancedEventType::Automatic { effects } => !id.is_dilemma() && effects@
                == id.effects_of(0, ctx),
            EnhancedEventType::Dilemma { choices } => {
                &&& id.is_dilemma()
                &&& choices@.len() == id.option_count()
                &&& forall|k: int|
                    0 <= k < choices@.len() ==> (#[trigger] choices@[k]).effects@ == id.effects_of(
                        k,
                        ctx,
                    )
            },
        }
    }
}

/// The catalog's event `id` as it fires in `week` in the given context.
pub fn make_event(id: EventId, ctx: &EventContext, week: u32) -> (event: GameEvent)
    ensures
        event.describes(id, *ctx, week),
{
    let event_type = if requires_choice(id) {
        let count = count_options(id);
        let mut choices: Vec<EventChoice> = Vec::new();
        let mut k: usize = 0;
        while k < count
            invariant
                k <= count,
                choices@.len() == k,
                forall|j: int|
                    0 <= j < k ==> (#[trigger] choices@[j]).effects@ == id.effects_of(j, *ctx),
            decreases count - k,
        {
            choices.push(EventChoice { effects: effects_for(id, k, ctx) });
            k = k + 1;
        }
        EnhancedEventType::Dilemma { choices }
    } else {
        EnhancedEventType::Automatic { effects: effects_for(id, 0, ctx) }
    };
    GameEvent {
        id,
        week,
        event_type,
        cooldown_weeks: id.cooldown_weeks(),
        follow_up_event_id: follow_up_of(id),
        difficulty_modifier: ctx.modifier,
    }
}

/// Every random quantity that one weekly pass over the catalog needs,
/// except the draw that enforces the weekly cap.
#[derive(Debug, Clone)]
pub struct EventDraw {
    /// For each event, by catalog position, its trial as it was held.
    pub rolls: Vec<Trial>,
    /// Monthly revenue of the deal that a major client offers.
    pub deal_size: i64,
    pub picks: Picks,
}

impl EventDraw {
    /// Whether the trial of an event succeeded.
    pub open spec fn rolled(self, id: EventId) -> bool {
        id.position() < self.rolls@.len() && self.rolls@[id.position()].hit
    }

    /// Whether the draw is one that [`roll_events`] can make in the state.
    pub open spec fn fits(self, state: GameState) -> bool {
        &&& self.rolls@.len() == EVENT_COUNT
        &&& forall|i: int|
            0 <= i < EVENT_COUNT ==> (#[trigger] self.rolls@[i]).is_held_at(
                EventId::at(i).chance() as int,
            )
        &&& DEAL_MIN <= self.deal_size <= DEAL_MAX
        &&& self.picks.fits(state)
    }
}

/// Whether an event is a candidate this week: it is off cooldown, the state
/// meets its prerequisite, and its trial succeeded.
pub open spec fn qualifies(state: GameState, draw: EventDraw, id: EventId) -> bool {
    state.event_cooldowns.remaining(id) == 0 && id.prerequisite(state, draw.picks) && draw.rolled(
        id,
    )
}

/// The candidates among the first `n` events of the catalog, in catalog
/// order.
pub open spec fn candidates(state: GameState, draw: EventDraw, n: int) -> Seq<EventId>
    decreases n,
{
    if n <= 0 {
        Seq::<EventId>::empty()
    } else if qualifies(state, draw, EventId::at(n - 1)) {
        candidates(state, draw, n - 1).push(EventId::at(n - 1))
    } else {
        candidates(state, draw, n - 1)
    }
}

/// Every candidate qualifies, comes from the first `n` events, and occurs
/// once.
pub proof fn lemma_candidates_qualify(state: GameState, draw: EventDraw, n: int)
    requires
        0 <= n <= EVENT_COUNT,
    ensures
        candidates(state, draw, n).len() <= n,
        forall|i: int|
            0 <= i < candidates(state, draw, n).len() ==> qualifies(
                state,
                draw,
                #[trigger] candidates(state, draw, n)[i],
            ) && candidates(state, draw, n)[i].position() < n,
        forall|i: int, j: int|
            0 <= i < j < candidates(state, draw, n).len() ==> candidates(state, draw, n)[i].position()
                < candidates(state, draw, n)[j].position(),
    decreases n,
{
    if n > 0 {
        lemma_candidates_qualify(state, draw, n - 1);
        assert(EventId::at(n - 1).position() == n - 1);
    }
}

/// The events that are emitted from the candidates: all of them when they
/// are within the weekly cap, and otherwise the two at the drawn positions
/// (the first two, should the positions not be two different candidates).
pub open spec fn emitted(found: Seq<EventId>, first: int, second: int) -> Seq<EventId> {
    if found.len() <= WEEKLY_EVENT_CAP {
        found
    } else if 0 <= first < found.len() && 0 <= second < found.len() && first != second {
        seq![found[first], found[second]]
    } else {
        seq![found[0], found[1]]
    }
}

/// Whether the two positions are ones that [`roll_cap`] can draw for `n`
/// candidates: two different candidates whenever there are more than the cap.
pub open spec fn cap_fits(n: int, first: int, second: int) -> bool {
    n > WEEKLY_EVENT_CAP ==> 0 <= first < n && 0 <= second < n && first != second
}

impl GameState {
    /// The state after the automatic events among `chosen` have applied
    /// their effects, event by event; dilemmas wait for the player.
    pub open spec fn after_automatic(self, chosen: Seq<EventId>, ctx: EventContext) -> GameState
        decreases chosen.len(),
    {
        if chosen.len() == 0 {
            self
        } else {
            let before = self.after_automatic(chosen.drop_last(), ctx);
            if chosen.last().is_dilemma() {
                before
            } else {
                before.affected_by(chosen.last().effects_of(0, ctx), false).derived()
            }
        }
    }
}

/// The cooldown of an event after a weekly pass that emitted `chosen`: the
/// full cooldown for an emitted event, what remained for any other, and one
/// week less of either.
pub open spec fn cooldown_after(before: Cooldowns, chosen: Seq<EventId>, id: EventId) -> u32 {
    ticked(
        if chosen.contains(id) {
            id.cooldown()
        } else {
            before.remaining(id)
        },
    )
}

/// What it means that a weekly pass with the given draws took the state
/// from `before` to `after` and emitted `events`.
pub open spec fn emits(
    before: GameState,
    draw: EventDraw,
    first: int,
    second: int,
    after: GameState,
    events: Seq<GameEvent>,
) -> bool {
    let ctx = context_of(before, draw.picks, draw.deal_size);
    let chosen = emitted(candidates(before, draw, EVENT_COUNT as int), first, second);
    &&& events.len() == chosen.len()
    &&& forall|i: int|
        0 <= i < events.len() ==> (#[trigger] events[i]).describes(chosen[i], ctx, before.week)
    &&& forall|id: EventId|
        #[trigger] after.event_cooldowns.remaining(id) == cooldown_after(
            before.event_cooldowns,
            chosen,
            id,
        )
    &&& after == (GameState {
        event_cooldowns: after.event_cooldowns,
        ..before.after_automatic(chosen, ctx)
    })
}

/// Draws what the weekly pass needs: one trial for each event at the
/// event's chance, the size of a deal, and the customers and competitors
/// that events may be about.
pub fn roll_events(state: &GameState, rng: &mut GameRng) -> (draw: EventDraw)
    ensures
        draw.fits(*state),
{
    let mut rolls: Vec<Trial> = Vec::new();
    let mut i: usize = 0;
    while i < EVENT_COUNT
        invariant
            i <= EVENT_COUNT,
            rolls@.len() == i,
            forall|j: int|
                0 <= j < i ==> (#[trigger] rolls@[j]).is_held_at(EventId::at(j).chance() as int),
        decreases EVENT_COUNT - i,
    {
        rolls.push(rng.trial(trigger_chance(event_at(i))));
        i = i + 1;
    }
    let deal_size = rng.between(DEAL_MIN, DEAL_MAX);
    let customer = crate::customers::get_random_customer(&state.customers, None, rng);
    let enterprise = crate::customers::get_random_customer(
        &state.customers,
        Some(CustomerSegment::Enterprise),
        rng,
    );
    let rival = crate::competitors::get_random_competitor(&state.competitors, rng);
    let threat = crate::competitors::get_most_threatening_competitor(&state.competitors);
    EventDraw { rolls, deal_size, picks: Picks { customer, enterprise, rival, threat } }
}

/// The positions `0..n`, in order.
pub fn positions_up_to(n: usize) -> (positions: Vec<usize>)
    ensures
        positions@ == Seq::new(n as nat, |k: int| k as usize),
{
    let mut positions: Vec<usize> = Vec::new();
    let mut i: usize = 0;
    while i < n
        invariant
            i <= n,
            positions@ == Seq::new(i as nat, |k: int| k as usize),
        decreases n - i,
    {
        positions.push(i);
        assert(positions@ =~= Seq::new((i + 1) as nat, |k: int| k as usize));
        i = i + 1;
    }
    positions
}

/// The first two of the positions `0..n` in a shuffled order are two
/// different positions below `n`.
proof fn lemma_shuffled_pair(n: nat, shuffled: Seq<usize>)
    requires
        2 <= n <= usize::MAX,
        shuffled.to_multiset() == Seq::new(n, |k: int| k as usize).to_multiset(),
    ensures
        shuffled.len() == n,
        shuffled[0] < n,
        shuffled[1] < n,
        shuffled[0] != shuffled[1],
{
    broadcast use vstd::seq_lib::group_to_multiset_ensures;

    let ordered = Seq::new(n, |k: int| k as usize);
    assert(shuffled.len() == ordered.len()) by {
        shuffled.to_multiset_ensures();
        ordered.to_multiset_ensures();
    }
    assert(ordered.no_duplicates());
    ordered.lemma_multiset_has_no_duplicates();
    shuffled.lemma_multiset_has_no_duplicates_conv();
    assert forall|i: int| 0 <= i < shuffled.len() implies (#[trigger] shuffled[i]) < n by {
        shuffled.to_multiset_ensures();
        ordered.to_multiset_ensures();
        assert(shuffled.to_multiset().count(shuffled[i]) > 0);
        assert(ordered.contains(shuffled[i]));
        let k = choose|k: int| 0 <= k < ordered.len() && ordered[k] == shuffled[i];
        assert(ordered[k] == k as usize);
    }
}

/// Draws the two candidates that are kept when `n` candidates exceed the
/// weekly cap: the positions `0..n` are shuffled, and the first two of the
/// shuffled order are kept.
pub fn roll_cap(n: usize, rng: &mut GameRng) -> (kept: (usize, usize))
    ensures
        cap_fits(n as int, kept.0 as int, kept.1 as int),
{
    if n > WEEKLY_EVENT_CAP {
        let mut order = positions_up_to(n);
        rng.shuffle(&mut order);
        proof {
            lemma_shuffled_pair(n as nat, order@);
        }
        (order[0], order[1])
    } else {
        (0, 0)
    }
}

/// Whether an event is a candidate this week.
pub fn is_candidate(state: &GameState, draw: &EventDraw, id: EventId) -> (yes: bool)
    ensures
        yes == qualifies(*state, *draw, id),
{
    let position = id.index();
    can_trigger_event(&state.event_cooldowns, id) && prerequisite_holds(id, state, &draw.picks)
        && position < draw.rolls.len() && draw.rolls[position].hit
}

/// The candidates of the week, in catalog order.
pub fn find_candidates(state: &GameState, draw: &EventDraw) -> (found: Vec<EventId>)
    ensures
        found@ == candidates(*state, *draw, EVENT_COUNT as int),
        found@.len() <= EVENT_COUNT,
{
    let mut found: Vec<EventId> = Vec::new();
    let mut n: usize = 0;
    while n < EVENT_COUNT
        invariant
            n <= EVENT_COUNT,
            found@ == candidates(*state, *draw, n as int),
            found@.len() <= n,
        decreases EVENT_COUNT - n,
    {
        let id = event_at(n);
        if is_candidate(state, draw, id) {
            found.push(id);
        }
        n = n + 1;
    }
    found
}

/// The events that are emitted from the candidates.
pub fn choose_emitted(found: &Vec<EventId>, first: usize, second: usize) -> (chosen: Vec<EventId>)
    ensures
        chosen@ == emitted(found@, first as int, second as int),
        chosen@.len() <= WEEKLY_EVENT_CAP,
{
    if found.len() <= WEEKLY_EVENT_CAP {
        let mut chosen: Vec<EventId> = Vec::new();
        let mut i: usize = 0;
        while i < found.len()
            invariant
                i <= found.len(),
                found.len() <= WEEKLY_EVENT_CAP,
                chosen@ == found@.take(i as int),
            decreases found.len() - i,
        {
            chosen.push(found[i]);
            assert(found@.take(i + 1) =~= found@.take(i as int).push(found@[i as int]));
            i = i + 1;
        }
        assert(found@.take(i as int) =~= found@);
        chosen
    } else if first < found.len() && second < found.len() && first != second {
        vec![found[first], found[second]]
    } else {
        vec![found[0], found[1]]
    }
}

/// Whatever is drawn for the cap, every emitted event is a candidate.
pub proof fn lemma_emitted_are_candidates(found: Seq<EventId>, first: int, second: int)
    ensures
        emitted(found, first, second).len() <= WEEKLY_EVENT_CAP,
        forall|i: int|
            0 <= i < emitted(found, first, second).len() ==> found.contains(
                #[trigger] emitted(found, first, second)[i],
            ),
{
    let chosen = emitted(found, first, second);
    assert forall|i: int| 0 <= i < chosen.len() implies found.contains(#[trigger] chosen[i]) by {
        if found.len() <= WEEKLY_EVENT_CAP {
            assert(found[i] == chosen[i]);
        } else if 0 <= first < found.len() && 0 <= second < found.len() && first != second {
            if i == 0 {
                assert(found[first] == chosen[i]);
            } else {
                assert(found[second] == chosen[i]);
            }
        } else {
            assert(found[i] == chosen[i]);
        }
    }
}

/// An event on cooldown is no candidate and is not emitted, whatever is
/// drawn.
pub proof fn lemma_cooldown_blocks(
    state: GameState,
    draw: EventDraw,
    first: int,
    second: int,
    id: EventId,
)
    requires
        state.event_cooldowns.remaining(id) > 0,
    ensures
        !qualifies(state, draw, id),
        !candidates(state, draw, EVENT_COUNT as int).contains(id),
        !emitted(candidates(state, draw, EVENT_COUNT as int), first, second).contains(id),
{
    let found = candidates(state, draw, EVENT_COUNT as int);
    lemma_candidates_qualify(state, draw, EVENT_COUNT as int);
    lemma_emitted_are_candidates(found, first, second);
    if found.contains(id) {
        let i = choose|i: int| 0 <= i < found.len() && found[i] == id;
        assert(qualifies(state, draw, found[i]));
    }
    let chosen = emitted(found, first, second);
    if chosen.contains(id) {
        let i = choose|i: int| 0 <= i < chosen.len() && chosen[i] == id;
        assert(found.contains(chosen[i]));
    }
}

/// Runs the weekly pass with the given draws: finds the candidates, keeps
/// at most two of them, applies the effects of the automatic ones among
/// those, starts the cooldown of every emitted event, and then lets every
/// cooldown count down by one week.
pub fn emit_events(
    state: &mut GameState,
    draw: &EventDraw,
    first: usize,
    second: usize,
) -> (events: Vec<GameEvent>)
    ensures
        emits(*old(state), *draw, first as int, second as int, *final(state), events@),
        events@.len() <= WEEKLY_EVENT_CAP,
{
    let ctx = event_context(state, &draw.picks, draw.deal_size);
    let found = find_candidates(state, draw);
    let chosen = choose_emitted(&found, first, second);
    let week = state.week;
    let mut events: Vec<GameEvent> = Vec::new();
    let mut i: usize = 0;
    while i < chosen.len()
        invariant
            i <= chosen.len(),
            events@.len() == i,
            forall|k: int| 0 <= k < i ==> (#[trigger] events@[k]).describes(chosen@[k], ctx, week),
            *state == old(state).after_automatic(chosen@.take(i as int), ctx),
            state.event_cooldowns == old(state).event_cooldowns,
        decreases chosen.len() - i,
    {
        let id = chosen[i];
        assert(chosen@.take(i + 1).drop_last() =~= chosen@.take(i as int));
        assert(chosen@.take(i + 1).last() == id);
        events.push(make_event(id, &ctx, week));
        if !requires_choice(id) {
            let effects = effects_for(id, 0, &ctx);
            apply_effects(state, &effects, false);
        }
        i = i + 1;
    }
    assert(chosen@.take(i as int) =~= chosen@);
    let ghost settled = *state;
    let mut j: usize = 0;
    while j < chosen.len()
        invariant
            j <= chosen.len(),
            forall|id: EventId|
                state.event_cooldowns.remaining(id) == if chosen@.take(j as int).contains(id) {
                    id.cooldown()
                } else {
                    old(state).event_cooldowns.remaining(id)
                },
            *state == (GameState { event_cooldowns: state.event_cooldowns, ..settled }),
        decreases chosen.len() - j,
    {
        let id = chosen[j];
        let ghost before = state.event_cooldowns;
        state.event_cooldowns.set(id, id.cooldown_weeks());
        assert forall|other: EventId|
            state.event_cooldowns.remaining(other) == if chosen@.take(j + 1).contains(other) {
                other.cooldown()
            } else {
                old(state).event_cooldowns.remaining(other)
            } by {
            assert(chosen@.take(j + 1) =~= chosen@.take(j as int).push(id));
            if chosen@.take(j as int).contains(other) {
                let k = choose|k: int|
                    0 <= k < chosen@.take(j as int).len() && chosen@.take(j as int)[k] == other;
                assert(chosen@.take(j + 1)[k] == other);
            }
            if other == id {
                assert(chosen@.take(j + 1)[j as int] == id);
            }
        }
        j = j + 1;
    }
    assert(chosen@.take(j as int) =~= chosen@);
    state.event_cooldowns.tick();
    events
}

/// Evaluates the catalog for the coming week. Every event that is off
/// cooldown, whose prerequisite the state meets and whose trial succeeds is
/// a candidate; more than two candidates are cut down to two drawn at
/// random. The automatic events among those emitted apply their effects, each
/// emitted event starts its cooldown, and every cooldown above zero then
/// counts down by one, once. Whatever is drawn, the outcome is the one that
/// [`emit_events`] gives for fitting draws; no event that is on cooldown is
/// ever emitted.
pub fn check_for_events(state: &mut GameState, rng: &mut GameRng) -> (events: Vec<GameEvent>)
    ensures
        exists|draw: EventDraw, first: int, second: int|
            draw.fits(*old(state)) && cap_fits(
                candidates(*old(state), draw, EVENT_COUNT as int).len() as int,
                first,
                second,
            ) && #[trigger] emits(*old(state), draw, first, second, *final(state), events@),
        passes(*old(state), *final(state), events@),
        events@.len() <= WEEKLY_EVENT_CAP,
        forall|i: int|
            0 <= i < events@.len() ==> old(state).event_cooldowns.remaining(
                (#[trigger] events@[i]).id,
            ) == 0,
        forall|i: int|
            0 <= i < events@.len() ==> final(state).event_cooldowns.remaining(
                (#[trigger] events@[i]).id,
            ) == events@[i].id.cooldown() - 1,
{
    let draw = roll_events(state, rng);
    let found = find_candidates(state, &draw);
    let kept = roll_cap(found.len(), rng);
    let events = emit_events(state, &draw, kept.0, kept.1);
    proof {
        let chosen = emitted(found@, kept.0 as int, kept.1 as int);
        lemma_candidates_qualify(*old(state), draw, EVENT_COUNT as int);
        lemma_emitted_are_candidates(found@, kept.0 as int, kept.1 as int);
        assert forall|i: int| 0 <= i < events@.len() implies old(state).event_cooldowns.remaining(
            (#[trigger] events@[i]).id,
        ) == 0 && final(state).event_cooldowns.remaining(events@[i].id) == events@[i].id.cooldown()
            - 1 by {
            assert(events@[i].id == chosen[i]);
            assert(found@.contains(chosen[i]));
            let k = choose|k: int| 0 <= k < found@.len() && found@[k] == chosen[i];
            assert(qualifies(*old(state), draw, found@[k]));
            assert(chosen.contains(chosen[i]));
        }
    }
    events
}

/// A cooldown after `weeks` more weekly passes in which the event is not
/// emitted.
pub open spec fn ticked_times(cooldown: u32, weeks: nat) -> u32
    decreases weeks,
{
    if weeks == 0 {
        cooldown
    } else {
        ticked(ticked_times(cooldown, (weeks - 1) as nat))
    }
}

/// A cooldown never goes below zero, and it goes down by exactly one a week
/// until it gets there.
pub proof fn lemma_cooldown_counts_down(cooldown: u32, weeks: nat)
    ensures
        ticked_times(cooldown, weeks) == if weeks <= cooldown {
            cooldown - weeks
        } else {
            0
        },
    decreases weeks,
{
    if weeks > 0 {
        lemma_cooldown_counts_down(cooldown, (weeks - 1) as nat);
    }
}

/// An event that fires in the pass of some week is on cooldown in the pass
/// of each of the following weeks until its cooldown has run: with
/// `cooldowns[k]` the cooldowns before the `k`-th pass and `chosen[k]` the
/// events that pass emits, an event emitted in pass 0 has `cooldown - j` weeks
/// left before pass `j` and is not emitted in it, for every `j` from 1 up to
/// its cooldown.
pub proof fn lemma_cooldown_spans_its_weeks(
    cooldowns: Seq<Cooldowns>,
    chosen: Seq<Seq<EventId>>,
    id: EventId,
    j: int,
)
    requires
        cooldowns.len() == chosen.len() + 1,
        forall|k: int, e: EventId|
            0 <= k < chosen.len() ==> #[trigger] cooldowns[k + 1].remaining(e) == cooldown_after(
                cooldowns[k],
                chosen[k],
                e,
            ),
        forall|k: int, e: EventId|
            0 <= k < chosen.len() && #[trigger] chosen[k].contains(e) ==> cooldowns[k].remaining(e)
                == 0,
        chosen.len() > 0,
        chosen[0].contains(id),
        1 <= j < id.cooldown(),
        j <= chosen.len(),
    ensures
        cooldowns[j].remaining(id) == id.cooldown() - j,
        j < chosen.len() ==> !chosen[j].contains(id),
    decreases j,
{
    if j > 1 {
        lemma_cooldown_spans_its_weeks(cooldowns, chosen, id, j - 1);
        assert(!chosen[j - 1].contains(id));
    }
    assert(cooldowns[j - 1 + 1].remaining(id) == cooldown_after(
        cooldowns[j - 1],
        chosen[j - 1],
        id,
    ));
    if j < chosen.len() && chosen[j].contains(id) {
        assert(cooldowns[j].remaining(id) == 0);
    }
}

/// What it means that a weekly pass took the state from `before` to `after`
/// and emitted `events`, whatever was drawn.
pub open spec fn passes(before: GameState, after: GameState, events: Seq<GameEvent>) -> bool {
    exists|draw: EventDraw, first: int, second: int| #[trigger]
        emits(before, draw, first, second, after, events)
}

/// Whether the event is among the events.
pub open spec fn has_event(events: Seq<GameEvent>, id: EventId) -> bool {
    exists|i: int| 0 <= i < events.len() && (#[trigger] events[i]).id == id
}

/// One weekly pass and the cooldown of one event: an event that is emitted
/// was off cooldown and has its cooldown less one week afterwards; an event
/// on cooldown is not emitted and has one week less afterwards.
pub proof fn lemma_pass_and_cooldown(
    before: GameState,
    after: GameState,
    events: Seq<GameEvent>,
    id: EventId,
)
    requires
        passes(before, after, events),
    ensures
        has_event(events, id) ==> before.event_cooldowns.remaining(id) == 0
            && after.event_cooldowns.remaining(id) == id.cooldown() - 1,
        before.event_cooldowns.remaining(id) > 0 ==> !has_event(events, id)
            && after.event_cooldowns.remaining(id) == before.event_cooldowns.remaining(id) - 1,
{
    let (draw, first, second) = choose|draw: EventDraw, first: int, second: int| #[trigger]
        emits(before, draw, first, second, after, events);
    let found = candidates(before, draw, EVENT_COUNT as int);
    let chosen = emitted(found, first, second);
    assert(after.event_cooldowns.remaining(id) == cooldown_after(
        before.event_cooldowns,
        chosen,
        id,
    ));
    if has_event(events, id) {
        let i = choose|i: int| 0 <= i < events.len() && (#[trigger] events[i]).id == id;
        assert(events[i].describes(chosen[i], context_of(before, draw.picks, draw.deal_size), before.week));
        assert(chosen[i] == id);
        assert(chosen.contains(id));
        if before.event_cooldowns.remaining(id) > 0 {
            lemma_cooldown_blocks(before, draw, first, second, id);
        }
    }
    if before.event_cooldowns.remaining(id) > 0 {
        lemma_cooldown_blocks(before, draw, first, second, id);
    }
}

/// An event that a weekly pass emits stays away for its cooldown. Let the
/// passes of consecutive weeks take `before[k]` to `after[k]` and emit
/// `events[k]`, and let nothing but the passes change the cooldowns. If the
/// pass of week 0 emits the event, then before the pass of week `j` the event
/// has `cooldown - j` weeks left, for every `j` from 1 up to its cooldown, and
/// no pass before week `cooldown` emits it again.
pub proof fn lemma_event_stays_away(
    before: Seq<GameState>,
    after: Seq<GameState>,
    events: Seq<Seq<GameEvent>>,
    id: EventId,
    j: int,
)
    requires
        before.len() == after.len(),
        before.len() == events.len(),
        forall|k: int| 0 <= k < before.len() ==> #[trigger] passes(before[k], after[k], events[k]),
        forall|k: int|
            0 <= k < before.len() - 1 ==> (#[trigger] before[k + 1]).event_cooldowns.remaining(id)
                == after[k].event_cooldowns.remaining(id),
        before.len() > 0,
        has_event(events[0], id),
        1 <= j <= id.cooldown(),
        j < before.len(),
    ensures
        before[j].event_cooldowns.remaining(id) == id.cooldown() - j,
        j < id.cooldown() ==> !has_event(events[j], id),
    decreases j,
{
    if j == 1 {
        assert(passes(before[0], after[0], events[0]));
        lemma_pass_and_cooldown(before[0], after[0], events[0], id);
        assert(before[0int + 1].event_cooldowns.remaining(id) == after[0].event_cooldowns.remaining(id));
    } else {
        lemma_event_stays_away(before, after, events, id, j - 1);
        assert(passes(before[j - 1], after[j - 1], events[j - 1]));
        lemma_pass_and_cooldown(before[j - 1], after[j - 1], events[j - 1], id);
        assert(before[j - 1 + 1].event_cooldowns.remaining(id) == after[j - 1].event_cooldowns.remaining(
            id,
        ));
    }
    assert(passes(before[j], after[j], events[j]));
    lemma_pass_and_cooldown(before[j], after[j], events[j], id);
}

} // verus!
