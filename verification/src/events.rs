//! The plain events of the first weeks: things that happen without a
//! condition, and the shape of a dilemma as it is shown to the player.
use vstd::prelude::*;

verus! {

/// The kinds of plain event. Money is in thousandths of a dollar, tech debt
/// in thousandths of a point.
#[derive(Debug, Clone, PartialEq, Eq)]
pub enum EventType {
    ViralMoment,
    BigLogoSigns,
    PressFeature,
    KeyHireJoins,
    InvestorInbound,
    CloudOutage,
    KeyHireChurns,
    CompetitorLaunch,
    RegulatoryAudit,
    SecurityIncident,
    BigLogoChurns,
    UnexpectedBill,
    /// A client offers revenue for a custom feature.
    CustomDealOffer { client_name: String, mrr_gain: i64, tech_debt_cost: i64 },
}

/// Whether an event is good news, bad news, or a choice.
#[derive(Debug, Clone, Copy, PartialEq, Eq, Structural)]
pub enum EventTone {
    Positive,
    Negative,
    Choice,
}

/// A plain event that occurred in a week.
#[derive(Debug, Clone, PartialEq, Eq)]
pub struct GameEvent {
    pub week: u32,
    pub event_type: EventType,
}

/// A dilemma as it is shown to the player.
#[derive(Debug, Clone, PartialEq, Eq)]
pub struct Dilemma {
    pub id: String,
    pub title: String,
    pub description: String,
    pub options: Vec<DilemmaOption>,
}

/// One option of a dilemma as it is shown to the player.
#[derive(Debug, Clone, PartialEq, Eq)]
pub struct DilemmaOption {
    pub label: String,
    pub description: String,
    pub effects_description: String,
}

impl EventType {
    /// The tone of a kind of event.
    pub open spec fn tone(self) -> EventTone {
        match self {
            EventType::ViralMoment
            | EventType::BigLogoSigns
            | EventType::PressFeature
            | EventType::KeyHireJoins
            | EventType::InvestorInbound => EventTone::Positive,
            EventType::CustomDealOffer { .. } => EventTone::Choice,
            _ => EventTone::Negative,
        }
    }
}

impl GameEvent {
    /// An event of the given kind in the given week.
    pub fn new(week: u32, event_type: EventType) -> (event: GameEvent)
        ensures
            event.week == week,
            event.event_type == event_type,
    {
        GameEvent { week, event_type }
    }

    /// Whether the event is good news, bad news, or a choice: the first five
    /// kinds are good news, a custom deal is a choice, the rest is bad news.
    pub fn tone(&self) -> (tone: EventTone)
        ensures
            tone == self.event_type.tone(),
    {
        match &self.event_type {
            EventType::ViralMoment
            | EventType::BigLogoSigns
            | EventType::PressFeature
            | EventType::KeyHireJoins
            | EventType::InvestorInbound => EventTone::Positive,
            EventType::CustomDealOffer { .. } => EventTone::Choice,
            _ => EventTone::Negative,
        }
    }
}

} // verus!
