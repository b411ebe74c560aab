use founders_dilemma::actions::Action;
use founders_dilemma::actions::AdChannel;
use founders_dilemma::actions::CoachingFocus;
use founders_dilemma::actions::ContentType;
use founders_dilemma::actions::Quality;
use founders_dilemma::actions::RefactorDepth;
use founders_dilemma::progression::action_from_unlock_key;
use founders_dilemma::progression::action_unlock_key;
use founders_dilemma::progression::calculate_meta_progression_bonuses;
use founders_dilemma::progression::check_milestone_events;
use founders_dilemma::progression::check_unlocks;
use founders_dilemma::progression::generate_seasonal_challenge;
use founders_dilemma::progression::get_available_actions;
use founders_dilemma::progression::kind_from_key;
use founders_dilemma::progression::unlock_actions;
use founders_dilemma::progression::Achievement;
use founders_dilemma::progression::ChallengeType;
use founders_dilemma::progression::Metric;
use founders_dilemma::progression::Milestone;
use founders_dilemma::progression::MilestoneEvent;
use founders_dilemma::progression::SeasonalChallenge;
use founders_dilemma::progression::StartingBonuses;
use founders_dilemma::progression::UnlockCondition;
use founders_dilemma::state::DifficultyMode;
use founders_dilemma::state::GameState;
use founders_dilemma::synergies::ActionType;

#[test]
fn unlock_keys_name_the_kind() {
    assert_eq!(action_unlock_key(&Action::ShipFeature { quality: Quality::Polish }), "ShipFeature");
    assert_eq!(action_unlock_key(&Action::PaidAds { budget: 7, channel: AdChannel::Display }), "PaidAds");
    assert_eq!(action_unlock_key(&Action::TakeBreak), "TakeBreak");
    assert_eq!(kind_from_key("DevRel"), Some(ActionType::DevRel));
    assert_eq!(kind_from_key("devrel"), None);
    assert_eq!(action_from_unlock_key("Fundraise"), Some(Action::Fundraise { target: 250_000_000 }));
    assert_eq!(action_from_unlock_key("ComplianceWork"), Some(Action::ComplianceWork { hours: 8 }));
    assert_eq!(
        action_from_unlock_key("RefactorCode"),
        Some(Action::RefactorCode { depth: RefactorDepth::Surface })
    );
    assert_eq!(action_from_unlock_key(""), None);
    assert_eq!(action_from_unlock_key("Hire "), None);
}

#[test]
fn actions_unlock_by_week_and_metric() {
    let mut state = GameState::new(DifficultyMode::IndieBootstrap);
    // The team has one member from the start, which unlocks firing.
    assert_eq!(check_unlocks(&state), vec![Action::Fire { reason: founders_dilemma::actions::FiringReason::Performance }]);
    state.week = 5;
    let unlocked = check_unlocks(&state);
    assert_eq!(
        unlocked,
        vec![
            Action::RefactorCode { depth: RefactorDepth::Surface },
            Action::ContentLaunch { content_type: ContentType::BlogPost },
            Action::Coach { focus: CoachingFocus::Skills },
            Action::Fire { reason: founders_dilemma::actions::FiringReason::Performance },
        ]
    );
    unlock_actions(&mut state, &unlocked);
    assert_eq!(state.unlocked_actions.len(), 9);
    assert!(state.is_kind_unlocked(ActionType::Coach));
    assert!(check_unlocks(&state).is_empty());
    unlock_actions(&mut state, &unlocked);
    assert_eq!(state.unlocked_actions.len(), 9);
    state.wau = 500;
    state.incident_count = 1;
    state.week = 13;
    let unlocked = check_unlocks(&state);
    assert_eq!(unlocked.len(), 6);
    assert_eq!(unlocked[0], Action::RunExperiment { category: founders_dilemma::actions::ExperimentType::Pricing });
    assert_eq!(unlocked[5], Action::IncidentResponse);
    state.wau = 499;
    assert_eq!(check_unlocks(&state).len(), 5);
}

#[test]
fn unlock_conditions() {
    let mut state = GameState::new(DifficultyMode::IndieBootstrap);
    assert!(UnlockCondition::ReachWeek(0).is_met(&state));
    assert!(!UnlockCondition::ReachWeek(1).is_met(&state));
    assert!(UnlockCondition::AchieveMetric(Metric::Reputation, 50_000).is_met(&state));
    assert!(!UnlockCondition::AchieveMetric(Metric::Reputation, 50_001).is_met(&state));
    assert!(!UnlockCondition::AchieveMetric(Metric::Mrr, 1).is_met(&state));
    state.mrr = 1;
    assert!(UnlockCondition::AchieveMetric(Metric::Mrr, 1).is_met(&state));
    assert!(UnlockCondition::AchieveMetric(Metric::Wau, 100_000).is_met(&state));
    assert!(!UnlockCondition::EarnAchievement(Achievement::Bootstrapper).is_met(&state));
    assert!(!UnlockCondition::CompleteEvent(founders_dilemma::events_enhanced::EventId::VcOffer).is_met(&state));
}

#[test]
fn available_actions_are_the_core_and_the_unlocked() {
    let mut state = GameState::new(DifficultyMode::IndieBootstrap);
    let core = get_available_actions(&state);
    assert_eq!(core.len(), 9);
    assert_eq!(core[0], Action::ShipFeature { quality: Quality::Quick });
    assert_eq!(core[8], Action::TakeBreak);
    state.unlocked_actions.push(ActionType::RefactorCode);
    state.unlocked_actions.push(ActionType::PaidAds);
    state.unlocked_actions.push(ActionType::RefactorCode);
    let more = get_available_actions(&state);
    assert_eq!(more.len(), 12);
    assert_eq!(more[9], Action::RefactorCode { depth: RefactorDepth::Surface });
    assert_eq!(more[10], Action::RefactorCode { depth: RefactorDepth::Deep });
    assert_eq!(more[11], Action::PaidAds { budget: 20_000_000, channel: AdChannel::Google });
}

#[test]
fn milestones_and_challenges() {
    let mut state = GameState::new(DifficultyMode::IndieBootstrap);
    assert_eq!(check_milestone_events(&state), None);
    state.week = 12;
    assert_eq!(
        check_milestone_events(&state),
        Some(MilestoneEvent { week: 12, milestone: Milestone::QuarterReview })
    );
    state.week = 26;
    assert_eq!(check_milestone_events(&state).unwrap().milestone, Milestone::HalfYear);
    state.week = 39;
    assert_eq!(check_milestone_events(&state).unwrap().milestone, Milestone::ScalingChallenges);
    state.week = 52;
    assert_eq!(check_milestone_events(&state).unwrap().milestone, Milestone::YearOneComplete);
    state.week = 53;
    assert_eq!(check_milestone_events(&state), None);
    let mode = DifficultyMode::VCTrack;
    assert_eq!(generate_seasonal_challenge(0, &mode), None);
    assert_eq!(
        generate_seasonal_challenge(13, &mode),
        Some(SeasonalChallenge {
            week_trigger: 13,
            challenge_type: ChallengeType::HiringFreeze,
            difficulty_modifier: 1_200,
        })
    );
    assert_eq!(generate_seasonal_challenge(26, &mode).unwrap().difficulty_modifier, 1_500);
    assert_eq!(generate_seasonal_challenge(39, &mode).unwrap().challenge_type, ChallengeType::FundraisingWindow);
    assert_eq!(generate_seasonal_challenge(52, &mode), None);
    assert_eq!(generate_seasonal_challenge(14, &mode), None);
}

#[test]
fn achievements_add_up() {
    let none = calculate_meta_progression_bonuses(&Vec::new());
    assert_eq!(
        none,
        StartingBonuses { bank_bonus: 0, wau_bonus: 0, tech_debt_bonus: 0, morale_bonus: 0, reputation_bonus: 0 }
    );
    let some = calculate_meta_progression_bonuses(&vec![
        Achievement::Bootstrapper,
        Achievement::GrowthMaster,
        Achievement::EngineeringExcellence,
        Achievement::TeamBuilder,
        Achievement::ThoughtLeader,
        Achievement::Other,
        Achievement::Bootstrapper,
    ]);
    assert_eq!(
        some,
        StartingBonuses {
            bank_bonus: 40_000_000,
            wau_bonus: 100,
            tech_debt_bonus: -10_000,
            morale_bonus: 10_000,
            reputation_bonus: 15_000,
        }
    );
}
