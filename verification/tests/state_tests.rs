use founders_dilemma::state::DifficultyMode;
use founders_dilemma::state::GameState;
use founders_dilemma::state::Runway;
use founders_dilemma::synergies::ActionType;

#[test]
fn test_new_game_indie() {
    let state = GameState::new(DifficultyMode::IndieBootstrap);
    assert_eq!(state.week, 0);
    assert_eq!(state.bank, 50_000_000);
    assert_eq!(state.burn, 8_000_000);
    assert!(state.runway_months.above(6_000));
    assert_eq!(state.focus_slots, 3);
    assert!(state.unlocked_actions.contains(&ActionType::ShipFeature));
    assert_eq!(state.team_size, 1);
    assert_eq!(state.incident_count, 0);
}

#[test]
fn test_new_game_vc() {
    let state = GameState::new(DifficultyMode::VCTrack);
    assert_eq!(state.bank, 1_000_000_000);
    assert_eq!(state.burn, 80_000_000);
}

#[test]
fn test_runway_calculation() {
    let mut state = GameState::new(DifficultyMode::IndieBootstrap);
    state.bank = 100_000_000;
    state.burn = 10_000_000;
    state.update_derived_metrics();
    assert_eq!(state.runway_months, Runway::Months(10_000));
}

#[test]
fn test_advance_week() {
    let mut state = GameState::new(DifficultyMode::IndieBootstrap);
    let initial_bank = state.bank;
    let initial_week = state.week;

    state.advance_week();

    assert_eq!(state.week, initial_week + 1);
    assert!(state.bank < initial_bank);
    assert_eq!(state.history.len(), 2);
}

#[test]
fn test_morale_clamp() {
    let mut state = GameState::new(DifficultyMode::IndieBootstrap);
    state.morale = 150_000;
    state.update_derived_metrics();
    assert_eq!(state.morale, 100_000);

    state.morale = -10_000;
    state.update_derived_metrics();
    assert_eq!(state.morale, 0);
}

#[test]
fn test_is_action_unlocked() {
    let state = GameState::new(DifficultyMode::IndieBootstrap);
    assert!(state.is_kind_unlocked(ActionType::ShipFeature));
    assert!(!state.is_kind_unlocked(ActionType::DevRel));
}

#[test]
fn test_get_active_modifiers() {
    let state = GameState::new(DifficultyMode::IndieBootstrap);
    let modifiers = state.get_active_modifiers();
    assert!(modifiers.is_empty());
}

#[test]
fn new_game_matches_the_starting_table() {
    let state = GameState::new(DifficultyMode::IndieBootstrap);
    assert_eq!(state.runway_months, Runway::Months(6_250));
    assert_eq!(state.morale, 80_000);
    assert_eq!(state.tech_debt, 10_000);
    assert_eq!(state.reputation, 50_000);
    assert_eq!(state.wau, 100);
    assert_eq!(state.velocity, 1_000);
    assert_eq!(state.momentum, 800);
    assert_eq!(state.history.len(), 1);
    assert_eq!(state.history[0].week, 0);
    assert_eq!(state.game_id.len(), 36);
    assert_ne!(state.game_id, GameState::new(DifficultyMode::IndieBootstrap).game_id);
    assert!(state.started_at > 1_600_000_000);
    let other =
        GameState::with_identity(DifficultyMode::InfraDevTool, String::from("f47ac10b"), 1_700_000_000);
    assert_eq!(other.game_id, "f47ac10b");
    assert_eq!(other.started_at, 1_700_000_000);
    assert_eq!(other.bank, 300_000_000);
}

#[test]
fn starting_values_by_difficulty() {
    assert_eq!(DifficultyMode::RegulatedFintech.starting_bank(), 500_000_000);
    assert_eq!(DifficultyMode::InfraDevTool.starting_bank(), 300_000_000);
    assert_eq!(DifficultyMode::RegulatedFintech.starting_burn(), 40_000_000);
    assert_eq!(DifficultyMode::InfraDevTool.starting_burn(), 25_000_000);
    assert_eq!(DifficultyMode::IndieBootstrap.burn_modifier(), 500);
    assert_eq!(DifficultyMode::VCTrack.growth_modifier(), 1_500);
    assert_eq!(DifficultyMode::RegulatedFintech.compliance_burden(), 2_000);
}

#[test]
fn runway_is_unlimited_without_burn() {
    let mut state = GameState::new(DifficultyMode::IndieBootstrap);
    state.burn = 0;
    state.update_derived_metrics();
    assert_eq!(state.runway_months, Runway::Unlimited);
    assert!(state.runway_months.above(1_000_000));
    assert!(!state.runway_months.below(1));
    assert!(!state.runway_months.spent());
}

#[test]
fn derived_metrics_bound_every_stat() {
    let mut state = GameState::new(DifficultyMode::IndieBootstrap);
    state.morale = i64::MAX;
    state.reputation = i64::MIN;
    state.nps = -250_000;
    state.tech_debt = 101_000;
    state.compliance_risk = -1;
    state.velocity = 5;
    state.churn_rate = 100_001;
    state.update_derived_metrics();
    assert_eq!(state.morale, 100_000);
    assert_eq!(state.reputation, 0);
    assert_eq!(state.nps, -100_000);
    assert_eq!(state.tech_debt, 100_000);
    assert_eq!(state.compliance_risk, 0);
    assert_eq!(state.velocity, 100);
    assert_eq!(state.churn_rate, 100_000);
    state.velocity = 9_000;
    state.update_derived_metrics();
    assert_eq!(state.velocity, 3_000);
}

#[test]
fn advance_week_applies_the_passive_economics() {
    let mut state = GameState::new(DifficultyMode::IndieBootstrap);
    state.mrr = 4_000_000;
    state.wau_growth_rate = 10_000;
    state.velocity = 1_300;
    state.advance_week();
    // 50,000 - 8,000 / 4 + 4,000 / 4
    assert_eq!(state.bank, 49_000_000);
    assert_eq!(state.wau, 110);
    assert_eq!(state.wau_growth_rate, 10_000);
    assert_eq!(state.morale, 79_500);
    assert_eq!(state.tech_debt, 10_500);
    assert_eq!(state.week, 1);
    assert_eq!(state.history.last().unwrap().week, 1);
    assert_eq!(state.history.last().unwrap().bank, 49_000_000);
}

#[test]
fn history_keeps_the_last_52_weeks() {
    let mut state = GameState::new(DifficultyMode::VCTrack);
    for _ in 0..200 {
        state.advance_week();
        assert!(state.history.len() <= 52);
    }
    assert_eq!(state.history.len(), 52);
    assert_eq!(state.history.last().unwrap().week, 200);
    assert_eq!(state.history[0].week, 149);
}

#[test]
fn consistency_is_what_a_turn_leaves() {
    let mut state = GameState::new(DifficultyMode::VCTrack);
    assert!(state.check_consistency());
    state.morale = 100_001;
    assert!(!state.check_consistency());
    state.update_derived_metrics();
    assert!(state.check_consistency());
    state.bank = 5;
    assert!(!state.check_consistency());
    state.update_derived_metrics();
    assert!(state.check_consistency());
    for _ in 0..60 {
        state.advance_week();
        assert!(state.check_consistency());
    }
    let extra = state.history[0];
    state.history.push(extra);
    assert!(!state.check_consistency());
}

#[test]
fn week_counter_stops_at_its_limit() {
    let mut state = GameState::new(DifficultyMode::VCTrack);
    state.week = u32::MAX;
    state.advance_week();
    assert_eq!(state.week, u32::MAX);
}

#[test]
fn game_over_and_victory_flags() {
    let mut state = GameState::new(DifficultyMode::IndieBootstrap);
    assert!(!state.is_game_over());
    assert!(!state.has_won());
    state.escape_velocity_progress.streak_weeks = 12;
    assert!(state.is_game_over());
    assert!(state.has_won());
    state.escape_velocity_progress.streak_weeks = 0;
    state.reputation = 10_000;
    assert!(state.is_game_over());
    state.reputation = 10_001;
    assert!(!state.is_game_over());
    state.bank = 0;
    assert!(state.is_game_over());
}

#[test]
fn team_composition_and_breakdown() {
    let mut state = GameState::new(DifficultyMode::IndieBootstrap);
    let team = state.get_team_composition();
    assert_eq!((team.engineers, team.sales, team.other), (1, 0, 0));
    state.team_size = 9;
    let team = state.get_team_composition();
    assert_eq!((team.engineers, team.sales, team.other), (4, 2, 3));
    state.team_size = 0;
    let team = state.get_team_composition();
    assert_eq!((team.engineers, team.sales, team.other), (1, 0, 0));
    let breakdown = state.get_customer_breakdown();
    assert_eq!((breakdown.enterprise, breakdown.smb, breakdown.self_serve), (0, 0, 100));
}

#[test]
fn the_breakdown_reads_the_counts_by_segment() {
    let mut state = GameState::new(DifficultyMode::IndieBootstrap);
    assert_eq!(state.customer_segments.len(), 3);
    state.customer_segments.insert(founders_dilemma::state::ENTERPRISE_KEY, 4);
    state.customer_segments.insert(founders_dilemma::state::SMB_KEY, 7);
    state.customer_segments.remove(&founders_dilemma::state::SELF_SERVE_KEY);
    let breakdown = state.get_customer_breakdown();
    assert_eq!((breakdown.enterprise, breakdown.smb, breakdown.self_serve), (4, 7, 0));
}
