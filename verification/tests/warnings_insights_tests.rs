use founders_dilemma::competitors::Competitor;
use founders_dilemma::competitors::FundingStage;
use founders_dilemma::competitors::PricingStrategy;
use founders_dilemma::events::EventTone;
use founders_dilemma::events::EventType;
use founders_dilemma::events::GameEvent;
use founders_dilemma::insights::generate_weekly_insights;
use founders_dilemma::insights::get_average_competitor_feature_parity;
use founders_dilemma::insights::get_total_competitor_funding;
use founders_dilemma::insights::InsightCategory;
use founders_dilemma::insights::InsightKind;
use founders_dilemma::insights::InsightSeverity;
use founders_dilemma::state::DifficultyMode;
use founders_dilemma::state::GameState;
use founders_dilemma::state::Runway;
use founders_dilemma::warnings::analyze_burn_trend;
use founders_dilemma::warnings::analyze_morale_trend;
use founders_dilemma::warnings::analyze_revenue_trend;
use founders_dilemma::warnings::check_failure_warnings;
use founders_dilemma::warnings::count_declining_weeks;
use founders_dilemma::warnings::count_high_churn_weeks;
use founders_dilemma::warnings::count_low_velocity_weeks;
use founders_dilemma::warnings::estimate_weeks_until_debt_critical;
use founders_dilemma::warnings::estimate_weeks_until_morale_critical;
use founders_dilemma::warnings::estimate_weeks_until_reputation_critical;
use founders_dilemma::warnings::estimate_weeks_until_reputation_failure;
use founders_dilemma::warnings::estimate_weeks_until_velocity_critical;
use founders_dilemma::warnings::generate_morale_warning_signs;
use founders_dilemma::warnings::RiskId;
use founders_dilemma::warnings::WarningSeverity;
use founders_dilemma::warnings::WarningSign;

fn rival(stage: FundingStage, parity: i64, funding: i64, team: u32) -> Competitor {
    Competitor {
        funding_stage: stage,
        feature_parity: parity,
        pricing_strategy: PricingStrategy::Premium,
        market_share: 10_000,
        aggressiveness: 500,
        last_action_week: 0,
        action_history: Vec::new(),
        total_funding: funding,
        team_size: team,
        is_acquired: false,
    }
}

#[test]
fn test_death_march_warning() {
    let mut state = GameState::new(DifficultyMode::IndieBootstrap);
    state.morale = 35_000;

    for i in 0..5 {
        let mut snapshot = state.history[0];
        snapshot.week = i;
        snapshot.morale = 60_000 - (i as i64 * 5_000);
        state.history.push(snapshot);
    }

    let warnings = check_failure_warnings(&state);

    assert!(warnings.iter().any(|w| w.risk_id == RiskId::DeathMarch));
    let death_march = warnings.iter().find(|w| w.risk_id == RiskId::DeathMarch).unwrap();
    assert_eq!(death_march.severity, WarningSeverity::Danger);
}

#[test]
fn test_technical_bankruptcy_warning() {
    let mut state = GameState::new(DifficultyMode::IndieBootstrap);
    state.tech_debt = 85_000;
    state.velocity = 400;

    let warnings = check_failure_warnings(&state);

    assert!(warnings.iter().any(|w| w.risk_id == RiskId::TechnicalBankruptcy));
}

#[test]
fn test_cash_crunch_warning() {
    let mut state = GameState::new(DifficultyMode::IndieBootstrap);
    state.runway_months = Runway::Months(4_500);

    let warnings = check_failure_warnings(&state);

    assert!(warnings.iter().any(|w| w.risk_id == RiskId::CashCrunch));
}

#[test]
fn test_warning_severity_ordering() {
    let mut state = GameState::new(DifficultyMode::IndieBootstrap);
    state.morale = 25_000;
    state.tech_debt = 75_000;
    state.runway_months = Runway::Months(4_000);
    state.reputation = 20_000;

    let warnings = check_failure_warnings(&state);

    assert!(warnings[0].severity == WarningSeverity::Critical);
}

#[test]
fn warnings_are_ranked_by_severity_and_then_last_first() {
    let mut state = GameState::new(DifficultyMode::IndieBootstrap);
    state.week = 10;
    state.tech_debt = 95_000;
    state.churn_rate = 16_000;
    state.wau = 101;
    state.runway_months = Runway::Months(5_000);
    state.velocity = 550;
    state.reputation = 20_000;
    let warnings = check_failure_warnings(&state);
    let order: Vec<(RiskId, WarningSeverity)> = warnings.iter().map(|w| (w.risk_id, w.severity)).collect();
    assert_eq!(
        order,
        vec![
            (RiskId::ReputationCrisis, WarningSeverity::Critical),
            (RiskId::TechnicalBankruptcy, WarningSeverity::Critical),
            (RiskId::CustomerExodus, WarningSeverity::Danger),
            (RiskId::VelocityCollapse, WarningSeverity::Caution),
            (RiskId::CashCrunch, WarningSeverity::Caution),
        ]
    );
    assert!(WarningSeverity::Critical > WarningSeverity::Danger);
    assert!(WarningSeverity::Caution > WarningSeverity::Watch);
    assert_eq!(WarningSeverity::Danger.rank(), 2);
    let debt = &warnings[1];
    assert_eq!(
        debt.warning_signs,
        vec![
            WarningSign { week: 6, indicator_level: 60_000 },
            WarningSign { week: 8, indicator_level: 75_000 },
            WarningSign { week: 10, indicator_level: 95_000 },
        ]
    );
    assert_eq!(debt.weeks_until_critical, Some(1));
    let exodus = &warnings[2];
    assert_eq!(exodus.warning_signs[2], WarningSign { week: 10, indicator_level: 64_000 });
    // (20 - 15) / 8 is below one week
    assert_eq!(exodus.weeks_until_critical, Some(1));
    let cash = &warnings[4];
    assert_eq!(cash.warning_signs[2], WarningSign { week: 10, indicator_level: 20_000 });
    assert_eq!(cash.weeks_until_critical, Some(16));
    let velocity = &warnings[3];
    assert_eq!(velocity.warning_signs[2], WarningSign { week: 10, indicator_level: 67_500 });
    assert_eq!(velocity.weeks_until_critical, Some(20));
    let reputation = &warnings[0];
    assert_eq!(
        reputation.warning_signs,
        vec![WarningSign { week: 8, indicator_level: 55_000 }, WarningSign { week: 10, indicator_level: 60_000 }]
    );
    assert_eq!(reputation.weeks_until_critical, Some(5));
    assert!(check_failure_warnings(&GameState::new(DifficultyMode::IndieBootstrap)).is_empty());
}

#[test]
fn trends_and_estimates() {
    let mut state = GameState::new(DifficultyMode::IndieBootstrap);
    assert_eq!(analyze_morale_trend(&state.history), 0);
    assert_eq!(count_declining_weeks(&state.history), 0);
    assert_eq!(count_declining_weeks(&Vec::new()), 0);
    for (week, morale) in [70_000, 65_000, 66_000, 60_000, 50_000, 50_000].iter().enumerate() {
        let mut snapshot = state.history[0];
        snapshot.week = week as u32 + 1;
        snapshot.morale = *morale;
        state.history.push(snapshot);
    }
    // falls: 80 to 70, 70 to 65, 66 to 60, 60 to 50
    assert_eq!(count_declining_weeks(&state.history), 4);
    // last four weeks: 66, 60, 50, 50
    assert_eq!(analyze_morale_trend(&state.history), -16_000);
    assert_eq!(
        generate_morale_warning_signs(&state.history),
        vec![
            WarningSign { week: 3, indicator_level: 34_000 },
            WarningSign { week: 4, indicator_level: 40_000 },
            WarningSign { week: 5, indicator_level: 50_000 },
            WarningSign { week: 6, indicator_level: 50_000 },
        ]
    );
    assert_eq!(estimate_weeks_until_morale_critical(50_000, -16_000), 1);
    assert_eq!(estimate_weeks_until_morale_critical(50_000, -2_000), 15);
    assert_eq!(estimate_weeks_until_morale_critical(90_000, -1_000), 20);
    assert_eq!(estimate_weeks_until_morale_critical(10_000, -1_000), 1);
    assert_eq!(estimate_weeks_until_morale_critical(50_000, 0), 99);
    assert_eq!(estimate_weeks_until_debt_critical(75_000), 10);
    assert_eq!(estimate_weeks_until_debt_critical(99_000), 1);
    assert_eq!(estimate_weeks_until_reputation_critical(50_000, 10_000), 7);
    assert_eq!(estimate_weeks_until_reputation_critical(50_000, 0), 99);
    assert_eq!(estimate_weeks_until_velocity_critical(500), 16);
    assert_eq!(estimate_weeks_until_velocity_critical(300), 2);
    assert_eq!(estimate_weeks_until_reputation_failure(39_000), 14);
    assert_eq!(estimate_weeks_until_reputation_failure(90_000), 15);
    for (i, snapshot) in state.history.iter_mut().enumerate() {
        snapshot.burn = 8_000_000 + i as i64 * 1_000_000;
        snapshot.mrr = 2_000_000 - i as i64 * 100_000;
    }
    // last four weeks: burn 11,000 to 14,000, revenue 1,700 to 1,400
    assert_eq!(analyze_burn_trend(&state.history), 27_272);
    assert_eq!(analyze_revenue_trend(&state.history), -17_647);
    assert_eq!(analyze_burn_trend(&state.history[..1].to_vec()), 0);
    state.history[3].mrr = 0;
    assert_eq!(analyze_revenue_trend(&state.history), 0);
    assert_eq!(count_high_churn_weeks(&state.history), 3);
    assert_eq!(count_low_velocity_weeks(&state.history), 4);
}

#[test]
fn test_morale_declining_insight() {
    let mut prev_state = GameState::new(DifficultyMode::IndieBootstrap);
    prev_state.morale = 80_000;

    let mut curr_state = prev_state.clone();
    curr_state.morale = 60_000;

    let insights = generate_weekly_insights(&prev_state, &curr_state);

    assert!(!insights.is_empty());
    assert!(insights.iter().any(|i| i.category == InsightCategory::Morale));
}

#[test]
fn test_runway_warning() {
    let prev_state = GameState::new(DifficultyMode::IndieBootstrap);

    let mut curr_state = prev_state.clone();
    curr_state.runway_months = Runway::Months(4_000);

    let insights = generate_weekly_insights(&prev_state, &curr_state);

    let runway_insight = insights.iter().find(|i| i.category == InsightCategory::Runway);
    assert!(runway_insight.is_some());
    assert_eq!(runway_insight.unwrap().severity, InsightSeverity::Warning);
}

#[test]
fn test_tech_debt_warning() {
    let prev_state = GameState::new(DifficultyMode::IndieBootstrap);

    let mut curr_state = prev_state.clone();
    curr_state.tech_debt = 65_000;

    let insights = generate_weekly_insights(&prev_state, &curr_state);

    assert!(insights.iter().any(|i| i.category == InsightCategory::TechnicalDebt));
}

#[test]
fn test_insights_prioritization() {
    let prev_state = GameState::new(DifficultyMode::IndieBootstrap);

    let mut curr_state = prev_state.clone();
    curr_state.morale = 30_000;
    curr_state.tech_debt = 65_000;
    curr_state.runway_months = Runway::Months(15_000);

    let insights = generate_weekly_insights(&prev_state, &curr_state);

    assert!(insights.len() <= 3);
    if !insights.is_empty() {
        assert_eq!(insights[0].severity, InsightSeverity::Critical);
    }
}

#[test]
fn insights_keep_the_three_most_urgent() {
    let mut prev = GameState::new(DifficultyMode::IndieBootstrap);
    prev.morale = 80_000;
    prev.tech_debt = 10_000;
    prev.velocity = 1_000;
    let mut curr = prev.clone();
    curr.week = 9;
    curr.morale = 35_000;
    curr.tech_debt = 85_000;
    curr.velocity = 650;
    curr.wau_growth_rate = 1_000;
    curr.runway_months = Runway::Months(2_500);
    let insights = generate_weekly_insights(&prev, &curr);
    let kinds: Vec<InsightKind> = insights.iter().map(|i| i.kind).collect();
    assert_eq!(
        kinds,
        vec![InsightKind::MoraleDeclining, InsightKind::TechDebtAccumulating, InsightKind::RunwayLow]
    );
    assert!(insights.iter().all(|i| i.severity == InsightSeverity::Critical));
    curr.morale = 75_000;
    curr.runway_months = Runway::Months(5_000);
    let insights = generate_weekly_insights(&prev, &curr);
    let kinds: Vec<(InsightKind, InsightSeverity)> = insights.iter().map(|i| (i.kind, i.severity)).collect();
    assert_eq!(
        kinds,
        vec![
            (InsightKind::TechDebtAccumulating, InsightSeverity::Critical),
            (InsightKind::RunwayLow, InsightSeverity::Warning),
            (InsightKind::GrowthStagnating, InsightSeverity::Warning),
        ]
    );
    let calm = GameState::new(DifficultyMode::IndieBootstrap);
    let insights = generate_weekly_insights(&calm, &calm);
    let kinds: Vec<InsightKind> = insights.iter().map(|i| i.kind).collect();
    // without a competitor the whole market is the player's
    assert_eq!(
        kinds,
        vec![InsightKind::StrongCulture, InsightKind::EngineeringExcellence, InsightKind::CompetitiveMoat]
    );
}

#[test]
fn competition_insights() {
    let mut prev = GameState::new(DifficultyMode::IndieBootstrap);
    prev.morale = 50_000;
    prev.tech_debt = 50_000;
    let mut curr = prev.clone();
    // 30 people and $10M: velocity 3.0 + 1,000 against the player's 1.0
    curr.competitors.push(rival(FundingStage::SeriesA, 50_000, 10_000_000_000, 30));
    curr.competitors.push(rival(FundingStage::Bootstrapped, 20_000, 0, 2));
    curr.bank = 250_000_000;
    curr.week = 60;
    prev.wau_growth_rate = 5_000;
    curr.wau_growth_rate = 5_000;
    assert_eq!(get_total_competitor_funding(&curr.competitors), 10_000_000_000);
    assert_eq!(get_average_competitor_feature_parity(&curr.competitors), 35_000);
    assert_eq!(get_average_competitor_feature_parity(&Vec::new()), 0);
    let insights = generate_weekly_insights(&prev, &curr);
    let kinds: Vec<InsightKind> = insights.iter().map(|i| i.kind).collect();
    // alone in the market the player held all of it
    assert_eq!(
        kinds,
        vec![InsightKind::LosingMarketShare, InsightKind::CompetitorOutShipping, InsightKind::FundingGap]
    );
    assert!(insights.iter().all(|i| i.category == InsightCategory::Competition));
    curr.competitors.remove(0);
    curr.week = 3;
    let same = curr.clone();
    let insights = generate_weekly_insights(&same, &curr);
    let kinds: Vec<InsightKind> = insights.iter().map(|i| i.kind).collect();
    assert_eq!(kinds, vec![InsightKind::AcquisitionOpportunity]);
}

#[test]
fn plain_events_have_a_tone() {
    let event = GameEvent::new(4, EventType::ViralMoment);
    assert_eq!(event.week, 4);
    assert_eq!(event.tone(), EventTone::Positive);
    assert_eq!(GameEvent::new(4, EventType::UnexpectedBill).tone(), EventTone::Negative);
    assert_eq!(GameEvent::new(4, EventType::CloudOutage).tone(), EventTone::Negative);
    let offer = EventType::CustomDealOffer {
        client_name: String::from("Acme"),
        mrr_gain: 5_000_000,
        tech_debt_cost: 10_000,
    };
    assert_eq!(GameEvent::new(4, offer).tone(), EventTone::Choice);
}
