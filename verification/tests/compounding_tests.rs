use founders_dilemma::actions::Stat;
use founders_dilemma::compounding::apply_compounding_bonuses;
use founders_dilemma::compounding::bonus_strength;
use founders_dilemma::compounding::check_compounding_effects;
use founders_dilemma::compounding::count_consecutive_weeks;
use founders_dilemma::compounding::CompoundingBonus;
use founders_dilemma::compounding::CompoundingId;
use founders_dilemma::compounding::SnapshotTest;
use founders_dilemma::compounding::StatBonus;
use founders_dilemma::state::DifficultyMode;
use founders_dilemma::state::GameState;
use founders_dilemma::state::WeekSnapshot;

fn snapshot(week: u32, morale: i64, reputation: i64, momentum: i64) -> WeekSnapshot {
    WeekSnapshot {
        week,
        bank: 50_000_000,
        mrr: 1_000_000,
        burn: 8_000_000,
        wau: 200,
        morale,
        reputation,
        momentum,
    }
}

#[test]
fn test_engineering_excellence() {
    let mut state = GameState::new(DifficultyMode::IndieBootstrap);
    state.tech_debt = 20_000;
    state.velocity = 900;

    for i in 0..6 {
        state.history.push(snapshot(i, 80_000, 70_000, 800));
    }

    let bonuses = check_compounding_effects(&state, 10);

    assert!(!bonuses.is_empty());
    assert!(bonuses.iter().any(|b| b.effect_id == CompoundingId::EngineeringExcellence));
}

#[test]
fn test_customer_love() {
    let mut state = GameState::new(DifficultyMode::IndieBootstrap);
    state.nps = 70_000;
    state.wau = 500;

    for i in 0..8 {
        state.history.push(WeekSnapshot {
            week: i,
            bank: 50_000_000,
            mrr: 5_000_000,
            burn: 8_000_000,
            wau: 400 + i * 10,
            morale: 75_000,
            reputation: 70_000,
            momentum: 700,
        });
    }

    let bonuses = check_compounding_effects(&state, 10);

    assert!(bonuses.iter().any(|b| b.effect_id == CompoundingId::CustomerLove));
}

#[test]
fn test_count_consecutive_weeks() {
    let history = vec![
        WeekSnapshot {
            week: 0,
            bank: 50_000_000,
            mrr: 1_000_000,
            burn: 8_000_000,
            wau: 100,
            morale: 80_000,
            reputation: 60_000,
            momentum: 700,
        },
        WeekSnapshot {
            week: 1,
            bank: 50_000_000,
            mrr: 1_000_000,
            burn: 8_000_000,
            wau: 100,
            morale: 85_000,
            reputation: 65_000,
            momentum: 700,
        },
        WeekSnapshot {
            week: 2,
            bank: 50_000_000,
            mrr: 1_000_000,
            burn: 8_000_000,
            wau: 100,
            morale: 90_000,
            reputation: 70_000,
            momentum: 700,
        },
    ];

    // All three weeks, counted back from the last one, had morale above 75.
    let count = count_consecutive_weeks(&history, 10, &SnapshotTest::MoraleAbove(75_000));
    assert_eq!(count, 3);
    // Only the last two had morale above 80.
    let count = count_consecutive_weeks(&history, 10, &SnapshotTest::MoraleAbove(80_000));
    assert_eq!(count, 2);
}

#[test]
fn test_apply_bonuses() {
    let mut state = GameState::new(DifficultyMode::IndieBootstrap);
    let initial_velocity = state.velocity;
    let initial_morale = state.morale;

    let bonuses = vec![CompoundingBonus {
        effect_id: CompoundingId::EngineeringExcellence,
        weeks_sustained: 4,
        bonuses: vec![
            StatBonus { stat: Stat::Velocity, bonus_amount: 100, is_multiplier: true },
            StatBonus { stat: Stat::Morale, bonus_amount: 10_000, is_multiplier: false },
        ],
    }];

    apply_compounding_bonuses(&mut state, &bonuses);

    assert!(state.velocity > initial_velocity);
    assert_eq!(state.morale, initial_morale + 10_000);
}

#[test]
fn runs_stop_at_the_first_week_that_fails() {
    let history = vec![
        snapshot(0, 90_000, 0, 0),
        snapshot(1, 10_000, 0, 0),
        snapshot(2, 90_000, 0, 0),
        snapshot(3, 90_000, 0, 0),
    ];
    let test = SnapshotTest::MoraleAbove(75_000);
    assert_eq!(count_consecutive_weeks(&history, 10, &test), 2);
    assert_eq!(count_consecutive_weeks(&history, 1, &test), 1);
    assert_eq!(count_consecutive_weeks(&history, 0, &test), 0);
    assert_eq!(count_consecutive_weeks(&Vec::new(), 10, &test), 0);
    assert_eq!(count_consecutive_weeks(&history, 10, &SnapshotTest::MoraleBelow(50_000)), 0);
    assert_eq!(count_consecutive_weeks(&history, 10, &SnapshotTest::UsersAtLeast(200)), 4);
    assert_eq!(count_consecutive_weeks(&history, 10, &SnapshotTest::UsersAtLeast(201)), 0);
    assert_eq!(count_consecutive_weeks(&history, 10, &SnapshotTest::RunwayAbove(3_000)), 4);
    assert_eq!(count_consecutive_weeks(&history, 10, &SnapshotTest::RunwayAbove(6_250)), 0);
    let long: Vec<WeekSnapshot> = (0..300).map(|i| snapshot(i, 90_000, 0, 0)).collect();
    assert_eq!(count_consecutive_weeks(&long, 1_000, &test), 255);
    assert_eq!(count_consecutive_weeks(&long, 52, &test), 52);
}

#[test]
fn strength_is_linear_up_to_its_ceiling() {
    assert_eq!(bonus_strength(CompoundingId::EngineeringExcellence, 4), 1_000);
    assert_eq!(bonus_strength(CompoundingId::EngineeringExcellence, 6), 1_500);
    assert_eq!(bonus_strength(CompoundingId::EngineeringExcellence, 8), 2_000);
    assert_eq!(bonus_strength(CompoundingId::EngineeringExcellence, 52), 2_000);
    assert_eq!(bonus_strength(CompoundingId::SustainablePace, 10), 1_000);
    assert_eq!(bonus_strength(CompoundingId::SustainablePace, 12), 1_200);
    assert_eq!(bonus_strength(CompoundingId::SustainablePace, 40), 1_500);
    assert_eq!(bonus_strength(CompoundingId::CustomerLove, 7), 1_166);
}

#[test]
fn earned_bonuses_carry_scaled_amounts() {
    let mut state = GameState::new(DifficultyMode::IndieBootstrap);
    state.tech_debt = 20_000;
    state.velocity = 900;
    for i in 0..6 {
        state.history.push(snapshot(i + 1, 80_000, 70_000, 800));
    }
    // The snapshot of week 0 has momentum 0.8 too, so the run is 7 weeks.
    let bonuses = check_compounding_effects(&state, 12);
    let first = &bonuses[0];
    assert_eq!(first.effect_id, CompoundingId::EngineeringExcellence);
    assert_eq!(first.weeks_sustained, 7);
    assert_eq!(first.bonuses.len(), 2);
    assert_eq!(first.bonuses[0], StatBonus { stat: Stat::Velocity, bonus_amount: 87, is_multiplier: true });
    assert_eq!(first.bonuses[1], StatBonus { stat: Stat::Morale, bonus_amount: 8_750, is_multiplier: false });
    // Morale above 75 for 7 weeks is one short of a strong culture; the
    // financial test fails on revenue; the pace needs ten weeks.
    assert_eq!(bonuses.len(), 1);
    // A shorter lookback cuts the run below the minimum.
    assert!(check_compounding_effects(&state, 3).is_empty());
    // The state must show the condition now, whatever the history.
    state.tech_debt = 25_000;
    assert!(check_compounding_effects(&state, 12).is_empty());
}

#[test]
fn bonuses_apply_in_one_pass_and_are_bounded_after_it() {
    let mut state = GameState::new(DifficultyMode::IndieBootstrap);
    state.morale = 99_000;
    let bonuses = vec![
        CompoundingBonus {
            effect_id: CompoundingId::SustainablePace,
            weeks_sustained: 10,
            bonuses: vec![
                StatBonus { stat: Stat::MoraleDecay, bonus_amount: -300, is_multiplier: false },
                StatBonus { stat: Stat::Velocity, bonus_amount: 50, is_multiplier: true },
            ],
        },
        CompoundingBonus {
            effect_id: CompoundingId::CustomerLove,
            weeks_sustained: 6,
            bonuses: vec![
                StatBonus { stat: Stat::WauGrowth, bonus_amount: 3_000, is_multiplier: false },
                StatBonus { stat: Stat::ChurnRate, bonus_amount: -7_000, is_multiplier: false },
                StatBonus { stat: Stat::Reputation, bonus_amount: 8_000, is_multiplier: false },
                StatBonus { stat: Stat::Bank, bonus_amount: 8_000, is_multiplier: false },
                StatBonus { stat: Stat::Velocity, bonus_amount: 100, is_multiplier: false },
                StatBonus { stat: Stat::Morale, bonus_amount: 2_000, is_multiplier: false },
            ],
        },
    ];
    apply_compounding_bonuses(&mut state, &bonuses);
    // 99 + 0.6 + 2 is bounded to 100
    assert_eq!(state.morale, 100_000);
    assert_eq!(state.velocity, 1_150);
    assert_eq!(state.wau_growth_rate, 3_000);
    assert_eq!(state.churn_rate, 0);
    assert_eq!(state.reputation, 58_000);
    assert_eq!(state.bank, 50_000_000);
}
