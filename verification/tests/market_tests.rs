use founders_dilemma::actions::Action;
use founders_dilemma::actions::AdChannel;
use founders_dilemma::actions::Quality;
use founders_dilemma::chance::GameRng;
use founders_dilemma::competitors::Competitor;
use founders_dilemma::competitors::FundingStage;
use founders_dilemma::competitors::PricingStrategy;
use founders_dilemma::market_conditions::apply_market_modifiers;
use founders_dilemma::market_conditions::condition_for_draw;
use founders_dilemma::market_conditions::generate_competitor_acquisition_condition;
use founders_dilemma::market_conditions::generate_competitor_funding_condition;
use founders_dilemma::market_conditions::generate_market_condition;
use founders_dilemma::market_conditions::generate_pricing_war_condition;
use founders_dilemma::market_conditions::get_action_effectiveness_modifier;
use founders_dilemma::market_conditions::get_active_conditions;
use founders_dilemma::market_conditions::get_modifiers_for_event;
use founders_dilemma::market_conditions::update_market_conditions;
use founders_dilemma::market_conditions::MarketCondition;
use founders_dilemma::market_conditions::MarketDraw;
use founders_dilemma::market_conditions::MarketEvent;
use founders_dilemma::market_conditions::MarketModifier;
use founders_dilemma::market_conditions::ModifierStat;
use founders_dilemma::state::DifficultyMode;
use founders_dilemma::state::GameState;

fn condition(id: MarketEvent, duration_weeks: u32) -> MarketCondition {
    MarketCondition { id, duration_weeks, modifiers: get_modifiers_for_event(&id) }
}

fn rival(stage: FundingStage) -> Competitor {
    Competitor {
        funding_stage: stage,
        feature_parity: 50_000,
        pricing_strategy: PricingStrategy::Premium,
        market_share: 10_000,
        aggressiveness: 500,
        last_action_week: 0,
        action_history: Vec::new(),
        total_funding: 0,
        team_size: 5,
        is_acquired: false,
    }
}

#[test]
fn test_generate_market_condition() {
    let state = GameState::new(DifficultyMode::IndieBootstrap);
    let mut rng = GameRng::seeded(11);
    let mut seen = 0;
    for _ in 0..400 {
        let condition = generate_market_condition(&state, 1, &mut rng);
        if let Some(c) = condition {
            seen += 1;
            assert!(c.duration_weeks >= 4 && c.duration_weeks <= 8);
            assert!(!c.modifiers.is_empty());
            assert!(!matches!(
                c.id,
                MarketEvent::CompetitorFundingRound
                    | MarketEvent::CompetitorAcquisition
                    | MarketEvent::CompetitorPricingWar
            ));
        }
    }
    // 15 percent of 400
    assert!((30..=90).contains(&seen), "seen {}", seen);
}

#[test]
fn test_get_modifiers_for_event() {
    let modifiers = get_modifiers_for_event(&MarketEvent::BullMarket);
    assert!(!modifiers.is_empty());
    assert!(modifiers.iter().any(|m| m.stat_affected == ModifierStat::FundraisingSuccess));
}

#[test]
fn test_get_action_effectiveness_modifier() {
    let conditions = vec![MarketCondition {
        id: MarketEvent::BullMarket,
        duration_weeks: 5,
        modifiers: vec![],
    }];
    let action = Action::Fundraise { target: 100_000_000 };
    let modifier = get_action_effectiveness_modifier(&action, &conditions);
    assert_eq!(modifier, 1_500);
}

#[test]
fn modifiers_of_each_kind() {
    assert_eq!(
        get_modifiers_for_event(&MarketEvent::Recession),
        vec![
            MarketModifier { stat_affected: ModifierStat::FundraisingSuccess, multiplier: 600 },
            MarketModifier { stat_affected: ModifierStat::WauGrowth, multiplier: 900 },
            MarketModifier { stat_affected: ModifierStat::ChurnRate, multiplier: 1_300 },
            MarketModifier { stat_affected: ModifierStat::Burn, multiplier: 800 },
        ]
    );
    assert_eq!(get_modifiers_for_event(&MarketEvent::TalentWar).len(), 3);
    assert_eq!(
        get_modifiers_for_event(&MarketEvent::CompetitorPricingWar),
        vec![
            MarketModifier { stat_affected: ModifierStat::MrrGrowth, multiplier: 900 },
            MarketModifier { stat_affected: ModifierStat::ChurnRate, multiplier: 1_150 },
        ]
    );
}

#[test]
fn effectiveness_composes_and_is_bounded() {
    let ads = Action::PaidAds { budget: 1, channel: AdChannel::Google };
    let fundraise = Action::Fundraise { target: 1 };
    let ship = Action::ShipFeature { quality: Quality::Quick };
    assert_eq!(get_action_effectiveness_modifier(&ads, &Vec::new()), 1_000);
    let two = vec![condition(MarketEvent::BullMarket, 4), condition(MarketEvent::ViralTrend, 4)];
    // 1.1 * 1.2
    assert_eq!(get_action_effectiveness_modifier(&ads, &two), 1_320);
    assert_eq!(get_action_effectiveness_modifier(&ship, &two), 1_000);
    let booming = vec![
        condition(MarketEvent::BullMarket, 4),
        condition(MarketEvent::TechBoom, 4),
        condition(MarketEvent::EconomicStimulus, 4),
    ];
    // 1.5 * 1.25 * 1.2 = 2.25, bounded to 2.0
    assert_eq!(get_action_effectiveness_modifier(&fundraise, &booming), 2_000);
    let gloomy = vec![
        condition(MarketEvent::CompetitorLaunch, 4),
        condition(MarketEvent::CompetitorPricingWar, 4),
        condition(MarketEvent::CompetitorFundingRound, 4),
    ];
    // 0.7 * 0.7 * 0.8 = 0.392, bounded to 0.5
    assert_eq!(get_action_effectiveness_modifier(&ads, &gloomy), 500);
}

#[test]
fn conditions_age_and_expire() {
    let mut state = GameState::new(DifficultyMode::IndieBootstrap);
    state.active_market_conditions = vec![
        condition(MarketEvent::BullMarket, 2),
        condition(MarketEvent::Recession, 1),
        condition(MarketEvent::TechBoom, 0),
        condition(MarketEvent::ViralTrend, 5),
    ];
    update_market_conditions(&mut state);
    let left: Vec<(MarketEvent, u32)> =
        state.active_market_conditions.iter().map(|c| (c.id, c.duration_weeks)).collect();
    assert_eq!(left, vec![(MarketEvent::BullMarket, 1), (MarketEvent::ViralTrend, 4)]);
    assert_eq!(state.active_market_conditions[0].modifiers.len(), 3);
    update_market_conditions(&mut state);
    assert_eq!(state.active_market_conditions.len(), 1);
    for _ in 0..10 {
        update_market_conditions(&mut state);
    }
    assert!(state.active_market_conditions.is_empty());
}

#[test]
fn a_draw_designates_its_condition() {
    let mut state = GameState::new(DifficultyMode::IndieBootstrap);
    let draw = MarketDraw { chance: 150, arises: false, event: 3, duration_weeks: 6, rival: None };
    assert!(condition_for_draw(&state, &draw).is_none());
    let draw = MarketDraw { chance: 150, arises: true, event: 3, duration_weeks: 6, rival: None };
    let c = condition_for_draw(&state, &draw).unwrap();
    assert_eq!(c.id, MarketEvent::TechBoom);
    assert_eq!(c.duration_weeks, 6);
    assert_eq!(c.modifiers, get_modifiers_for_event(&MarketEvent::TechBoom));
    // A competitor's launch is felt by the funding stage of the rival.
    state.competitors.push(rival(FundingStage::PublicCompany));
    let draw = MarketDraw { chance: 150, arises: true, event: 2, duration_weeks: 4, rival: Some(0) };
    let c = condition_for_draw(&state, &draw).unwrap();
    assert_eq!(c.id, MarketEvent::CompetitorLaunch);
    assert_eq!(
        c.modifiers,
        vec![
            // 1 + (0.85 - 1) * 1.8
            MarketModifier { stat_affected: ModifierStat::WauGrowth, multiplier: 730 },
            MarketModifier { stat_affected: ModifierStat::Reputation, multiplier: 820 },
            MarketModifier { stat_affected: ModifierStat::ChurnRate, multiplier: 1_090 },
        ]
    );
    let draw = MarketDraw { chance: 150, arises: true, event: 2, duration_weeks: 4, rival: None };
    let c = condition_for_draw(&state, &draw).unwrap();
    assert_eq!(c.modifiers, get_modifiers_for_event(&MarketEvent::CompetitorLaunch));
}

#[test]
fn competitor_conditions() {
    let c = generate_competitor_funding_condition();
    assert_eq!((c.id, c.duration_weeks), (MarketEvent::CompetitorFundingRound, 6));
    assert_eq!(c.modifiers[0], MarketModifier { stat_affected: ModifierStat::Reputation, multiplier: 950 });
    let c = generate_competitor_acquisition_condition();
    assert_eq!((c.id, c.duration_weeks), (MarketEvent::CompetitorAcquisition, 8));
    assert_eq!(c.modifiers[1], MarketModifier { stat_affected: ModifierStat::Reputation, multiplier: 1_200 });
    let c = generate_pricing_war_condition();
    assert_eq!((c.id, c.duration_weeks), (MarketEvent::CompetitorPricingWar, 4));
    assert_eq!(c.modifiers[0], MarketModifier { stat_affected: ModifierStat::WauGrowth, multiplier: 900 });
}

#[test]
fn modifiers_multiply_the_stats_they_name() {
    let mut state = GameState::new(DifficultyMode::IndieBootstrap);
    state.wau_growth_rate = 10_000;
    state.active_market_conditions =
        vec![condition(MarketEvent::BullMarket, 4), condition(MarketEvent::Recession, 4)];
    assert_eq!(
        state.get_active_modifiers(),
        vec![
            (ModifierStat::FundraisingSuccess, 1_300),
            (ModifierStat::WauGrowth, 1_200),
            (ModifierStat::Burn, 1_150),
            (ModifierStat::FundraisingSuccess, 600),
            (ModifierStat::WauGrowth, 900),
            (ModifierStat::ChurnRate, 1_300),
            (ModifierStat::Burn, 800),
        ]
    );
    // 1.3 * 0.6
    assert_eq!(state.calculate_market_adjusted_metric(1_000, ModifierStat::FundraisingSuccess), 780);
    assert_eq!(state.calculate_market_adjusted_metric(1_000, ModifierStat::Morale), 1_000);
    let conditions = get_active_conditions(&state);
    assert_eq!(conditions.len(), 2);
    assert_eq!(conditions[1].id, MarketEvent::Recession);
    assert_eq!(conditions[1].modifiers, state.active_market_conditions[1].modifiers);
    apply_market_modifiers(&mut state, &conditions);
    // 10 * 1.2 * 0.9
    assert_eq!(state.wau_growth_rate, 10_800);
    // 8,000 * 1.15 * 0.8
    assert_eq!(state.burn, 7_360_000);
    assert_eq!(state.churn_rate, 6_500);
    assert_eq!(state.morale, 80_000);
}

#[test]
fn effectiveness_is_the_product_in_any_order() {
    let fundraise = Action::Fundraise { target: 250_000_000 };
    let boom = condition(MarketEvent::TechBoom, 4);
    let consolidation = condition(MarketEvent::IndustryConsolidation, 4);
    let stimulus = condition(MarketEvent::EconomicStimulus, 4);
    let orders = [
        vec![boom.clone(), consolidation.clone(), stimulus.clone()],
        vec![boom.clone(), stimulus.clone(), consolidation.clone()],
        vec![stimulus.clone(), consolidation.clone(), boom.clone()],
        vec![consolidation.clone(), boom.clone(), stimulus.clone()],
    ];
    for order in orders.iter() {
        assert_eq!(get_action_effectiveness_modifier(&fundraise, order), 1_725);
    }
}

#[test]
fn effectiveness_is_rounded_once_at_the_end() {
    let ads = Action::PaidAds { budget: 1_000_000, channel: AdChannel::Google };
    let launch = condition(MarketEvent::CompetitorLaunch, 4);
    let war = condition(MarketEvent::CompetitorPricingWar, 4);
    let round = condition(MarketEvent::CompetitorFundingRound, 4);
    let trend = condition(MarketEvent::ViralTrend, 4);
    let bull = condition(MarketEvent::BullMarket, 4);
    let all = vec![launch.clone(), war.clone(), round.clone(), trend.clone(), bull.clone()];
    let mut back = all.clone();
    back.reverse();
    assert_eq!(get_action_effectiveness_modifier(&ads, &all), 517);
    assert_eq!(get_action_effectiveness_modifier(&ads, &back), 517);
    let mut long = Vec::new();
    for _ in 0..40 {
        long.push(bull.clone());
        long.push(launch.clone());
    }
    assert_eq!(get_action_effectiveness_modifier(&ads, &long), 500);
    long.clear();
    for _ in 0..60 {
        long.push(trend.clone());
        long.push(round.clone());
    }
    assert_eq!(get_action_effectiveness_modifier(&ads, &long), 500);
    long.clear();
    for _ in 0..200 {
        long.push(trend.clone());
    }
    assert_eq!(get_action_effectiveness_modifier(&ads, &long), 2_000);
    long.push(war.clone());
    long.push(trend.clone());
    assert_eq!(get_action_effectiveness_modifier(&ads, &long), 2_000);
    let few = vec![trend.clone(), launch.clone(), bull.clone()];
    assert_eq!(get_action_effectiveness_modifier(&ads, &few), 924);
}

#[test]
fn stats_take_the_exact_product_of_their_multipliers() {
    let mut state = GameState::new(DifficultyMode::IndieBootstrap);
    let third = |parts: &[i64]| MarketCondition {
        id: MarketEvent::BullMarket,
        duration_weeks: 3,
        modifiers: parts
            .iter()
            .map(|m| MarketModifier { stat_affected: ModifierStat::Burn, multiplier: *m })
            .collect(),
    };
    state.active_market_conditions = vec![third(&[1_250, 1_150]), third(&[1_200])];
    assert_eq!(state.calculate_market_adjusted_metric(1_000, ModifierStat::Burn), 1_725);
    state.active_market_conditions = vec![third(&[1_200]), third(&[1_150, 1_250])];
    assert_eq!(state.calculate_market_adjusted_metric(1_000, ModifierStat::Burn), 1_725);
    assert_eq!(state.calculate_market_adjusted_metric(-1_000, ModifierStat::Burn), -1_725);
    assert_eq!(state.calculate_market_adjusted_metric(1_000, ModifierStat::Morale), 1_000);
    state.active_market_conditions = vec![third(&[-1_500, 333]), third(&[0])];
    assert_eq!(state.calculate_market_adjusted_metric(7_000, ModifierStat::Burn), 0);
    state.active_market_conditions = vec![third(&[-1_500, 333])];
    assert_eq!(state.calculate_market_adjusted_metric(7_000, ModifierStat::Burn), -3_496);
    state.active_market_conditions = vec![third(&[i64::MAX, i64::MIN, 2])];
    assert_eq!(
        state.calculate_market_adjusted_metric(1, ModifierStat::Burn),
        -1_000_000_000_000_000
    );
}

#[test]
fn the_weekly_draw_records_its_chance() {
    let state = GameState::new(DifficultyMode::IndieBootstrap);
    let mut rng = GameRng::seeded(12);
    let mut arisen = 0;
    for _ in 0..1_000 {
        let draw = founders_dilemma::market_conditions::roll_market_condition(&state, &mut rng);
        assert_eq!(draw.chance, 150);
        assert!(draw.event < 12);
        if draw.arises {
            arisen += 1;
        }
    }
    assert!((100..=200).contains(&arisen), "arisen {}", arisen);
}
