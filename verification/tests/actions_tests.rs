use founders_dilemma::actions::apply_action;
use founders_dilemma::actions::count_customers_due;
use founders_dilemma::actions::roll_welcomes;
use founders_dilemma::actions::Welcome;
use founders_dilemma::actions::calculate_ad_effectiveness;
use founders_dilemma::actions::calculate_content_reach;
use founders_dilemma::actions::calculate_experiment_outcome;
use founders_dilemma::actions::calculate_refactor_impact;
use founders_dilemma::actions::fundraise_success_chance;
use founders_dilemma::actions::resolve_action;
use founders_dilemma::actions::roll_action;
use founders_dilemma::actions::sales_conversion_chance;
use founders_dilemma::actions::Action;
use founders_dilemma::actions::ActionRoll;
use founders_dilemma::actions::AdChannel;
use founders_dilemma::actions::ChangeKind;
use founders_dilemma::actions::CoachingFocus;
use founders_dilemma::actions::ContentType;
use founders_dilemma::actions::Deal;
use founders_dilemma::actions::DevRelEvent;
use founders_dilemma::actions::ExperimentType;
use founders_dilemma::actions::FiringReason;
use founders_dilemma::actions::Quality;
use founders_dilemma::actions::RefactorDepth;
use founders_dilemma::actions::Stat;
use founders_dilemma::chance::GameRng;
use founders_dilemma::customers::CustomerLifecycle;
use founders_dilemma::customers::CustomerSegment;
use founders_dilemma::state::DifficultyMode;
use founders_dilemma::state::GameState;

fn plain_roll(first: i64, second: i64, third: i64) -> ActionRoll {
    ActionRoll {
        chance: 0,
        success: false,
        first,
        second,
        third,
        deals: Vec::new(),
        welcomes: Vec::new(),
    }
}

#[test]
fn test_ship_feature_quick() {
    let mut state = GameState::new(DifficultyMode::IndieBootstrap);
    let initial_wau = state.wau;
    let initial_debt = state.tech_debt;
    let mut rng = GameRng::seeded(1);

    let action = Action::ShipFeature { quality: Quality::Quick };
    let result = resolve_action(&mut state, &action, 1_000, &mut rng);

    assert!(result.success);
    assert!(state.wau > initial_wau);
    assert!(state.tech_debt > initial_debt);
}

#[test]
fn test_founder_led_sales() {
    let mut state = GameState::new(DifficultyMode::IndieBootstrap);
    let initial_mrr = state.mrr;
    let mut rng = GameRng::seeded(2);

    let action = Action::FounderLedSales { call_count: 5 };
    let result = resolve_action(&mut state, &action, 1_000, &mut rng);

    assert!(state.mrr >= initial_mrr);
    assert!(!result.effects.is_empty());
}

#[test]
fn test_hire() {
    let mut state = GameState::new(DifficultyMode::IndieBootstrap);
    let initial_burn = state.burn;
    let initial_velocity = state.velocity;
    let mut rng = GameRng::seeded(3);

    let action = Action::Hire;
    let result = resolve_action(&mut state, &action, 1_000, &mut rng);

    assert!(result.success);
    assert!(state.burn > initial_burn);
    assert!(state.velocity > initial_velocity);
}

#[test]
fn test_take_break() {
    let mut state = GameState::new(DifficultyMode::IndieBootstrap);
    state.morale = 50_000;
    let mut rng = GameRng::seeded(4);

    let action = Action::TakeBreak;
    let result = resolve_action(&mut state, &action, 1_000, &mut rng);

    assert!(result.success);
    assert!(state.morale > 50_000);
}

#[test]
fn test_focus_costs() {
    assert_eq!(Action::ShipFeature { quality: Quality::Quick }.focus_cost(), 1);
    assert_eq!(Action::Hire.focus_cost(), 2);
    assert_eq!(Action::TakeBreak.focus_cost(), 1);
}

#[test]
fn focus_costs_of_every_kind() {
    assert_eq!(Action::RefactorCode { depth: RefactorDepth::Surface }.focus_cost(), 1);
    assert_eq!(Action::RefactorCode { depth: RefactorDepth::Medium }.focus_cost(), 1);
    assert_eq!(Action::RefactorCode { depth: RefactorDepth::Deep }.focus_cost(), 2);
    assert_eq!(Action::RunExperiment { category: ExperimentType::Channel }.focus_cost(), 1);
    assert_eq!(Action::FounderLedSales { call_count: 9 }.focus_cost(), 1);
    assert_eq!(Action::ContentLaunch { content_type: ContentType::Video }.focus_cost(), 1);
    assert_eq!(Action::DevRel { event_type: DevRelEvent::Podcast }.focus_cost(), 2);
    assert_eq!(Action::PaidAds { budget: 1, channel: AdChannel::Display }.focus_cost(), 1);
    assert_eq!(Action::Coach { focus: CoachingFocus::Morale }.focus_cost(), 1);
    assert_eq!(Action::Fire { reason: FiringReason::Budget }.focus_cost(), 1);
    assert_eq!(Action::ComplianceWork { hours: 4 }.focus_cost(), 1);
    assert_eq!(Action::IncidentResponse.focus_cost(), 2);
    assert_eq!(Action::ProcessImprovement.focus_cost(), 1);
    assert_eq!(Action::Fundraise { target: 1 }.focus_cost(), 2);
}

#[test]
fn take_break_adds_exactly_fifteen_morale() {
    let mut state = GameState::new(DifficultyMode::IndieBootstrap);
    let result = apply_action(&mut state, &Action::TakeBreak, &plain_roll(0, 0, 0), 1_000);
    assert_eq!(state.morale, 95_000);
    assert_eq!(state.wau_growth_rate, -2_000);
    assert_eq!(result.effects.len(), 2);
    assert_eq!(result.effects[0].stat, Stat::Morale);
    assert_eq!(result.effects[0].old_value, 80_000);
    assert_eq!(result.effects[0].new_value, 95_000);
    assert_eq!(result.effects[0].delta, 15_000);
    assert_eq!(result.effects[1].stat, Stat::WauGrowth);
    assert_eq!(result.effects[1].delta, -2_000);
    assert_eq!(result.message, "Took a break to recharge");
}

#[test]
fn outcome_messages() {
    let roll = plain_roll(1_000, 1_000, 1_000);
    let mut won = plain_roll(1_000, 1_000, 1_000);
    won.success = true;
    let said = |action: Action, roll: &ActionRoll| {
        let mut state = GameState::new(DifficultyMode::IndieBootstrap);
        apply_action(&mut state, &action, roll, 1_000).message
    };
    assert_eq!(
        said(Action::ShipFeature { quality: Quality::Quick }, &roll),
        "Shipped feature quickly - gained momentum but added tech debt"
    );
    assert_eq!(said(Action::ShipFeature { quality: Quality::Polish }, &roll), "Polished feature launch - high quality, slower delivery");
    assert_eq!(said(Action::FounderLedSales { call_count: 3 }, &roll), "Made sales calls this week");
    assert_eq!(said(Action::Hire, &roll), "Hired a new team member");
    assert_eq!(said(Action::Fundraise { target: 1 }, &roll), "Fundraising failed - investors passed");
    assert_eq!(said(Action::Fundraise { target: 1 }, &won), "Raised the round");
    assert_eq!(said(Action::RefactorCode { depth: RefactorDepth::Deep }, &roll), "Performed deep code refactoring");
    assert_eq!(
        said(Action::RunExperiment { category: ExperimentType::Onboarding }, &won),
        "Streamlined onboarding - reduced churn"
    );
    assert_eq!(
        said(Action::RunExperiment { category: ExperimentType::Onboarding }, &roll),
        "Experiment failed - learned what not to do"
    );
    assert_eq!(said(Action::ContentLaunch { content_type: ContentType::CaseStudy }, &roll), "Launched casestudy content");
    assert_eq!(said(Action::DevRel { event_type: DevRelEvent::OpenSource }, &roll), "Participated in opensource event");
    assert_eq!(said(Action::PaidAds { budget: 1, channel: AdChannel::Social }, &roll), "Ran ads on social");
    assert_eq!(said(Action::Coach { focus: CoachingFocus::Alignment }, &roll), "Coached team on alignment");
    assert_eq!(said(Action::Fire { reason: FiringReason::Budget }, &roll), "Fired employee for budget");
    assert_eq!(said(Action::ComplianceWork { hours: 2 }, &roll), "Spent time on compliance work");
    assert_eq!(said(Action::IncidentResponse, &roll), "Responded to incident - contained damage");
    assert_eq!(said(Action::ProcessImprovement, &roll), "Implemented process improvements");
}

#[test]
fn quick_feature_grows_a_hundred_users_to_102_through_104() {
    for seed in 0..300u64 {
        let mut state = GameState::new(DifficultyMode::IndieBootstrap);
        let mut rng = GameRng::seeded(seed);
        let action = Action::ShipFeature { quality: Quality::Quick };
        let roll = roll_action(&mut rng, &action, &state);
        assert!((1_500..4_500).contains(&roll.first));
        assert!((4_000..=8_000).contains(&roll.second));
        assert!((-1_500..=-500).contains(&roll.third));
        apply_action(&mut state, &action, &roll, 1_000);
        assert!((102..=104).contains(&state.wau), "wau {}", state.wau);
    }
}

#[test]
fn ship_feature_applies_its_draws() {
    let mut state = GameState::new(DifficultyMode::IndieBootstrap);
    let action = Action::ShipFeature { quality: Quality::Quick };
    let result = apply_action(&mut state, &action, &plain_roll(4_499, 6_000, -1_000), 1_000);
    assert_eq!(state.wau, 104);
    assert_eq!(state.tech_debt, 16_000);
    assert_eq!(state.morale, 79_000);
    // 1.0 - 16 / 200
    assert_eq!(state.velocity, 920);
    assert_eq!(result.effects.len(), 4);
    assert_eq!(result.effects[0].stat, Stat::Wau);
    assert_eq!(result.effects[0].old_value, 100_000);
    assert_eq!(result.effects[0].new_value, 104_000);
    assert_eq!(result.effects[0].delta, 4_000);
    assert_eq!(result.effects[3].stat, Stat::Velocity);
    assert_eq!(result.effects[3].delta, -80);
}

#[test]
fn a_quick_feature_never_leaves_the_band_of_its_growth() {
    let action = Action::ShipFeature { quality: Quality::Quick };
    for (growth, users) in [(1_500, 102), (1_999, 102), (2_500, 103), (3_499, 103), (3_500, 104), (4_499, 104)] {
        let mut state = GameState::new(DifficultyMode::IndieBootstrap);
        apply_action(&mut state, &action, &plain_roll(growth, 6_000, -1_000), 1_000);
        assert_eq!(state.wau, users, "growth {}", growth);
    }
}

#[test]
fn every_record_holds_the_difference_of_its_values() {
    // a podcast with a gain of 3.6 users: 8 * 0.9 * 0.5 * 1.0
    let mut state = GameState::new(DifficultyMode::IndieBootstrap);
    let action = Action::DevRel { event_type: DevRelEvent::Podcast };
    let result = apply_action(&mut state, &action, &plain_roll(900, 1_000, 1_000), 1_000);
    assert_eq!(state.wau, 103);
    let users = result.effects.iter().find(|e| e.stat == Stat::Wau).unwrap();
    assert_eq!((users.old_value, users.new_value, users.delta), (100_000, 103_000, 3_000));
    let mut rng = GameRng::seeded(44);
    let actions = [
        Action::ShipFeature { quality: Quality::Polish },
        Action::ContentLaunch { content_type: ContentType::Tutorial },
        Action::PaidAds { budget: 20_000_000, channel: AdChannel::Google },
        Action::DevRel { event_type: DevRelEvent::Conference },
        Action::FounderLedSales { call_count: 9 },
        Action::RunExperiment { category: ExperimentType::Onboarding },
        Action::Fundraise { target: 250_000_000 },
        Action::RefactorCode { depth: RefactorDepth::Medium },
    ];
    for _ in 0..50 {
        for action in &actions {
            let mut state = GameState::new(DifficultyMode::IndieBootstrap);
            state.mrr = 3_333_333;
            state.wau = 777;
            let before = state.clone();
            let result = resolve_action(&mut state, action, 1_100, &mut rng);
            for e in &result.effects {
                assert_eq!(e.delta, e.new_value - e.old_value);
                assert_eq!(e.old_value, before.stat_value(e.stat));
                assert_eq!(e.new_value, state.stat_value(e.stat));
            }
        }
    }
}

#[test]
fn effectiveness_scales_every_magnitude() {
    let mut state = GameState::new(DifficultyMode::IndieBootstrap);
    apply_action(&mut state, &Action::Hire, &plain_roll(0, 0, 0), 1_500);
    assert_eq!(state.burn, 8_000_000 + 15_000_000);
    assert_eq!(state.velocity, 1_150);
    assert_eq!(state.morale, 87_500);
    let mut state = GameState::new(DifficultyMode::IndieBootstrap);
    apply_action(&mut state, &Action::TakeBreak, &plain_roll(0, 0, 0), 500);
    assert_eq!(state.morale, 87_500);
}

#[test]
fn hire_adds_salary_velocity_and_morale() {
    let mut state = GameState::new(DifficultyMode::IndieBootstrap);
    let result = apply_action(&mut state, &Action::Hire, &plain_roll(0, 0, 0), 1_000);
    assert!(result.success);
    assert_eq!(state.burn, 18_000_000);
    assert_eq!(state.velocity, 1_100);
    assert_eq!(state.morale, 85_000);
}

#[test]
fn sales_close_deals_and_sign_customers() {
    let mut state = GameState::new(DifficultyMode::IndieBootstrap);
    state.week = 7;
    let roll = ActionRoll {
        chance: 320,
        success: false,
        first: 0,
        second: 0,
        third: 0,
        deals: vec![
            Deal { size: 450_000, satisfaction: 70_000 },
            Deal { size: 600_000, satisfaction: 88_000 },
        ],
        welcomes: Vec::new(),
    };
    let action = Action::FounderLedSales { call_count: 5 };
    let result = apply_action(&mut state, &action, &roll, 1_000);
    assert!(result.success);
    assert_eq!(state.mrr, 1_050_000);
    assert_eq!(state.morale, 77_500);
    assert_eq!(state.reputation, 51_000);
    assert_eq!(state.customers.len(), 2);
    assert_eq!(state.customers[0].segment, CustomerSegment::SMB);
    assert_eq!(state.customers[0].mrr_contribution, 450_000);
    assert_eq!(state.customers[0].join_week, 7);
    assert_eq!(state.customers[1].satisfaction, 88_000);
    assert_eq!(state.customers[1].lifecycle_stage, CustomerLifecycle::Onboarding);
    assert!(!state.customers[1].is_champion);

    let mut state = GameState::new(DifficultyMode::IndieBootstrap);
    let result = apply_action(&mut state, &action, &plain_roll(0, 0, 0), 1_000);
    assert!(!result.success);
    assert_eq!(state.mrr, 0);
    assert!(state.customers.is_empty());
}

#[test]
fn sales_draws_respect_the_conversion_chance() {
    assert_eq!(sales_conversion_chance(50_000), 300);
    assert_eq!(sales_conversion_chance(0), 50);
    let mut state = GameState::new(DifficultyMode::IndieBootstrap);
    let action = Action::FounderLedSales { call_count: 40 };
    // A reputation of 190 or more makes every call convert.
    state.reputation = 200_000;
    let mut rng = GameRng::seeded(5);
    let roll = roll_action(&mut rng, &action, &state);
    assert_eq!(roll.deals.len(), 40);
    for deal in &roll.deals {
        assert!((400_000..=600_000).contains(&deal.size));
        assert!((65_000..=90_000).contains(&deal.satisfaction));
    }
    // A reputation of -10 or less makes none convert.
    state.reputation = -10_000;
    let roll = roll_action(&mut rng, &action, &state);
    assert!(roll.deals.is_empty());
}

#[test]
fn fundraise_chance_follows_the_formula() {
    assert_eq!(fundraise_success_chance(50_000, 0), 550);
    assert_eq!(fundraise_success_chance(50_000, 800), 558);
    assert_eq!(fundraise_success_chance(100_000, 100_000), 800);
    assert_eq!(fundraise_success_chance(-100_000, 0), 0);
}

#[test]
fn fundraise_succeeds_about_55_percent_of_the_time() {
    let mut rng = GameRng::seeded(2024);
    let mut state = GameState::new(DifficultyMode::IndieBootstrap);
    state.reputation = 50_000;
    state.momentum = 0;
    let action = Action::Fundraise { target: 250_000_000 };
    let mut successes = 0;
    for _ in 0..1000 {
        let roll = roll_action(&mut rng, &action, &state);
        if roll.success {
            successes += 1;
        }
    }
    assert!((500..=600).contains(&successes), "successes {}", successes);
}

#[test]
fn fundraise_success_and_failure() {
    let mut state = GameState::new(DifficultyMode::IndieBootstrap);
    let action = Action::Fundraise { target: 250_000_000 };
    let mut roll = plain_roll(0, 0, 0);
    roll.success = true;
    let result = apply_action(&mut state, &action, &roll, 1_000);
    assert!(result.success);
    assert_eq!(state.bank, 300_000_000);
    // 250,000 / 5,000,000 * 20 = 1 percent
    assert_eq!(state.founder_equity, 99_000);
    roll.success = false;
    let result = apply_action(&mut state, &action, &roll, 1_000);
    assert!(!result.success);
    assert_eq!(state.morale, 70_000);
    assert_eq!(state.bank, 300_000_000);
}

#[test]
fn refactor_impact_by_depth_and_debt() {
    assert_eq!(calculate_refactor_impact(&RefactorDepth::Surface, 10_000, 1_000, 1_000), (10_000, 50));
    assert_eq!(calculate_refactor_impact(&RefactorDepth::Medium, 60_000, 1_000, 1_000), (24_000, 120));
    assert_eq!(calculate_refactor_impact(&RefactorDepth::Deep, 50_000, 800, 1_100), (28_000, 220));
    let mut state = GameState::new(DifficultyMode::IndieBootstrap);
    state.tech_debt = 60_000;
    let action = Action::RefactorCode { depth: RefactorDepth::Deep };
    apply_action(&mut state, &action, &plain_roll(1_000, 1_000, 1_000), 1_000);
    assert_eq!(state.tech_debt, 18_000);
    assert_eq!(state.velocity, 1_200);
    assert_eq!(state.morale, 70_000);
}

#[test]
fn content_reach_and_ads() {
    assert_eq!(calculate_content_reach(&ContentType::Video, 50_000, 1_000, 1_000), (6_500, 5_000));
    assert_eq!(calculate_content_reach(&ContentType::BlogPost, 0, 1_200, 900), (1_920, 1_800));
    assert_eq!(calculate_ad_effectiveness(&AdChannel::Social, 5_000_000, 20_000, 1_000), 400);
    assert_eq!(calculate_ad_effectiveness(&AdChannel::Influencer, 20_000_000, 20_000, 1_000), 1_920);
    let mut state = GameState::new(DifficultyMode::IndieBootstrap);
    let action = Action::PaidAds { budget: 20_000_000, channel: AdChannel::Influencer };
    let result = apply_action(&mut state, &action, &plain_roll(1_000, 0, 0), 1_000);
    assert!(result.success);
    assert_eq!(state.wau, 101);
    assert_eq!(state.bank, 30_000_000);
    let mut state = GameState::new(DifficultyMode::IndieBootstrap);
    let action = Action::ContentLaunch { content_type: ContentType::Video };
    apply_action(&mut state, &action, &plain_roll(1_000, 1_000, 0), 1_000);
    assert_eq!(state.wau, 106);
    assert_eq!(state.reputation, 55_000);
}

#[test]
fn experiment_outcomes() {
    let mut state = GameState::new(DifficultyMode::IndieBootstrap);
    state.mrr = 10_000_000;
    state.wau = 1_000;
    let pricing = calculate_experiment_outcome(&ExperimentType::Pricing, &state, true, 1_000, 1_000);
    assert!(pricing.success);
    assert_eq!(pricing.changes.len(), 1);
    assert_eq!(pricing.changes[0].stat, Stat::Mrr);
    assert_eq!(pricing.changes[0].kind, ChangeKind::Increase);
    assert_eq!(pricing.changes[0].amount, 500_000);
    let onboarding = calculate_experiment_outcome(&ExperimentType::Onboarding, &state, true, 1_000, 1_000);
    assert_eq!(onboarding.changes.len(), 2);
    assert_eq!(onboarding.changes[0].amount, 30_000);
    assert_eq!(onboarding.changes[1].stat, Stat::ChurnRate);
    assert_eq!(onboarding.changes[1].amount, -250);
    let failed = calculate_experiment_outcome(&ExperimentType::Channel, &state, false, 1_000, 1_000);
    assert!(!failed.success);
    assert_eq!(failed.changes[0].stat, Stat::Morale);
    assert_eq!(failed.changes[0].amount, -2_000);

    let mut roll = plain_roll(1_200, 0, 0);
    roll.success = true;
    let action = Action::RunExperiment { category: ExperimentType::Channel };
    let result = apply_action(&mut state, &action, &roll, 1_000);
    assert!(result.success);
    assert_eq!(state.reputation, 56_000);
}

#[test]
fn team_and_operations_actions() {
    let mut state = GameState::new(DifficultyMode::IndieBootstrap);
    apply_action(
        &mut state,
        &Action::Coach { focus: CoachingFocus::Morale },
        &plain_roll(1_000, 1_000, 0),
        1_000,
    );
    assert_eq!(state.velocity, 1_020);
    assert_eq!(state.morale, 88_000);
    apply_action(&mut state, &Action::Fire { reason: FiringReason::Culture }, &plain_roll(1_000, 0, 0), 1_000);
    assert_eq!(state.burn, 0);
    assert_eq!(state.morale, 76_000);
    assert_eq!(state.velocity, 940);
    apply_action(&mut state, &Action::ComplianceWork { hours: 5 }, &plain_roll(1_000, 1_000, 0), 1_000);
    assert_eq!(state.compliance_risk, 10_000);
    assert_eq!(state.morale, 74_500);
    apply_action(&mut state, &Action::IncidentResponse, &plain_roll(1_000, 1_000, 0), 1_000);
    assert_eq!(state.reputation, 45_000);
    assert_eq!(state.morale, 59_500);
    apply_action(&mut state, &Action::ProcessImprovement, &plain_roll(1_000, 1_000, 0), 1_000);
    assert_eq!(state.velocity, 1_020);
    assert_eq!(state.morale, 62_500);
    apply_action(
        &mut state,
        &Action::DevRel { event_type: DevRelEvent::Conference },
        &plain_roll(1_000, 1_000, 1_000),
        1_000,
    );
    assert_eq!(state.reputation, 57_000);
    assert_eq!(state.wau, 106);
    assert_eq!(state.morale, 67_500);
}

#[test]
fn actions_do_not_bound_stats_by_themselves() {
    let mut state = GameState::new(DifficultyMode::IndieBootstrap);
    state.morale = 95_000;
    apply_action(&mut state, &Action::TakeBreak, &plain_roll(0, 0, 0), 1_000);
    assert_eq!(state.morale, 110_000);
    state.update_derived_metrics();
    assert_eq!(state.morale, 100_000);
}

#[test]
fn seeded_generators_repeat_themselves() {
    let mut a = GameRng::seeded(77);
    let mut b = GameRng::seeded(77);
    let mut c = GameRng::seeded(78);
    let mut same = true;
    let mut differs = false;
    for _ in 0..50 {
        let x = a.between(0, 1_000_000);
        let y = b.between(0, 1_000_000);
        let z = c.between(0, 1_000_000);
        assert!((0..=1_000_000).contains(&x));
        same = same && x == y;
        differs = differs || x != z;
    }
    assert!(same);
    assert!(differs);
    assert_eq!(a.between(5, 5), 5);
    assert_eq!(a.between(9, 3), 9);
    for _ in 0..100 {
        assert!(!a.chance(0));
        assert!(!a.chance(-5));
        assert!(a.chance(1_000));
        assert!(a.chance(7_000));
    }
    let mut hits = 0;
    for _ in 0..2_000 {
        if a.chance(250) {
            hits += 1;
        }
    }
    assert!((400..=600).contains(&hits), "hits {}", hits);
}

#[test]
fn shuffles_and_picks_keep_what_they_are_given() {
    let mut rng = GameRng::seeded(5);
    let positions: Vec<usize> = vec![4, 8, 15, 16, 23, 42];
    let mut orders = std::collections::HashSet::new();
    let mut picks = std::collections::HashSet::new();
    for _ in 0..200 {
        let mut shuffled = positions.clone();
        rng.shuffle(&mut shuffled);
        let mut sorted = shuffled.clone();
        sorted.sort();
        assert_eq!(sorted, positions);
        orders.insert(shuffled);
        picks.insert(rng.pick_one(&positions).unwrap());
    }
    assert!(orders.len() > 100);
    assert_eq!(picks.len(), 6);
    assert_eq!(rng.pick_one(&Vec::new()), None);
    let mut empty: Vec<usize> = Vec::new();
    rng.shuffle(&mut empty);
    assert!(empty.is_empty());
}

#[test]
fn draws_record_the_chance_of_their_trial() {
    let mut rng = GameRng::seeded(77);
    let mut state = GameState::new(DifficultyMode::IndieBootstrap);
    state.reputation = 50_000;
    state.momentum = 800;
    let roll = roll_action(&mut rng, &Action::Fundraise { target: 250_000_000 }, &state);
    assert_eq!(roll.chance, 558);
    state.reputation = -100_000;
    state.momentum = 0;
    for _ in 0..50 {
        let roll = roll_action(&mut rng, &Action::Fundraise { target: 250_000_000 }, &state);
        assert_eq!(roll.chance, 0);
        assert!(!roll.success);
    }
    state.reputation = 50_000;
    let roll = roll_action(&mut rng, &Action::FounderLedSales { call_count: 3 }, &state);
    assert_eq!(roll.chance, 300);
    state.reputation = 400_000;
    let roll = roll_action(&mut rng, &Action::FounderLedSales { call_count: 3 }, &state);
    assert_eq!(roll.chance, 1_000);
    assert_eq!(roll.deals.len(), 3);
    let roll = roll_action(
        &mut rng,
        &Action::RunExperiment { category: ExperimentType::Pricing },
        &state,
    );
    assert_eq!(roll.chance, 600);
}

#[test]
fn a_trial_records_its_chance() {
    let mut rng = GameRng::seeded(3);
    for _ in 0..50 {
        let never = rng.trial(-5);
        assert_eq!((never.chance, never.hit), (0, false));
        let always = rng.trial(2_500);
        assert_eq!((always.chance, always.hit), (1_000, true));
        assert_eq!(rng.trial(425).chance, 425);
    }
    let hits = (0..2_000).filter(|_| rng.trial(250).hit).count();
    assert!((400..=600).contains(&hits), "hits {}", hits);
}

#[test]
fn a_feature_wins_customers_when_the_users_grow_by_more_than_a_twentieth() {
    let mut state = GameState::new(DifficultyMode::IndieBootstrap);
    let action = Action::ShipFeature { quality: Quality::Balanced };
    // 100 users: 4.499 percent gives 104, 5 percent 105, 5.5 percent 106
    for (growth, effectiveness, due) in [
        (4_499, 1_000, 0),
        (5_000, 1_000, 0),
        (5_500, 1_000, 1),
        (5_000, 2_000, 1),
        (5_250, 2_000, 2),
        (5_000, 4_000, 2),
        (5_000, 4_200, 3),
        (5_499, 9_000, 3),
    ] {
        let roll = plain_roll(growth, 2_000, 1_000);
        assert_eq!(
            count_customers_due(&state, &action, &roll, effectiveness),
            due,
            "growth {} at {}",
            growth,
            effectiveness
        );
    }
    state.wau = 0;
    assert_eq!(count_customers_due(&state, &action, &plain_roll(5_499, 2_000, 1_000), 2_000), 0);
    state.wau = 1;
    // one user that becomes two has grown by a hundred percent
    assert_eq!(count_customers_due(&state, &action, &plain_roll(5_499, 2_000, 1_000), 10_000), 3);
}

#[test]
fn content_relations_and_advertising_win_customers_by_their_gain() {
    let mut state = GameState::new(DifficultyMode::IndieBootstrap);
    state.reputation = 50_000;
    let plain = plain_roll(1_000, 1_000, 1_000);
    // a video reaches 5 * 1.3 = 6.5 users: one customer for every 5
    let video = Action::ContentLaunch { content_type: ContentType::Video };
    assert_eq!(count_customers_due(&state, &video, &plain, 1_000), 2);
    assert_eq!(count_customers_due(&state, &video, &plain, 2_000), 3);
    let post = Action::ContentLaunch { content_type: ContentType::BlogPost };
    assert_eq!(count_customers_due(&state, &post, &plain, 1_000), 1);
    assert_eq!(count_customers_due(&state, &post, &plain, 0), 0);
    // a conference brings 12 points of reputation: one customer for every 3
    let conference = Action::DevRel { event_type: DevRelEvent::Conference };
    assert_eq!(count_customers_due(&state, &conference, &plain, 1_000), 4);
    assert_eq!(count_customers_due(&state, &conference, &plain_roll(1_001, 0, 0), 1_000), 5);
    let podcast = Action::DevRel { event_type: DevRelEvent::Podcast };
    assert_eq!(count_customers_due(&state, &podcast, &plain_roll(900, 0, 0), 1_000), 3);
    // a million on Google wins 0.8 * 0.8 * 100 = 64 users: one customer for every 10
    let ads = Action::PaidAds { budget: 1_000_000_000, channel: AdChannel::Google };
    assert_eq!(count_customers_due(&state, &ads, &plain, 1_000), 7);
    let none = Action::PaidAds { budget: 0, channel: AdChannel::Google };
    assert_eq!(count_customers_due(&state, &none, &plain, 1_000), 0);
    // nothing else wins customers this way
    assert_eq!(count_customers_due(&state, &Action::Hire, &plain, 1_000), 0);
    assert_eq!(
        count_customers_due(&state, &Action::FounderLedSales { call_count: 5 }, &plain, 1_000),
        0
    );
}

#[test]
fn welcomes_become_onboarding_customers() {
    let mut state = GameState::new(DifficultyMode::IndieBootstrap);
    state.week = 9;
    let mut roll = plain_roll(1_000, 1_000, 1_000);
    roll.welcomes = vec![
        Welcome { chance: 800, self_serve: true, satisfaction: 61_000 },
        Welcome { chance: 800, self_serve: false, satisfaction: 88_000 },
    ];
    let ads = Action::PaidAds { budget: 150_000_000, channel: AdChannel::Google };
    apply_action(&mut state, &ads, &roll, 1_000);
    assert_eq!(state.customers.len(), 2);
    assert_eq!(state.customers[0].segment, CustomerSegment::SelfServe);
    assert_eq!(state.customers[0].satisfaction, 61_000);
    assert_eq!(state.customers[1].segment, CustomerSegment::SMB);
    assert_eq!(state.customers[1].satisfaction, 88_000);
    for customer in &state.customers {
        assert_eq!(customer.join_week, 9);
        assert_eq!(customer.lifecycle_stage, CustomerLifecycle::Onboarding);
        assert_eq!(customer.mrr_contribution, 0);
        assert!(!customer.is_champion);
    }
    // an action that wins no customers leaves the welcomes alone
    apply_action(&mut state, &Action::Hire, &roll, 1_000);
    assert_eq!(state.customers.len(), 2);
}

#[test]
fn drawn_welcomes_fit_their_action() {
    let mut rng = GameRng::seeded(41);
    let video = Action::ContentLaunch { content_type: ContentType::Video };
    let welcomes = roll_welcomes(&mut rng, &video, 200);
    assert_eq!(welcomes.len(), 200);
    for w in &welcomes {
        assert_eq!((w.chance, w.self_serve), (1_000, true));
        assert!((60_000..=90_000).contains(&w.satisfaction));
    }
    let ads = Action::PaidAds { budget: 1_000_000, channel: AdChannel::Influencer };
    let welcomes = roll_welcomes(&mut rng, &ads, 1_000);
    let small = welcomes.iter().filter(|w| !w.self_serve).count();
    assert!((230..=370).contains(&small), "small businesses {}", small);
    for w in &welcomes {
        assert_eq!(w.chance, 700);
        let floor = if w.self_serve { 60_000 } else { 65_000 };
        assert!((floor..=90_000).contains(&w.satisfaction));
    }
    assert!(roll_welcomes(&mut rng, &ads, 0).is_empty());
}

#[test]
fn resolving_an_action_welcomes_the_customers_it_wins() {
    let mut rng = GameRng::seeded(8);
    for _ in 0..50 {
        let mut state = GameState::new(DifficultyMode::IndieBootstrap);
        state.reputation = 50_000;
        let conference = Action::DevRel { event_type: DevRelEvent::Conference };
        let result = resolve_action(&mut state, &conference, 1_000, &mut rng);
        // 12 points of reputation, give or take a tenth
        let gained = result.effects[0].delta;
        assert_eq!(result.effects[0].stat, Stat::Reputation);
        assert_eq!(state.customers.len() as i64, (gained + 2_999) / 3_000);
        assert!(state.customers.len() == 4 || state.customers.len() == 5);
        assert!(state.customers.iter().all(|c| c.segment == CustomerSegment::SelfServe));
        let before = state.customers.len();
        resolve_action(&mut state, &Action::Hire, 1_000, &mut rng);
        resolve_action(&mut state, &Action::ShipFeature { quality: Quality::Quick }, 1_000, &mut rng);
        assert_eq!(state.customers.len(), before);
    }
}
