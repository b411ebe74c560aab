use founders_dilemma::actions::Action;
use founders_dilemma::actions::AdChannel;
use founders_dilemma::actions::CoachingFocus;
use founders_dilemma::actions::ContentType;
use founders_dilemma::actions::DevRelEvent;
use founders_dilemma::actions::ExperimentType;
use founders_dilemma::actions::Quality;
use founders_dilemma::actions::RefactorDepth;
use founders_dilemma::actions::Stat;
use founders_dilemma::state::DifficultyMode;
use founders_dilemma::state::GameState;
use founders_dilemma::synergies::apply_synergy_bonuses;
use founders_dilemma::synergies::calculate_action_combo_score;
use founders_dilemma::synergies::check_action_synergies;
use founders_dilemma::synergies::detect_specialization_path;
use founders_dilemma::synergies::get_action_type;
use founders_dilemma::synergies::get_all_synergies;
use founders_dilemma::synergies::ActionSynergy;
use founders_dilemma::synergies::ActionType;
use founders_dilemma::synergies::SpecializationPath;
use founders_dilemma::synergies::SynergyBonus;
use founders_dilemma::synergies::SynergyId;

#[test]
fn test_check_synergies_launch_momentum() {
    let actions = vec![
        Action::ShipFeature { quality: Quality::Balanced },
        Action::ContentLaunch { content_type: ContentType::BlogPost },
    ];
    let synergies = check_action_synergies(&actions);
    assert!(synergies.iter().any(|s| s.id == SynergyId::LaunchMomentum));
}

#[test]
fn test_detect_product_excellence() {
    let action_history = vec![
        (1, vec![Action::ShipFeature { quality: Quality::Balanced }]),
        (2, vec![Action::RefactorCode { depth: RefactorDepth::Surface }]),
        (3, vec![Action::RunExperiment { category: ExperimentType::Pricing }]),
    ];
    let recent = vec![Action::ShipFeature { quality: Quality::Quick }];
    let path = detect_specialization_path(&action_history, &recent);
    assert_eq!(path, Some(SpecializationPath::ProductExcellence));
}

#[test]
fn test_apply_synergy_bonuses() {
    let mut state = GameState::new(DifficultyMode::IndieBootstrap);
    let initial_wau = state.wau;
    let synergies = vec![ActionSynergy {
        id: SynergyId::LaunchMomentum,
        required_actions: vec![],
        bonus_effects: vec![SynergyBonus { stat: Stat::Wau, bonus_amount: 10_000, is_multiplier: false }],
    }];
    apply_synergy_bonuses(&mut state, &synergies);
    assert_eq!(state.wau, initial_wau + 10);
}

#[test]
fn test_combo_score() {
    let actions = vec![
        Action::ShipFeature { quality: Quality::Balanced },
        Action::ContentLaunch { content_type: ContentType::BlogPost },
    ];
    let score = calculate_action_combo_score(&actions);
    assert!(score > 0);
}

#[test]
fn catalog_holds_twenty_synergies_in_order() {
    let all = get_all_synergies();
    assert_eq!(all.len(), 20);
    assert_eq!(all[0].id, SynergyId::LaunchMomentum);
    assert_eq!(all[0].required_actions, vec![ActionType::ShipFeature, ActionType::ContentLaunch]);
    assert_eq!(
        all[0].bonus_effects,
        vec![SynergyBonus { stat: Stat::Wau, bonus_amount: 150, is_multiplier: true }]
    );
    assert_eq!(all[4].id, SynergyId::TechnicalFoundation);
    assert_eq!(
        all[4].bonus_effects,
        vec![
            SynergyBonus { stat: Stat::Velocity, bonus_amount: 150, is_multiplier: false },
            SynergyBonus { stat: Stat::TechDebt, bonus_amount: -10_000, is_multiplier: false },
        ]
    );
    assert_eq!(all[19].id, SynergyId::OptimizedAds);
}

#[test]
fn synergies_need_every_required_kind_and_ignore_parameters() {
    let ship = Action::ShipFeature { quality: Quality::Polish };
    let content = Action::ContentLaunch { content_type: ContentType::Video };
    let devrel = Action::DevRel { event_type: DevRelEvent::Workshop };
    assert!(check_action_synergies(&vec![ship]).is_empty());
    assert!(check_action_synergies(&Vec::new()).is_empty());
    let found = check_action_synergies(&vec![devrel, content, ship, ship]);
    let ids: Vec<SynergyId> = found.iter().map(|s| s.id).collect();
    assert_eq!(
        ids,
        vec![SynergyId::LaunchMomentum, SynergyId::ProductCredibility, SynergyId::CommunityBuilding]
    );
    // 3 synergies and 1 + 2 + 2 bonuses
    assert_eq!(calculate_action_combo_score(&vec![devrel, content, ship]), 1_400);
    assert_eq!(calculate_action_combo_score(&vec![ship]), 0);
    let many = vec![
        ship,
        content,
        devrel,
        Action::PaidAds { budget: 1, channel: AdChannel::Google },
        Action::RunExperiment { category: ExperimentType::Pricing },
        Action::Coach { focus: CoachingFocus::Skills },
        Action::Hire,
    ];
    assert_eq!(calculate_action_combo_score(&many), 2_000);
    assert_eq!(get_action_type(&devrel), ActionType::DevRel);
}

#[test]
fn synergy_bonuses_round_users_and_keep_stats_in_range() {
    let mut state = GameState::new(DifficultyMode::IndieBootstrap);
    state.wau = 110;
    state.reputation = 95_000;
    state.burn = 10_000_000;
    let synergies = vec![
        ActionSynergy {
            id: SynergyId::ProductCredibility,
            required_actions: vec![],
            bonus_effects: vec![
                SynergyBonus { stat: Stat::Reputation, bonus_amount: 10_000, is_multiplier: false },
                SynergyBonus { stat: Stat::Wau, bonus_amount: 50, is_multiplier: true },
            ],
        },
        ActionSynergy {
            id: SynergyId::ScalableOperations,
            required_actions: vec![],
            bonus_effects: vec![
                SynergyBonus { stat: Stat::Burn, bonus_amount: -150, is_multiplier: true },
                SynergyBonus { stat: Stat::Velocity, bonus_amount: 100, is_multiplier: false },
                SynergyBonus { stat: Stat::TechDebt, bonus_amount: -50_000, is_multiplier: false },
                SynergyBonus { stat: Stat::Mrr, bonus_amount: -5, is_multiplier: false },
                SynergyBonus { stat: Stat::Nps, bonus_amount: 5_000, is_multiplier: false },
            ],
        },
    ];
    apply_synergy_bonuses(&mut state, &synergies);
    assert_eq!(state.reputation, 100_000);
    // 110 * 1.05 = 115.5 rounds to 116
    assert_eq!(state.wau, 116);
    assert_eq!(state.burn, 8_500_000);
    assert_eq!(state.velocity, 1_100);
    assert_eq!(state.tech_debt, 0);
    assert_eq!(state.mrr, 0);
    assert_eq!(state.nps, 0);
}

#[test]
fn specialization_needs_sixty_percent() {
    let ship = Action::ShipFeature { quality: Quality::Quick };
    let sales = Action::FounderLedSales { call_count: 3 };
    let hire = Action::Hire;
    let ops = Action::ProcessImprovement;
    let rest = Action::TakeBreak;
    assert_eq!(detect_specialization_path(&Vec::new(), &Vec::new()), None);
    assert_eq!(
        detect_specialization_path(&Vec::new(), &vec![ship, ship, ship, sales, sales]),
        Some(SpecializationPath::ProductExcellence)
    );
    assert_eq!(detect_specialization_path(&Vec::new(), &vec![ship, ship, sales, sales]), None);
    assert_eq!(
        detect_specialization_path(&Vec::new(), &vec![sales, sales, sales, rest, rest]),
        Some(SpecializationPath::GrowthHacking)
    );
    assert_eq!(
        detect_specialization_path(&Vec::new(), &vec![ops, ops, ops, rest, ship]),
        Some(SpecializationPath::OperationalEfficiency)
    );
    // growth 2 of 5 and team 2 of 5: 0.4 + 0.2
    assert_eq!(
        detect_specialization_path(&Vec::new(), &vec![sales, sales, hire, hire, rest]),
        Some(SpecializationPath::CustomerObsessed)
    );
    assert_eq!(detect_specialization_path(&Vec::new(), &vec![rest, rest]), None);
}

#[test]
fn specialization_looks_back_eight_weeks() {
    let ship = Action::ShipFeature { quality: Quality::Quick };
    let sales = Action::FounderLedSales { call_count: 3 };
    let mut log: Vec<(u32, Vec<Action>)> = Vec::new();
    for week in 0..4 {
        log.push((week, vec![ship, ship, ship]));
    }
    for week in 4..12 {
        log.push((week, vec![sales]));
    }
    // Only the last eight weeks count: eight sales calls and one feature.
    assert_eq!(detect_specialization_path(&log, &vec![ship]), Some(SpecializationPath::GrowthHacking));
    log.remove(11);
    // Seven sales calls, three features from week 3, and the current turn.
    assert_eq!(detect_specialization_path(&log, &vec![ship, ship]), None);
}
