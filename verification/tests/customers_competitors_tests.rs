use founders_dilemma::chance::GameRng;
use founders_dilemma::competitors::calculate_competitor_team_size;
use founders_dilemma::competitors::calculate_feature_parity;
use founders_dilemma::competitors::calculate_market_share;
use founders_dilemma::competitors::competitor_action_for;
use founders_dilemma::competitors::competitor_velocity;
use founders_dilemma::competitors::ActionDraw;
use founders_dilemma::competitors::determine_funding_stage;
use founders_dilemma::competitors::determine_pricing_strategy;
use founders_dilemma::competitors::funding_stage_to_amount;
use founders_dilemma::competitors::generate_competitor_action;
use founders_dilemma::competitors::generate_competitors;
use founders_dilemma::competitors::get_competitors_by_funding;
use founders_dilemma::competitors::get_most_threatening_competitor;
use founders_dilemma::competitors::get_random_competitor;
use founders_dilemma::competitors::get_recently_funded_competitors;
use founders_dilemma::competitors::get_shipping_velocity_ratio;
use founders_dilemma::competitors::pricing_strategy_for;
use founders_dilemma::competitors::update_competitor_state;
use founders_dilemma::competitors::Competitor;
use founders_dilemma::competitors::CompetitorAction;
use founders_dilemma::competitors::CompetitorActionType;
use founders_dilemma::competitors::FundingStage;
use founders_dilemma::competitors::PricingStrategy;
use founders_dilemma::customers::calculate_segment_from_mrr;
use founders_dilemma::customers::check_churn_risk;
use founders_dilemma::customers::feedback_sentiment;
use founders_dilemma::customers::generate_customer_feedback;
use founders_dilemma::customers::generate_customer_persona;
use founders_dilemma::customers::get_at_risk_customers;
use founders_dilemma::customers::get_champions;
use founders_dilemma::customers::get_customers_by_lifecycle;
use founders_dilemma::customers::get_customers_by_segment;
use founders_dilemma::customers::get_random_customer;
use founders_dilemma::customers::has_at_risk_customers;
use founders_dilemma::customers::promote_to_champion;
use founders_dilemma::customers::update_customer_lifecycle;
use founders_dilemma::customers::update_customer_satisfaction;
use founders_dilemma::customers::Customer;
use founders_dilemma::customers::CustomerLifecycle;
use founders_dilemma::customers::CustomerSegment;
use founders_dilemma::customers::FeedbackSentiment;
use founders_dilemma::state::DifficultyMode;

fn customer(segment: CustomerSegment, stage: CustomerLifecycle, satisfaction: i64) -> Customer {
    Customer {
        segment,
        join_week: 0,
        satisfaction,
        lifecycle_stage: stage,
        latest_feedback: None,
        mrr_contribution: 0,
        is_champion: false,
    }
}

fn rival(parity: i64, share: i64, aggressiveness: i64) -> Competitor {
    Competitor {
        funding_stage: FundingStage::Seed,
        feature_parity: parity,
        pricing_strategy: PricingStrategy::Premium,
        market_share: share,
        aggressiveness,
        last_action_week: 0,
        action_history: Vec::new(),
        total_funding: 1_500_000_000,
        team_size: 10,
        is_acquired: false,
    }
}

#[test]
fn segments_by_revenue() {
    assert_eq!(calculate_segment_from_mrr(2_000_001), CustomerSegment::Enterprise);
    assert_eq!(calculate_segment_from_mrr(2_000_000), CustomerSegment::SMB);
    assert_eq!(calculate_segment_from_mrr(200_001), CustomerSegment::SMB);
    assert_eq!(calculate_segment_from_mrr(200_000), CustomerSegment::SelfServe);
    assert_eq!(calculate_segment_from_mrr(-1), CustomerSegment::SelfServe);
}

#[test]
fn customers_move_along_the_lifecycle() {
    let mut c = customer(CustomerSegment::SMB, CustomerLifecycle::Onboarding, 50_000);
    update_customer_lifecycle(&mut c);
    assert_eq!(c.lifecycle_stage, CustomerLifecycle::Onboarding);
    c.satisfaction = 50_001;
    update_customer_lifecycle(&mut c);
    assert_eq!(c.lifecycle_stage, CustomerLifecycle::Active);
    c.satisfaction = 81_000;
    update_customer_lifecycle(&mut c);
    assert_eq!(c.lifecycle_stage, CustomerLifecycle::Champion);
    assert!(c.is_champion);
    c.satisfaction = 59_000;
    update_customer_lifecycle(&mut c);
    assert_eq!(c.lifecycle_stage, CustomerLifecycle::Active);
    assert!(!c.is_champion);
    c.satisfaction = 39_000;
    update_customer_lifecycle(&mut c);
    assert_eq!(c.lifecycle_stage, CustomerLifecycle::AtRisk);
    assert!(!check_churn_risk(&c));
    c.satisfaction = 29_000;
    assert!(check_churn_risk(&c));
    update_customer_lifecycle(&mut c);
    assert_eq!(c.lifecycle_stage, CustomerLifecycle::Churned);
    c.satisfaction = 99_000;
    update_customer_lifecycle(&mut c);
    assert_eq!(c.lifecycle_stage, CustomerLifecycle::Churned);
    promote_to_champion(&mut c);
    assert_eq!(c.lifecycle_stage, CustomerLifecycle::Champion);
    assert!(c.is_champion);
    let mut d = customer(CustomerSegment::SMB, CustomerLifecycle::Active, 85_000);
    promote_to_champion(&mut d);
    assert_eq!(d.lifecycle_stage, CustomerLifecycle::Active);
}

#[test]
fn satisfaction_drifts_with_the_company() {
    let mut c = customer(CustomerSegment::SMB, CustomerLifecycle::Active, 50_000);
    update_customer_satisfaction(&mut c, 1_500, 41_000, 10_000, 1_300);
    // +1.5 jitter, +3 for the score, +2 for velocity
    assert_eq!(c.satisfaction, 56_500);
    update_customer_satisfaction(&mut c, -5_000, 19_000, 71_000, 700);
    // -5 jitter, -3, -2, -2
    assert_eq!(c.satisfaction, 44_500);
    update_customer_satisfaction(&mut c, 0, 30_000, 0, 1_000);
    assert_eq!(c.satisfaction, 44_500);
    update_customer_satisfaction(&mut c, 90_000, 30_000, 0, 1_000);
    assert_eq!(c.satisfaction, 100_000);
    update_customer_satisfaction(&mut c, i64::MIN, 30_000, 0, 1_000);
    assert_eq!(c.satisfaction, 0);
}

#[test]
fn customers_are_found_by_segment_and_stage() {
    let mut customers = vec![
        customer(CustomerSegment::SMB, CustomerLifecycle::Active, 50_000),
        customer(CustomerSegment::Enterprise, CustomerLifecycle::AtRisk, 50_000),
        customer(CustomerSegment::SMB, CustomerLifecycle::AtRisk, 50_000),
        customer(CustomerSegment::SelfServe, CustomerLifecycle::Champion, 50_000),
    ];
    customers[3].is_champion = true;
    assert_eq!(get_customers_by_segment(&customers, Some(CustomerSegment::SMB)), vec![0, 2]);
    assert_eq!(get_customers_by_segment(&customers, None), vec![0, 1, 2, 3]);
    assert_eq!(get_customers_by_lifecycle(&customers, CustomerLifecycle::Active), vec![0]);
    assert_eq!(get_at_risk_customers(&customers), vec![1, 2]);
    assert_eq!(get_champions(&customers), vec![3]);
    assert!(has_at_risk_customers(&customers));
    assert!(!has_at_risk_customers(&customers[..1].to_vec()));
    let mut rng = GameRng::seeded(4);
    assert_eq!(get_random_customer(&Vec::new(), None, &mut rng), None);
    assert_eq!(get_random_customer(&customers, Some(CustomerSegment::Enterprise), &mut rng), Some(1));
    let mut seen = std::collections::HashSet::new();
    for _ in 0..100 {
        seen.insert(get_random_customer(&customers, Some(CustomerSegment::SMB), &mut rng).unwrap());
    }
    assert_eq!(seen.len(), 2);
    assert!(seen.contains(&0) && seen.contains(&2));
}

#[test]
fn new_customers_and_their_feedback() {
    let mut rng = GameRng::seeded(6);
    for _ in 0..100 {
        let c = generate_customer_persona(CustomerSegment::Enterprise, 3, &mut rng);
        assert!((70_000..=90_000).contains(&c.satisfaction));
        assert_eq!(c.lifecycle_stage, CustomerLifecycle::Onboarding);
        assert_eq!((c.join_week, c.mrr_contribution, c.is_champion), (3, 0, false));
        let c = generate_customer_persona(CustomerSegment::SelfServe, 3, &mut rng);
        assert!((60_000..=90_000).contains(&c.satisfaction));
    }
    assert_eq!(feedback_sentiment(81_000, 31_000, true), FeedbackSentiment::Positive);
    assert_eq!(feedback_sentiment(81_000, 31_000, false), FeedbackSentiment::Neutral);
    assert_eq!(feedback_sentiment(81_000, 30_000, false), FeedbackSentiment::Neutral);
    assert_eq!(feedback_sentiment(50_000, 0, true), FeedbackSentiment::Neutral);
    assert_eq!(feedback_sentiment(50_000, 0, false), FeedbackSentiment::Negative);
    assert_eq!(feedback_sentiment(40_000, 0, true), FeedbackSentiment::Negative);
    assert_eq!(feedback_sentiment(40_000, 0, false), FeedbackSentiment::Critical);
    let steady = customer(CustomerSegment::SMB, CustomerLifecycle::Active, 70_000);
    let unhappy = customer(CustomerSegment::SMB, CustomerLifecycle::Active, 10_000);
    let mut critical = 0;
    for _ in 0..500 {
        let feedback = generate_customer_feedback(&steady, 9, 0, &mut rng);
        assert_eq!((feedback.week, feedback.sentiment), (9, FeedbackSentiment::Neutral));
        let feedback = generate_customer_feedback(&unhappy, 9, 0, &mut rng);
        match feedback.sentiment {
            FeedbackSentiment::Critical => critical += 1,
            FeedbackSentiment::Negative => {}
            other => panic!("unexpected sentiment {:?}", other),
        }
    }
    assert!((150..=250).contains(&critical), "critical {}", critical);
}

#[test]
fn competitor_velocity_and_parity() {
    let mut c = rival(50_000, 10_000, 500);
    // 10 people and $1.5M: 1.0 + 150
    assert_eq!(competitor_velocity(&c), 151_000);
    assert_eq!(get_shipping_velocity_ratio(&c, 1_000), 151_000);
    assert_eq!(get_shipping_velocity_ratio(&c, 2_000), 75_500);
    assert_eq!(get_shipping_velocity_ratio(&c, 0), 1_510_000);
    // 50 + (151 - 1) * 5 is bounded to 100
    assert_eq!(calculate_feature_parity(&c, 1_000), 100_000);
    c.total_funding = 0;
    c.team_size = 5;
    // velocity 0.5 against 1.0: 50 + (0.5 - 1) * 5
    assert_eq!(calculate_feature_parity(&c, 1_000), 47_500);
    assert_eq!(get_shipping_velocity_ratio(&c, 10_000), 100);
    update_competitor_state(&mut c, 1_000);
    assert_eq!(c.feature_parity, 47_500);
    // 47.5 * 0.5 / 100 is below the floor of one
    assert_eq!(c.market_share, 1_000);
    c.aggressiveness = 5_000;
    update_competitor_state(&mut c, 1_000);
    // parity 45 now; 45 * 5 / 100
    assert_eq!(c.feature_parity, 45_000);
    assert_eq!(c.market_share, 2_250);
    assert_eq!(calculate_competitor_team_size(0), 1);
    assert_eq!(calculate_competitor_team_size(1_500_000_000), 10);
    assert_eq!(calculate_competitor_team_size(500_000_000_000), 500);
}

#[test]
fn threats_and_picks() {
    let mut competitors = vec![rival(50_000, 10_000, 500), rival(60_000, 10_000, 500), rival(60_000, 10_000, 500)];
    assert_eq!(get_most_threatening_competitor(&competitors), Some(2));
    competitors[2].is_acquired = true;
    assert_eq!(get_most_threatening_competitor(&competitors), Some(1));
    competitors[0].aggressiveness = 900;
    assert_eq!(get_most_threatening_competitor(&competitors), Some(0));
    let mut rng = GameRng::seeded(12);
    for _ in 0..50 {
        assert!(matches!(get_random_competitor(&competitors, &mut rng), Some(0) | Some(1)));
    }
    competitors[0].is_acquired = true;
    competitors[1].is_acquired = true;
    assert_eq!(get_random_competitor(&competitors, &mut rng), None);
    assert_eq!(get_most_threatening_competitor(&competitors), None);
    competitors[1].funding_stage = FundingStage::SeriesB;
    assert_eq!(get_competitors_by_funding(&competitors, FundingStage::Seed), vec![0, 2]);
    competitors[0].action_history.push(CompetitorAction {
        week: 5,
        action_type: CompetitorActionType::FundingRound,
        amount: None,
    });
    competitors[1].action_history.push(CompetitorAction {
        week: 9,
        action_type: CompetitorActionType::FeatureLaunch,
        amount: None,
    });
    assert_eq!(get_recently_funded_competitors(&competitors, 10, 5), vec![0]);
    assert!(get_recently_funded_competitors(&competitors, 10, 4).is_empty());
    assert!(get_recently_funded_competitors(&competitors, 4, 50).is_empty());
}

#[test]
fn market_shares() {
    let alone = calculate_market_share(&Vec::new(), 50_000, 30_000, 1_000);
    assert_eq!(alone.player, 100_000);
    assert!(alone.competitors.is_empty());
    let mut competitors = vec![rival(50_000, 10_000, 1_000), rival(50_000, 30_000, 1_000)];
    // strengths 500, 1,500 and the player's 50 * 30 * 1.0 = 1,500
    let shares = calculate_market_share(&competitors, 50_000, 30_000, 1_000);
    assert_eq!(shares.player, 42_857);
    assert_eq!(shares.competitors, vec![(0, 14_285), (1, 42_857)]);
    competitors[1].is_acquired = true;
    let shares = calculate_market_share(&competitors, 50_000, 30_000, 1_000);
    assert_eq!(shares.player, 75_000);
    assert_eq!(shares.competitors, vec![(0, 25_000)]);
    // a player without strength keeps five percent
    let shares = calculate_market_share(&competitors, 0, 0, 1_000);
    assert_eq!(shares.player, 5_000);
}

#[test]
fn newcomers_fit_the_difficulty() {
    let mut rng = GameRng::seeded(30);
    for _ in 0..50 {
        let indie = generate_competitors(&DifficultyMode::IndieBootstrap, 2, &mut rng);
        assert!((2..=3).contains(&indie.len()));
        for c in &indie {
            assert!(matches!(c.funding_stage, FundingStage::Bootstrapped | FundingStage::Seed));
            assert!((300..=600).contains(&c.aggressiveness));
            assert!((20_000..=60_000).contains(&c.feature_parity));
            assert_eq!(c.team_size, calculate_competitor_team_size(c.total_funding));
            assert_eq!((c.market_share, c.last_action_week, c.is_acquired), (0, 2, false));
            if c.funding_stage == FundingStage::Bootstrapped {
                assert_eq!(c.total_funding, 0);
            } else {
                assert!((500_000_000..=2_000_000_000).contains(&c.total_funding));
            }
        }
        let vc = generate_competitors(&DifficultyMode::VCTrack, 0, &mut rng);
        assert!((3..=4).contains(&vc.len()));
        let stage = determine_funding_stage(&DifficultyMode::RegulatedFintech, &mut rng);
        assert!(matches!(stage, FundingStage::SeriesA | FundingStage::SeriesB | FundingStage::SeriesC));
        let amount = funding_stage_to_amount(&FundingStage::PublicCompany, &mut rng);
        assert!((100_000_000_000..=500_000_000_000).contains(&amount));
        determine_pricing_strategy(&mut rng);
    }
    assert_eq!(pricing_strategy_for(0), PricingStrategy::Freemium);
    assert_eq!(pricing_strategy_for(39), PricingStrategy::Freemium);
    assert_eq!(pricing_strategy_for(40), PricingStrategy::Undercut);
    assert_eq!(pricing_strategy_for(60), PricingStrategy::Premium);
    assert_eq!(pricing_strategy_for(94), PricingStrategy::Enterprise);
    assert_eq!(pricing_strategy_for(95), PricingStrategy::OpenSource);
}

#[test]
fn a_draw_decides_what_a_competitor_does() {
    let c = rival(50_000, 10_000, 500);
    let idle = ActionDraw { chance: 150, acts: false, kind: 3, millions: 120 };
    assert_eq!(competitor_action_for(&c, 4, &idle), None);
    let buys = ActionDraw { chance: 150, acts: true, kind: 3, millions: 120 };
    assert_eq!(
        competitor_action_for(&c, 4, &buys),
        Some(CompetitorAction {
            week: 4,
            action_type: CompetitorActionType::Acquisition,
            amount: Some(120_000_000_000),
        })
    );
    let raises = ActionDraw { chance: 150, acts: true, kind: 2, millions: 120 };
    assert_eq!(
        competitor_action_for(&c, 4, &raises),
        Some(CompetitorAction {
            week: 4,
            action_type: CompetitorActionType::FundingRound,
            amount: Some(1_500_000_000),
        })
    );
    let kinds = [
        CompetitorActionType::FeatureLaunch,
        CompetitorActionType::PricingChange,
        CompetitorActionType::FundingRound,
        CompetitorActionType::Acquisition,
        CompetitorActionType::ProductPivot,
        CompetitorActionType::MarketingBlitz,
        CompetitorActionType::TalentPoach,
        CompetitorActionType::PartnershipAnnouncement,
    ];
    for (kind, expected) in kinds.iter().enumerate() {
        let draw = ActionDraw { chance: 150, acts: true, kind: kind as i64, millions: 50 };
        let action = competitor_action_for(&c, 9, &draw).unwrap();
        assert_eq!(action.action_type, *expected);
        assert_eq!(action.week, 9);
        if kind != 2 && kind != 3 {
            assert_eq!(action.amount, None);
        }
    }
    // a chance of one or more always acts
    let mut eager = rival(50_000, 10_000, 3_400);
    let mut rng = GameRng::seeded(2);
    for _ in 0..50 {
        assert!(generate_competitor_action(&eager, 1, &mut rng).is_some());
    }
    eager.aggressiveness = -10;
    assert_eq!(generate_competitor_action(&eager, 1, &mut rng), None);
}

#[test]
fn competitors_act_by_their_aggressiveness() {
    let mut rng = GameRng::seeded(31);
    let mut timid = rival(50_000, 10_000, 0);
    for _ in 0..50 {
        assert_eq!(generate_competitor_action(&timid, 1, &mut rng), None);
    }
    timid.aggressiveness = 5_000;
    let mut kinds = std::collections::HashSet::new();
    for _ in 0..300 {
        let action = generate_competitor_action(&timid, 7, &mut rng).unwrap();
        assert_eq!(action.week, 7);
        match action.action_type {
            CompetitorActionType::FundingRound => assert_eq!(action.amount, Some(1_500_000_000)),
            CompetitorActionType::Acquisition => {
                let amount = action.amount.unwrap();
                assert!((50_000_000_000..=200_000_000_000).contains(&amount));
                assert_eq!(amount % 1_000_000_000, 0);
            }
            _ => assert_eq!(action.amount, None),
        }
        kinds.insert(format!("{:?}", action.action_type));
    }
    assert_eq!(kinds.len(), 8);
}
