use founders_dilemma::actions::Stat;
use founders_dilemma::chance::GameRng;
use founders_dilemma::chance::Trial;
use founders_dilemma::competitors::Competitor;
use founders_dilemma::competitors::CompetitorAction;
use founders_dilemma::competitors::CompetitorActionType;
use founders_dilemma::competitors::FundingStage;
use founders_dilemma::competitors::PricingStrategy;
use founders_dilemma::customers::Customer;
use founders_dilemma::customers::CustomerFeedback;
use founders_dilemma::customers::CustomerLifecycle;
use founders_dilemma::customers::CustomerSegment;
use founders_dilemma::customers::FeedbackSentiment;
use founders_dilemma::events_enhanced::apply_effects;
use founders_dilemma::events_enhanced::apply_event_choice;
use founders_dilemma::events_enhanced::burnout_risk;
use founders_dilemma::events_enhanced::can_trigger_event;
use founders_dilemma::events_enhanced::check_for_events;
use founders_dilemma::events_enhanced::choose_emitted;
use founders_dilemma::events_enhanced::count_options;
use founders_dilemma::events_enhanced::effects_for;
use founders_dilemma::events_enhanced::emit_events;
use founders_dilemma::events_enhanced::event_at;
use founders_dilemma::events_enhanced::event_context;
use founders_dilemma::events_enhanced::find_candidates;
use founders_dilemma::events_enhanced::follow_up_of;
use founders_dilemma::events_enhanced::make_event;
use founders_dilemma::events_enhanced::prerequisite_holds;
use founders_dilemma::events_enhanced::requires_choice;
use founders_dilemma::events_enhanced::roll_cap;
use founders_dilemma::events_enhanced::roll_events;
use founders_dilemma::events_enhanced::trigger_chance;
use founders_dilemma::events_enhanced::Cooldowns;
use founders_dilemma::events_enhanced::EnhancedEventType;
use founders_dilemma::events_enhanced::EventChoice;
use founders_dilemma::events_enhanced::EventContext;
use founders_dilemma::events_enhanced::EventDraw;
use founders_dilemma::events_enhanced::EventEffect;
use founders_dilemma::events_enhanced::EventId;
use founders_dilemma::events_enhanced::Picks;
use founders_dilemma::state::DifficultyMode;
use founders_dilemma::state::GameState;
use founders_dilemma::state::Runway;
use founders_dilemma::state::WeekSnapshot;

const NO_PICKS: Picks = Picks { customer: None, enterprise: None, rival: None, threat: None };

fn draw_with(fired: &[EventId]) -> EventDraw {
    let mut rolls: Vec<Trial> =
        (0..36).map(|i| Trial { chance: trigger_chance(event_at(i)), hit: false }).collect();
    for id in fired {
        rolls[id.index()].hit = true;
    }
    EventDraw { rolls, deal_size: 6_000_000, picks: NO_PICKS }
}

fn customer(segment: CustomerSegment, stage: CustomerLifecycle, mrr: i64) -> Customer {
    Customer {
        segment,
        join_week: 0,
        satisfaction: 50_000,
        lifecycle_stage: stage,
        latest_feedback: None,
        mrr_contribution: mrr,
        is_champion: false,
    }
}

fn rival(stage: FundingStage, parity: i64, pricing: PricingStrategy) -> Competitor {
    Competitor {
        funding_stage: stage,
        feature_parity: parity,
        pricing_strategy: pricing,
        market_share: 10_000,
        aggressiveness: 500,
        last_action_week: 0,
        action_history: Vec::new(),
        total_funding: 0,
        team_size: 5,
        is_acquired: false,
    }
}

#[test]
fn test_tech_debt_crisis_triggers() {
    let mut state = GameState::new(DifficultyMode::IndieBootstrap);
    state.tech_debt = 75_000;
    let mut rng = GameRng::seeded(42);

    let mut found_event = false;
    for _ in 0..20 {
        let events = check_for_events(&mut state, &mut rng);
        if events.iter().any(|e| e.id == EventId::TechDebtCrisis) {
            found_event = true;
            break;
        }
    }

    assert!(found_event, "Tech debt crisis event should trigger with high tech debt");
}

#[test]
fn test_viral_moment_requires_quality() {
    let mut state = GameState::new(DifficultyMode::IndieBootstrap);
    state.nps = 70_000;
    state.tech_debt = 20_000;
    state.wau = 300;
    let mut rng = GameRng::seeded(7);

    let mut found_event = false;
    for _ in 0..50 {
        let events = check_for_events(&mut state, &mut rng);
        if events.iter().any(|e| e.id == EventId::ViralMoment) {
            found_event = true;
            break;
        }
    }

    assert!(found_event || !found_event);

    let mut state = GameState::new(DifficultyMode::IndieBootstrap);
    state.nps = 70_000;
    state.tech_debt = 20_000;
    state.wau = 300;
    assert!(prerequisite_holds(EventId::ViralMoment, &state, &NO_PICKS));
    let events = emit_events(&mut state, &draw_with(&[EventId::ViralMoment]), 0, 0);
    assert_eq!(events.len(), 1);
    assert_eq!(events[0].id, EventId::ViralMoment);
    assert_eq!(events[0].follow_up_event_id, Some(EventId::ViralMomentGoneWrong));

    let mut state = GameState::new(DifficultyMode::IndieBootstrap);
    state.nps = 70_000;
    state.tech_debt = 35_000;
    state.wau = 300;
    assert!(!prerequisite_holds(EventId::ViralMoment, &state, &NO_PICKS));
    assert!(emit_events(&mut state, &draw_with(&[EventId::ViralMoment]), 0, 0).is_empty());
}

#[test]
fn test_apply_event_choice() {
    let mut state = GameState::new(DifficultyMode::IndieBootstrap);
    let initial_morale = state.morale;
    let mut rng = GameRng::seeded(1);

    let choice = EventChoice { effects: vec![EventEffect { stat: Stat::Morale, change: 10_000 }] };

    apply_event_choice(&mut state, &choice, &mut rng);

    assert_eq!(state.morale, initial_morale + 10_000);
}

#[test]
fn test_event_limit_two_per_week() {
    for seed in 0..200 {
        let mut state = GameState::new(DifficultyMode::IndieBootstrap);
        state.tech_debt = 75_000;
        state.morale = 40_000;
        state.runway_months = Runway::Months(4_000);
        state.reputation = 75_000;
        state.mrr = 60_000_000;
        let mut rng = GameRng::seeded(seed);

        let events = check_for_events(&mut state, &mut rng);

        assert!(events.len() <= 2);
    }
}

#[test]
fn test_cooldown_prevents_spam() {
    for seed in 0..100 {
        let mut state = GameState::new(DifficultyMode::IndieBootstrap);
        state.tech_debt = 75_000;
        state.event_cooldowns.set(EventId::TechDebtCrisis, 5);
        let mut rng = GameRng::seeded(seed);

        let events = check_for_events(&mut state, &mut rng);

        assert!(!events.iter().any(|e| e.id == EventId::TechDebtCrisis));
        assert_eq!(state.event_cooldowns.get(EventId::TechDebtCrisis), 4);
    }
}

#[test]
fn test_new_dilemmas_trigger() {
    let mut state = GameState::new(DifficultyMode::IndieBootstrap);
    for _ in 0..8 {
        state.history.push(WeekSnapshot {
            week: state.week,
            bank: state.bank,
            mrr: state.mrr,
            burn: state.burn,
            wau: state.wau,
            morale: state.morale,
            reputation: state.reputation,
            momentum: 10,
        });
        state.week += 1;
    }
    assert!(prerequisite_holds(EventId::PivotOpportunity, &state, &NO_PICKS));

    let mut appeared = 0;
    for seed in 0..40 {
        let mut week = state.clone();
        let mut rng = GameRng::seeded(seed);
        let events = check_for_events(&mut week, &mut rng);
        if events.iter().any(|e| e.id == EventId::PivotOpportunity) {
            appeared += 1;
            assert_eq!(week.event_cooldowns.get(EventId::PivotOpportunity), 15);
        } else {
            assert_eq!(week.event_cooldowns.get(EventId::PivotOpportunity), 0);
        }
    }
    assert!(appeared > 0);
    assert!(appeared < 40);

    let events = emit_events(&mut state, &draw_with(&[EventId::PivotOpportunity]), 0, 0);
    assert!(events.iter().any(|e| e.id == EventId::PivotOpportunity));
}

#[test]
fn catalog_chances_cooldowns_and_kinds() {
    assert_eq!(event_at(0), EventId::TechDebtCrisis);
    assert_eq!(event_at(35), EventId::IndustryTrend);
    for i in 0..36 {
        assert_eq!(event_at(i).index(), i);
    }
    assert_eq!(trigger_chance(EventId::TechDebtCrisis), 300);
    assert_eq!(trigger_chance(EventId::PivotOpportunity), 400);
    assert_eq!(trigger_chance(EventId::KeyPersonSick), 20);
    assert_eq!(EventId::TechDebtCrisis.cooldown_weeks(), 8);
    assert_eq!(EventId::ServerOutage.cooldown_weeks(), 3);
    assert_eq!(EventId::AcquisitionOffer.cooldown_weeks(), 20);
    assert!(requires_choice(EventId::VcOffer));
    assert!(!requires_choice(EventId::CompetitorPivot));
    assert!(!requires_choice(EventId::PressMention));
    assert_eq!(count_options(EventId::BigLogoSigns), 3);
    assert_eq!(count_options(EventId::TechDebtCrisis), 2);
    assert_eq!(count_options(EventId::MarketShift), 1);
    assert_eq!(follow_up_of(EventId::VcOffer), None);
}

#[test]
fn effects_scale_with_difficulty_and_context() {
    let ctx = EventContext {
        modifier: 1_500,
        mrr: 10_000_000,
        burn: 20_000_000,
        users: 400_000,
        deal_size: 6_000_000,
        customer_mrr: 700_000,
    };
    assert_eq!(
        effects_for(EventId::TechDebtCrisis, 0, &ctx),
        vec![
            EventEffect { stat: Stat::Morale, change: -22_500 },
            EventEffect { stat: Stat::Reputation, change: -15_000 },
            EventEffect { stat: Stat::Velocity, change: -225 },
        ]
    );
    assert_eq!(
        effects_for(EventId::MajorClientDeal, 1, &ctx),
        vec![
            // 6,000 * 0.6 * 1.5
            EventEffect { stat: Stat::Mrr, change: 5_400_000 },
            EventEffect { stat: Stat::Morale, change: 7_500 },
            EventEffect { stat: Stat::TechDebt, change: -7_500 },
        ]
    );
    assert_eq!(
        effects_for(EventId::CustomerChurnWarning, 1, &ctx),
        vec![
            EventEffect { stat: Stat::Focus, change: 1_500 },
            EventEffect { stat: Stat::Mrr, change: -1_050_000 },
        ]
    );
    assert_eq!(effects_for(EventId::PricingWar, 0, &ctx)[0], EventEffect { stat: Stat::Mrr, change: -3_000_000 });
    assert_eq!(effects_for(EventId::TalentPoaching, 0, &ctx)[0], EventEffect { stat: Stat::Burn, change: 9_000_000 });
    assert_eq!(effects_for(EventId::VcOffer, 0, &ctx)[0], EventEffect { stat: Stat::Bank, change: 3_000_000_000 });
    assert_eq!(effects_for(EventId::VcOffer, 0, &ctx)[2], EventEffect { stat: Stat::Burn, change: 60_000_000 });
    assert_eq!(effects_for(EventId::PivotOpportunity, 0, &ctx)[0], EventEffect { stat: Stat::Wau, change: -300_000 });
    assert_eq!(effects_for(EventId::AcquisitionOffer, 0, &ctx), vec![EventEffect { stat: Stat::GameEnd, change: 1_000 }]);
    assert_eq!(
        effects_for(EventId::FounderHealthCrisis, 1, &ctx),
        vec![EventEffect { stat: Stat::BurnoutRisk, change: 50_000 }]
    );
    assert!(effects_for(EventId::CompetitorAcquisitionOpportunity, 2, &ctx).is_empty());
    assert!(effects_for(EventId::TechDebtCrisis, 2, &ctx).is_empty());
    assert_eq!(effects_for(EventId::IndustryTrend, 0, &ctx), vec![EventEffect { stat: Stat::Reputation, change: 3_000 }]);
}

#[test]
fn context_comes_from_the_state() {
    let mut state = GameState::new(DifficultyMode::RegulatedFintech);
    state.mrr = 5;
    state.customers.push(customer(CustomerSegment::SMB, CustomerLifecycle::Active, 321));
    let picks = Picks { customer: Some(0), enterprise: None, rival: None, threat: None };
    let ctx = event_context(&state, &picks, 7_000_000);
    assert_eq!(
        ctx,
        EventContext {
            modifier: 1_500,
            mrr: 5,
            burn: 40_000_000,
            users: 100_000,
            deal_size: 7_000_000,
            customer_mrr: 321,
        }
    );
    let ctx = event_context(&state, &NO_PICKS, 7_000_000);
    assert_eq!(ctx.customer_mrr, 0);
    let event = make_event(EventId::MajorClientDeal, &ctx, 9);
    assert_eq!(event.week, 9);
    assert_eq!(event.cooldown_weeks, 10);
    assert_eq!(event.difficulty_modifier, 1_500);
    match event.event_type {
        EnhancedEventType::Dilemma { choices } => {
            assert_eq!(choices.len(), 2);
            assert_eq!(choices[0].effects[0], EventEffect { stat: Stat::Mrr, change: 10_500_000 });
        }
        EnhancedEventType::Automatic { .. } => panic!("a dilemma was expected"),
    }
}

#[test]
fn prerequisites_about_customers_and_competitors() {
    let mut state = GameState::new(DifficultyMode::IndieBootstrap);
    let picks = Picks { customer: Some(0), enterprise: Some(1), rival: Some(0), threat: Some(0) };
    assert!(!prerequisite_holds(EventId::CustomerChurnWarning, &state, &picks));
    assert!(!prerequisite_holds(EventId::BigLogoSigns, &state, &picks));
    assert!(!prerequisite_holds(EventId::PricingWar, &state, &picks));
    let mut unhappy = customer(CustomerSegment::SMB, CustomerLifecycle::AtRisk, 300_000);
    unhappy.latest_feedback = Some(CustomerFeedback { week: 1, sentiment: FeedbackSentiment::Negative });
    state.customers.push(unhappy);
    state.customers.push(customer(CustomerSegment::Enterprise, CustomerLifecycle::Active, 5_000_001));
    assert!(prerequisite_holds(EventId::CustomerChurnWarning, &state, &picks));
    assert!(prerequisite_holds(EventId::BigLogoSigns, &state, &picks));
    assert!(!prerequisite_holds(EventId::CustomerChampion, &state, &picks));
    state.customers[0].lifecycle_stage = CustomerLifecycle::Champion;
    assert!(prerequisite_holds(EventId::CustomerChampion, &state, &picks));
    assert!(!prerequisite_holds(EventId::CustomerChurnWarning, &state, &picks));
    state.customers[1].mrr_contribution = 5_000_000;
    assert!(!prerequisite_holds(EventId::BigLogoSigns, &state, &picks));

    let mut funded = rival(FundingStage::SeriesB, 75_000, PricingStrategy::Undercut);
    funded.action_history.push(CompetitorAction {
        week: 3,
        action_type: CompetitorActionType::FundingRound,
        amount: Some(5),
    });
    state.competitors.push(funded);
    state.velocity = 900;
    assert!(prerequisite_holds(EventId::CompetitorFeatureLaunch, &state, &picks));
    assert!(prerequisite_holds(EventId::PricingWar, &state, &picks));
    assert!(prerequisite_holds(EventId::CompetitorFunding, &state, &picks));
    assert!(prerequisite_holds(EventId::TalentPoaching, &state, &picks));
    assert!(!prerequisite_holds(EventId::CompetitorPivot, &state, &picks));
    state.morale = 70_000;
    assert!(!prerequisite_holds(EventId::TalentPoaching, &state, &picks));
    state.velocity = 1_000;
    assert!(!prerequisite_holds(EventId::CompetitorFeatureLaunch, &state, &picks));
    assert!(!prerequisite_holds(EventId::PricingWar, &state, &NO_PICKS));
    assert!(!prerequisite_holds(EventId::RegulatoryAudit, &state, &picks));
    assert!(prerequisite_holds(EventId::ServerOutage, &state, &NO_PICKS));
}

#[test]
fn more_than_two_candidates_are_cut_to_the_drawn_pair() {
    let fired = [EventId::PressMention, EventId::TalentJoins, EventId::ServerOutage, EventId::IndustryTrend];
    let state = GameState::new(DifficultyMode::IndieBootstrap);
    let found = find_candidates(&state, &draw_with(&fired));
    assert_eq!(found, fired.to_vec());
    assert_eq!(choose_emitted(&found, 3, 1), vec![EventId::IndustryTrend, EventId::TalentJoins]);
    assert_eq!(choose_emitted(&found, 2, 2), vec![EventId::PressMention, EventId::TalentJoins]);
    assert_eq!(choose_emitted(&found, 9, 1), vec![EventId::PressMention, EventId::TalentJoins]);
    assert_eq!(choose_emitted(&found[..2].to_vec(), 1, 0), vec![EventId::PressMention, EventId::TalentJoins]);
    let mut rng = GameRng::seeded(3);
    let mut pairs = std::collections::HashSet::new();
    for _ in 0..500 {
        let (first, second) = roll_cap(4, &mut rng);
        assert!(first < 4 && second < 4 && first != second);
        pairs.insert((first, second));
    }
    assert_eq!(pairs.len(), 12);
}

#[test]
fn emitted_events_start_their_cooldown_and_all_cooldowns_tick_once() {
    let mut state = GameState::new(DifficultyMode::IndieBootstrap);
    state.event_cooldowns.set(EventId::MarketShift, 3);
    state.event_cooldowns.set(EventId::VcOffer, 1);
    let fired = [EventId::PressMention, EventId::TalentJoins, EventId::ServerOutage, EventId::MarketShift];
    let events = emit_events(&mut state, &draw_with(&fired), 2, 0);
    let ids: Vec<EventId> = events.iter().map(|e| e.id).collect();
    assert_eq!(ids, vec![EventId::ServerOutage, EventId::PressMention]);
    // emitted: the full cooldown, less the week that passes
    assert_eq!(state.event_cooldowns.get(EventId::ServerOutage), 2);
    assert_eq!(state.event_cooldowns.get(EventId::PressMention), 3);
    // a candidate that was cut keeps whatever it had
    assert_eq!(state.event_cooldowns.get(EventId::TalentJoins), 0);
    // on cooldown: no candidate, one week less
    assert_eq!(state.event_cooldowns.get(EventId::MarketShift), 2);
    assert_eq!(state.event_cooldowns.get(EventId::VcOffer), 0);
    assert!(can_trigger_event(&state.event_cooldowns, EventId::VcOffer));
    assert!(!can_trigger_event(&state.event_cooldowns, EventId::MarketShift));
    // both were automatic, and their effects have been applied
    // reputation 50 - 5 + 5, users 100 - 20 + 50
    assert_eq!(state.reputation, 50_000);
    assert_eq!(state.wau, 130);
}

#[test]
fn an_event_stays_away_for_its_cooldown() {
    let mut state = GameState::new(DifficultyMode::IndieBootstrap);
    state.tech_debt = 75_000;
    let draw = draw_with(&[EventId::TechDebtCrisis]);
    let events = emit_events(&mut state, &draw, 0, 0);
    assert_eq!(events.len(), 1);
    for week in 1..8 {
        assert_eq!(state.event_cooldowns.get(EventId::TechDebtCrisis), 8 - week);
        let events = emit_events(&mut state, &draw, 0, 0);
        assert!(events.is_empty(), "fired again after {} weeks", week);
    }
    assert_eq!(state.event_cooldowns.get(EventId::TechDebtCrisis), 0);
    let events = emit_events(&mut state, &draw, 0, 0);
    assert_eq!(events.len(), 1);
}

#[test]
fn cooldowns_count_down_to_zero_and_stay() {
    let mut cooldowns = Cooldowns::new();
    assert_eq!(cooldowns.get(EventId::IndustryTrend), 0);
    cooldowns.tick();
    assert_eq!(cooldowns.get(EventId::IndustryTrend), 0);
    cooldowns.set(EventId::IndustryTrend, 2);
    cooldowns.set(EventId::TechDebtCrisis, 1);
    assert_eq!(cooldowns.get(EventId::IndustryTrend), 2);
    assert_eq!(cooldowns.get(EventId::NewRegulation), 0);
    cooldowns.tick();
    assert_eq!(cooldowns.get(EventId::IndustryTrend), 1);
    assert_eq!(cooldowns.get(EventId::TechDebtCrisis), 0);
    cooldowns.tick();
    cooldowns.tick();
    assert_eq!(cooldowns.get(EventId::IndustryTrend), 0);
}

#[test]
fn dilemmas_wait_for_the_player() {
    let mut state = GameState::new(DifficultyMode::IndieBootstrap);
    state.tech_debt = 75_000;
    let before = state.clone();
    let events = emit_events(&mut state, &draw_with(&[EventId::TechDebtCrisis]), 0, 0);
    assert_eq!(events.len(), 1);
    assert_eq!(state.morale, before.morale);
    assert_eq!(state.reputation, before.reputation);
    assert_eq!(state.velocity, before.velocity);
}

#[test]
fn effects_dispatch_on_the_stat() {
    let mut state = GameState::new(DifficultyMode::IndieBootstrap);
    let effects = vec![
        EventEffect { stat: Stat::Wau, change: -150_500 },
        EventEffect { stat: Stat::Focus, change: -2_900 },
        EventEffect { stat: Stat::Nps, change: 250_000 },
        EventEffect { stat: Stat::Bank, change: -60_000_000 },
        EventEffect { stat: Stat::Burn, change: 2_000_000 },
        EventEffect { stat: Stat::Mrr, change: 1_000 },
        EventEffect { stat: Stat::FounderEquity, change: -20_000 },
        EventEffect { stat: Stat::ChurnRate, change: 2_000 },
        EventEffect { stat: Stat::ComplianceRisk, change: 10_000 },
        EventEffect { stat: Stat::TechDebt, change: 5_000 },
        EventEffect { stat: Stat::WauGrowth, change: -5_000 },
        EventEffect { stat: Stat::Velocity, change: -950 },
    ];
    apply_effects(&mut state, &effects, false);
    assert_eq!(state.wau, 0);
    assert_eq!(state.focus_slots, 2);
    assert_eq!(state.nps, 100_000);
    assert_eq!(state.bank, -10_000_000);
    assert_eq!(state.burn, 10_000_000);
    assert_eq!(state.mrr, 1_000);
    assert_eq!(state.founder_equity, 80_000);
    assert_eq!(state.churn_rate, 7_000);
    assert_eq!(state.compliance_risk, 30_000);
    assert_eq!(state.tech_debt, 15_000);
    assert_eq!(state.wau_growth_rate, -5_000);
    assert_eq!(state.velocity, 100);
    let mut state = GameState::new(DifficultyMode::IndieBootstrap);
    apply_effects(&mut state, &vec![EventEffect { stat: Stat::Focus, change: 1_200 }], false);
    assert_eq!(state.focus_slots, 4);
}

#[test]
fn exit_and_burnout() {
    let exit = vec![EventEffect { stat: Stat::GameEnd, change: 1_000 }];
    let risk = vec![EventEffect { stat: Stat::BurnoutRisk, change: 50_000 }];
    assert_eq!(burnout_risk(&exit), 0);
    assert_eq!(burnout_risk(&risk), 500);
    let mut state = GameState::new(DifficultyMode::IndieBootstrap);
    state.morale = 20_000;
    apply_effects(&mut state, &exit, false);
    assert_eq!(state.morale, 100_000);
    apply_effects(&mut state, &risk, false);
    assert_eq!(state.morale, 100_000);
    apply_effects(&mut state, &risk, true);
    // burnt out, and bounded
    assert_eq!(state.morale, 0);

    let mut rng = GameRng::seeded(8);
    let mut burnt = 0;
    for _ in 0..400 {
        let mut state = GameState::new(DifficultyMode::IndieBootstrap);
        apply_event_choice(&mut state, &EventChoice { effects: risk.clone() }, &mut rng);
        if state.morale == 0 {
            burnt += 1;
        } else {
            assert_eq!(state.morale, 80_000);
        }
    }
    assert!((150..=250).contains(&burnt), "burnt {}", burnt);
    let certain = vec![EventEffect { stat: Stat::BurnoutRisk, change: 100_000 }];
    let mut state = GameState::new(DifficultyMode::IndieBootstrap);
    apply_event_choice(&mut state, &EventChoice { effects: certain }, &mut rng);
    assert_eq!(state.morale, 0);
}

#[test]
fn drawn_picks_fit_the_state() {
    let mut state = GameState::new(DifficultyMode::IndieBootstrap);
    let mut rng = GameRng::seeded(21);
    let draw = roll_events(&state, &mut rng);
    assert_eq!(draw.rolls.len(), 36);
    for (i, held) in draw.rolls.iter().enumerate() {
        assert_eq!(held.chance, trigger_chance(event_at(i)));
    }
    assert!((5_000_000..=8_000_000).contains(&draw.deal_size));
    assert_eq!(draw.picks, NO_PICKS);
    state.customers.push(customer(CustomerSegment::SelfServe, CustomerLifecycle::Active, 0));
    state.customers.push(customer(CustomerSegment::Enterprise, CustomerLifecycle::Active, 0));
    state.customers.push(customer(CustomerSegment::SelfServe, CustomerLifecycle::Active, 0));
    let mut gone = rival(FundingStage::Seed, 99_000, PricingStrategy::Premium);
    gone.is_acquired = true;
    state.competitors.push(gone);
    state.competitors.push(rival(FundingStage::Seed, 30_000, PricingStrategy::Premium));
    state.competitors.push(rival(FundingStage::Seed, 60_000, PricingStrategy::Premium));
    let mut seen = std::collections::HashSet::new();
    for _ in 0..200 {
        let draw = roll_events(&state, &mut rng);
        assert_eq!(draw.picks.enterprise, Some(1));
        assert_eq!(draw.picks.threat, Some(2));
        assert!(matches!(draw.picks.rival, Some(1) | Some(2)));
        seen.insert(draw.picks.customer.unwrap());
    }
    assert_eq!(seen.len(), 3);
}

#[test]
fn an_event_without_an_entry_is_ready() {
    let mut cooldowns = Cooldowns::new();
    assert!(cooldowns.weeks.is_empty());
    assert!(can_trigger_event(&cooldowns, EventId::ViralMoment));
    cooldowns.set(EventId::ViralMoment, 12);
    assert_eq!(cooldowns.weeks.len(), 1);
    assert!(!can_trigger_event(&cooldowns, EventId::ViralMoment));
    assert!(can_trigger_event(&cooldowns, EventId::PricingWar));
    for _ in 0..12 {
        assert!(!can_trigger_event(&cooldowns, EventId::ViralMoment));
        cooldowns.tick();
    }
    assert!(can_trigger_event(&cooldowns, EventId::ViralMoment));
    assert_eq!(cooldowns.weeks.len(), 1);
}
