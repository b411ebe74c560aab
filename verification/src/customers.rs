//! Customer records, reduced to what the simulation reads: segment, revenue,
//! satisfaction and lifecycle stage. Names and stories live with the caller.
use crate::chance::GameRng;
use crate::chance::Trial;
use crate::fixed::bounded;
use crate::fixed::HUNDRED;
use vstd::prelude::*;

verus! {

#[derive(Debug, Clone, Copy, PartialEq, Eq, Structural)]
pub enum CustomerSegment {
    Enterprise,
    SMB,
    SelfServe,
}

#[derive(Debug, Clone, Copy, PartialEq, Eq, Structural)]
pub enum CustomerLifecycle {
    Onboarding,
    Active,
    Champion,
    AtRisk,
    Churned,
}

#[derive(Debug, Clone, Copy, PartialEq, Eq, Structural)]
pub enum FeedbackSentiment {
    Positive,
    Neutral,
    Negative,
    Critical,
}

/// One piece of feedback, without its wording.
#[derive(Debug, Clone, Copy, PartialEq, Eq, Structural)]
pub struct CustomerFeedback {
    pub week: u32,
    pub sentiment: FeedbackSentiment,
}

/// A customer. `satisfaction` is in `[0, 100]` and `mrr_contribution` in
/// dollars, both in thousandths.
#[derive(Debug, Clone, Copy, PartialEq, Eq, Structural)]
pub struct Customer {
    pub segment: CustomerSegment,
    pub join_week: u32,
    pub satisfaction: i64,
    pub lifecycle_stage: CustomerLifecycle,
    pub latest_feedback: Option<CustomerFeedback>,
    pub mrr_contribution: i64,
    pub is_champion: bool,
}

/// Segment of a customer who pays `mrr` a month.
pub open spec fn segment_of(mrr: i64) -> CustomerSegment {
    if mrr > 2_000_000 {
        CustomerSegment::Enterprise
    } else if mrr > 200_000 {
        CustomerSegment::SMB
    } else {
        CustomerSegment::SelfServe
    }
}

/// Segment by monthly revenue: above $2,000 enterprise, above $200 small
/// business, self-serve otherwise.
pub fn calculate_segment_from_mrr(mrr: i64) -> (segment: CustomerSegment)
    ensures
        segment == segment_of(mrr),
{
    if mrr > 2_000_000 {
        CustomerSegment::Enterprise
    } else if mrr > 200_000 {
        CustomerSegment::SMB
    } else {
        CustomerSegment::SelfServe
    }
}

/// A customer who has just signed: onboarding, no feedback yet.
pub open spec fn signed_customer(
    segment: CustomerSegment,
    week: u32,
    satisfaction: i64,
    mrr: i64,
) -> Customer {
    Customer {
        segment,
        join_week: week,
        satisfaction,
        lifecycle_stage: CustomerLifecycle::Onboarding,
        latest_feedback: None,
        mrr_contribution: mrr,
        is_champion: false,
    }
}

/// The stage that follows `stage` at a given satisfaction.
pub open spec fn next_stage(stage: CustomerLifecycle, satisfaction: i64) -> CustomerLifecycle {
    match stage {
        CustomerLifecycle::Onboarding => if satisfaction > 50_000 {
            CustomerLifecycle::Active
        } else {
            stage
        },
        CustomerLifecycle::Active => if satisfaction > 80_000 {
            CustomerLifecycle::Champion
        } else if satisfaction < 40_000 {
            CustomerLifecycle::AtRisk
        } else {
            stage
        },
        CustomerLifecycle::Champion => if satisfaction < 60_000 {
            CustomerLifecycle::Active
        } else {
            stage
        },
        CustomerLifecycle::AtRisk => if satisfaction > 60_000 {
            CustomerLifecycle::Active
        } else if satisfaction < 30_000 {
            CustomerLifecycle::Churned
        } else {
            stage
        },
        CustomerLifecycle::Churned => stage,
    }
}

/// Champion flag after a move from `stage` to `next_stage(stage, ..)`.
pub open spec fn champion_after(c: Customer) -> bool {
    match c.lifecycle_stage {
        CustomerLifecycle::Active => if c.satisfaction > 80_000 {
            true
        } else {
            c.is_champion
        },
        CustomerLifecycle::Champion => if c.satisfaction < 60_000 {
            false
        } else {
            c.is_champion
        },
        _ => c.is_champion,
    }
}

/// Moves a customer along the lifecycle: onboarding becomes active above 50,
/// active becomes champion above 80 and at-risk below 40, a champion falls
/// back to active below 60, an at-risk customer recovers above 60 and churns
/// below 30, and a churned customer stays churned.
pub fn update_customer_lifecycle(customer: &mut Customer)
    ensures
        *final(customer) == (Customer {
            lifecycle_stage: next_stage(old(customer).lifecycle_stage, old(customer).satisfaction),
            is_champion: champion_after(*old(customer)),
            ..*old(customer)
        }),
{
    match customer.lifecycle_stage {
        CustomerLifecycle::Onboarding => {
            if customer.satisfaction > 50_000 {
                customer.lifecycle_stage = CustomerLifecycle::Active;
            }
        },
        CustomerLifecycle::Active => {
            if customer.satisfaction > 80_000 {
                customer.lifecycle_stage = CustomerLifecycle::Champion;
                customer.is_champion = true;
            } else if customer.satisfaction < 40_000 {
                customer.lifecycle_stage = CustomerLifecycle::AtRisk;
            }
        },
        CustomerLifecycle::Champion => {
            if customer.satisfaction < 60_000 {
                customer.lifecycle_stage = CustomerLifecycle::Active;
                customer.is_champion = false;
            }
        },
        CustomerLifecycle::AtRisk => {
            if customer.satisfaction > 60_000 {
                customer.lifecycle_stage = CustomerLifecycle::Active;
            } else if customer.satisfaction < 30_000 {
                customer.lifecycle_stage = CustomerLifecycle::Churned;
            }
        },
        CustomerLifecycle::Churned => {},
    }
}

/// Whether an at-risk customer is about to leave (satisfaction below 30).
pub fn check_churn_risk(customer: &Customer) -> (at_risk: bool)
    ensures
        at_risk == (customer.lifecycle_stage == CustomerLifecycle::AtRisk && customer.satisfaction
            < 30_000),
{
    match customer.lifecycle_stage {
        CustomerLifecycle::AtRisk => customer.satisfaction < 30_000,
        _ => false,
    }
}

/// Makes a customer a champion when satisfaction is above 85.
pub fn promote_to_champion(customer: &mut Customer)
    ensures
        old(customer).satisfaction > 85_000 ==> *final(customer) == (Customer {
            lifecycle_stage: CustomerLifecycle::Champion,
            is_champion: true,
            ..*old(customer)
        }),
        old(customer).satisfaction <= 85_000 ==> *final(customer) == *old(customer),
{
    if customer.satisfaction > 85_000 {
        customer.lifecycle_stage = CustomerLifecycle::Champion;
        customer.is_champion = true;
    }
}

/// Drift of satisfaction that the company's condition causes in a week.
pub open spec fn satisfaction_drift(nps: i64, tech_debt: i64, velocity: i64) -> int {
    (if nps > 40_000 {
        3_000int
    } else if nps < 20_000 {
        -3_000int
    } else {
        0int
    }) + (if tech_debt > 70_000 {
        -2_000int
    } else {
        0int
    }) + (if velocity > 1_200 {
        2_000int
    } else if velocity < 800 {
        -2_000int
    } else {
        0int
    })
}

/// Moves satisfaction by `jitter` plus the drift caused by NPS (+3 above 40,
/// -3 below 20), tech debt (-2 above 70) and velocity (+2 above 1.2, -2
/// below 0.8), and keeps it within `[0, 100]`.
pub fn update_customer_satisfaction(
    customer: &mut Customer,
    jitter: i64,
    nps: i64,
    tech_debt: i64,
    velocity: i64,
)
    ensures
        *final(customer) == (Customer {
            satisfaction: bounded(
                old(customer).satisfaction + jitter + satisfaction_drift(nps, tech_debt, velocity),
                0,
                HUNDRED,
            ),
            ..*old(customer)
        }),
{
    let mut change: i128 = jitter as i128;
    if nps > 40_000 {
        change = change + 3_000;
    } else if nps < 20_000 {
        change = change - 3_000;
    }
    if tech_debt > 70_000 {
        change = change - 2_000;
    }
    if velocity > 1_200 {
        change = change + 2_000;
    } else if velocity < 800 {
        change = change - 2_000;
    }
    customer.satisfaction = crate::fixed::bound(
        customer.satisfaction as i128 + change,
        0,
        HUNDRED,
    );
}

/// Whether some customer is at risk of leaving.
pub open spec fn any_at_risk(customers: Seq<Customer>) -> bool {
    exists|i: int|
        0 <= i < customers.len() && (#[trigger] customers[i]).lifecycle_stage
            == CustomerLifecycle::AtRisk
}

/// Whether some customer is at risk of leaving.
pub fn has_at_risk_customers(customers: &Vec<Customer>) -> (found: bool)
    ensures
        found == any_at_risk(customers@),
{
    let mut i: usize = 0;
    while i < customers.len()
        invariant
            i <= customers.len(),
            forall|j: int|
                0 <= j < i ==> (#[trigger] customers@[j]).lifecycle_stage
                    != CustomerLifecycle::AtRisk,
        decreases customers.len() - i,
    {
        match customers[i].lifecycle_stage {
            CustomerLifecycle::AtRisk => {
                return true;
            },
            _ => {},
        }
        i = i + 1;
    }
    false
}

/// Whether `i` is the position of a customer of the segment; of any
/// customer, when no segment is asked for.
pub open spec fn is_in_segment(
    customers: Seq<Customer>,
    segment: Option<CustomerSegment>,
    i: int,
) -> bool {
    0 <= i < customers.len() && match segment {
        Some(wanted) => customers[i].segment == wanted,
        None => true,
    }
}

/// Whether there is a customer of the segment.
pub open spec fn any_in_segment(
    customers: Seq<Customer>,
    segment: Option<CustomerSegment>,
) -> bool {
    exists|i: int| is_in_segment(customers, segment, i)
}

/// The positions of the customers of a segment, in order.
pub fn get_customers_by_segment(
    customers: &Vec<Customer>,
    segment: Option<CustomerSegment>,
) -> (found: Vec<usize>)
    ensures
        forall|k: int|
            0 <= k < found@.len() ==> is_in_segment(customers@, segment, #[trigger] found@[k] as int),
        forall|i: int| is_in_segment(customers@, segment, i) ==> found@.contains(i as usize),
        forall|j: int, k: int| 0 <= j < k < found@.len() ==> found@[j] < found@[k],
{
    let mut found: Vec<usize> = Vec::new();
    let mut i: usize = 0;
    while i < customers.len()
        invariant
            i <= customers.len(),
            forall|k: int|
                0 <= k < found@.len() ==> is_in_segment(customers@, segment, #[trigger] found@[k] as int)
                    && found@[k] < i,
            forall|j: int|
                0 <= j < i && is_in_segment(customers@, segment, j) ==> found@.contains(j as usize),
            forall|j: int, k: int| 0 <= j < k < found@.len() ==> found@[j] < found@[k],
        decreases customers.len() - i,
    {
        let wanted = match segment {
            Some(s) => customers[i].segment == s,
            None => true,
        };
        if wanted {
            let ghost before = found@;
            found.push(i);
            assert(found@[found@.len() - 1] == i);
            assert forall|j: int|
                0 <= j < i + 1 && is_in_segment(customers@, segment, j) implies found@.contains(
                j as usize,
            ) by {
                if j < i {
                    let k = choose|k: int| 0 <= k < before.len() && before[k] == j as usize;
                    assert(found@[k] == j as usize);
                }
            }
        }
        i = i + 1;
    }
    found
}

/// A customer drawn at random from a segment, or from all customers when
/// no segment is given; `None` when there is none.
pub fn get_random_customer(
    customers: &Vec<Customer>,
    segment: Option<CustomerSegment>,
    rng: &mut GameRng,
) -> (pick: Option<usize>)
    ensures
        pick matches Some(i) ==> is_in_segment(customers@, segment, i as int),
        pick.is_none() <==> !any_in_segment(customers@, segment),
{
    let found = get_customers_by_segment(customers, segment);
    let pick = rng.pick_one(&found);
    proof {
        match pick {
            Some(i) => {
                let k = choose|k: int| 0 <= k < found@.len() && found@[k] == i;
                assert(is_in_segment(customers@, segment, found@[k] as int));
            },
            None => {
                if any_in_segment(customers@, segment) {
                    let i = choose|i: int| is_in_segment(customers@, segment, i);
                    assert(found@.contains(i as usize));
                }
            },
        }
    }
    pick
}

/// Lowest satisfaction with which a customer of a segment signs, in
/// thousandths: 70 for enterprise, 65 for small business, 60 for self-serve.
pub open spec fn welcome_floor(segment: CustomerSegment) -> i64 {
    match segment {
        CustomerSegment::Enterprise => 70_000,
        CustomerSegment::SMB => 65_000,
        CustomerSegment::SelfServe => 60_000,
    }
}

/// A new customer of a segment who joins in `week`: onboarding, paying
/// nothing yet, with a satisfaction drawn between the segment's floor and 90.
pub fn generate_customer_persona(
    segment: CustomerSegment,
    week: u32,
    rng: &mut GameRng,
) -> (customer: Customer)
    ensures
        welcome_floor(segment) <= customer.satisfaction <= 90_000,
        customer == signed_customer(segment, week, customer.satisfaction, 0),
{
    let floor: i64 = match segment {
        CustomerSegment::Enterprise => 70_000,
        CustomerSegment::SMB => 65_000,
        CustomerSegment::SelfServe => 60_000,
    };
    Customer {
        segment,
        join_week: week,
        satisfaction: rng.between(floor, 90_000),
        lifecycle_stage: CustomerLifecycle::Onboarding,
        latest_feedback: None,
        mrr_contribution: 0,
        is_champion: false,
    }
}

/// The sentiment of a customer's feedback, where `lucky` is the outcome of
/// the trial that decides between the two sentiments open to the customer.
/// Above 80 satisfaction with a net promoter score above 30 it is positive or
/// neutral; above 60 neutral; above 40 neutral or negative; otherwise
/// negative or critical.
pub open spec fn sentiment_of(satisfaction: i64, nps: i64, lucky: bool) -> FeedbackSentiment {
    if satisfaction > 80_000 && nps > 30_000 {
        if lucky {
            FeedbackSentiment::Positive
        } else {
            FeedbackSentiment::Neutral
        }
    } else if satisfaction > 60_000 {
        FeedbackSentiment::Neutral
    } else if satisfaction > 40_000 {
        if lucky {
            FeedbackSentiment::Neutral
        } else {
            FeedbackSentiment::Negative
        }
    } else {
        if lucky {
            FeedbackSentiment::Negative
        } else {
            FeedbackSentiment::Critical
        }
    }
}

/// Chance, per mille, that a customer's feedback has the kinder of the two
/// sentiments open to the customer.
pub open spec fn kinder_chance(satisfaction: i64, nps: i64) -> i64 {
    if satisfaction > 80_000 && nps > 30_000 {
        800
    } else if satisfaction > 60_000 {
        1_000
    } else if satisfaction > 40_000 {
        700
    } else {
        600
    }
}

/// The sentiment of a customer's feedback for the outcome of the trial.
pub fn feedback_sentiment(
    satisfaction: i64,
    nps: i64,
    lucky: bool,
) -> (sentiment: FeedbackSentiment)
    ensures
        sentiment == sentiment_of(satisfaction, nps, lucky),
{
    if satisfaction > 80_000 && nps > 30_000 {
        if lucky {
            FeedbackSentiment::Positive
        } else {
            FeedbackSentiment::Neutral
        }
    } else if satisfaction > 60_000 {
        FeedbackSentiment::Neutral
    } else if satisfaction > 40_000 {
        if lucky {
            FeedbackSentiment::Neutral
        } else {
            FeedbackSentiment::Negative
        }
    } else {
        if lucky {
            FeedbackSentiment::Negative
        } else {
            FeedbackSentiment::Critical
        }
    }
}

/// Feedback of a customer in a week, at the company's net promoter score.
/// Whatever is drawn, the sentiment is one of the two that are open to the
/// customer.
pub fn generate_customer_feedback(
    customer: &Customer,
    week: u32,
    nps: i64,
    rng: &mut GameRng,
) -> (feedback: CustomerFeedback)
    ensures
        feedback.week == week,
        exists|held: Trial|
            #[trigger] held.is_held_at(kinder_chance(customer.satisfaction, nps) as int)
                && feedback.sentiment == sentiment_of(customer.satisfaction, nps, held.hit),
{
    let chance: i64 = if customer.satisfaction > 80_000 && nps > 30_000 {
        800
    } else if customer.satisfaction > 60_000 {
        1_000
    } else if customer.satisfaction > 40_000 {
        700
    } else {
        600
    };
    let held = rng.trial(chance);
    let sentiment = feedback_sentiment(customer.satisfaction, nps, held.hit);
    assert(held.is_held_at(kinder_chance(customer.satisfaction, nps) as int) && sentiment
        == sentiment_of(customer.satisfaction, nps, held.hit));
    CustomerFeedback { week, sentiment }
}

/// Whether `i` is the position of a customer at the stage.
pub open spec fn is_at_stage(customers: Seq<Customer>, stage: CustomerLifecycle, i: int) -> bool {
    0 <= i < customers.len() && customers[i].lifecycle_stage == stage
}

/// The positions of the customers at a lifecycle stage, in order.
pub fn get_customers_by_lifecycle(
    customers: &Vec<Customer>,
    stage: CustomerLifecycle,
) -> (found: Vec<usize>)
    ensures
        forall|k: int| 0 <= k < found@.len() ==> is_at_stage(customers@, stage, #[trigger] found@[k] as int),
        forall|i: int| is_at_stage(customers@, stage, i) ==> found@.contains(i as usize),
        forall|j: int, k: int| 0 <= j < k < found@.len() ==> found@[j] < found@[k],
{
    let mut found: Vec<usize> = Vec::new();
    let mut i: usize = 0;
    while i < customers.len()
        invariant
            i <= customers.len(),
            forall|k: int|
                0 <= k < found@.len() ==> is_at_stage(customers@, stage, #[trigger] found@[k] as int)
                    && found@[k] < i,
            forall|j: int| 0 <= j < i && is_at_stage(customers@, stage, j) ==> found@.contains(j as usize),
            forall|j: int, k: int| 0 <= j < k < found@.len() ==> found@[j] < found@[k],
        decreases customers.len() - i,
    {
        if customers[i].lifecycle_stage == stage {
            let ghost before = found@;
            found.push(i);
            assert(found@[found@.len() - 1] == i);
            assert forall|j: int| 0 <= j < i + 1 && is_at_stage(customers@, stage, j) implies found@.contains(
                j as usize,
            ) by {
                if j < i {
                    let k = choose|k: int| 0 <= k < before.len() && before[k] == j as usize;
                    assert(found@[k] == j as usize);
                }
            }
        }
        i = i + 1;
    }
    found
}

/// The positions of the customers who are at risk of leaving, in order.
pub fn get_at_risk_customers(customers: &Vec<Customer>) -> (found: Vec<usize>)
    ensures
        forall|k: int|
            0 <= k < found@.len() ==> is_at_stage(
                customers@,
                CustomerLifecycle::AtRisk,
                #[trigger] found@[k] as int,
            ),
        forall|i: int| is_at_stage(customers@, CustomerLifecycle::AtRisk, i) ==> found@.contains(i as usize),
        forall|j: int, k: int| 0 <= j < k < found@.len() ==> found@[j] < found@[k],
{
    get_customers_by_lifecycle(customers, CustomerLifecycle::AtRisk)
}

/// The positions of the customers who are flagged as champions, in order.
pub fn get_champions(customers: &Vec<Customer>) -> (found: Vec<usize>)
    ensures
        forall|k: int|
            0 <= k < found@.len() ==> (#[trigger] found@[k]) < customers@.len()
                && customers@[found@[k] as int].is_champion,
        forall|i: int|
            0 <= i < customers@.len() && (#[trigger] customers@[i]).is_champion ==> found@.contains(
                i as usize,
            ),
        forall|j: int, k: int| 0 <= j < k < found@.len() ==> found@[j] < found@[k],
{
    let mut found: Vec<usize> = Vec::new();
    let mut i: usize = 0;
    while i < customers.len()
        invariant
            i <= customers.len(),
            forall|k: int|
                0 <= k < found@.len() ==> (#[trigger] found@[k]) < i
                    && customers@[found@[k] as int].is_champion,
            forall|j: int|
                0 <= j < i && (#[trigger] customers@[j]).is_champion ==> found@.contains(j as usize),
            forall|j: int, k: int| 0 <= j < k < found@.len() ==> found@[j] < found@[k],
        decreases customers.len() - i,
    {
        if customers[i].is_champion {
            let ghost before = found@;
            found.push(i);
            assert(found@[found@.len() - 1] == i);
            assert forall|j: int|
                0 <= j < i + 1 && (#[trigger] customers@[j]).is_champion implies found@.contains(
                j as usize,
            ) by {
                if j < i {
                    let k = choose|k: int| 0 <= k < before.len() && before[k] == j as usize;
                    assert(found@[k] == j as usize);
                }
            }
        }
        i = i + 1;
    }
    found
}

} // verus!
