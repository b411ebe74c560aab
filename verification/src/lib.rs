//! Weekly turn-resolution engine of a startup-founder simulation.
//!
//! A founder commits a few actions each week. [`turn::resolve_turn`] checks
//! them against the focus budget and the unlocked kinds, resolves them, adds
//! the bonuses of synergies and of sustained good practice, lets the week
//! pass, and draws the events of the week to come.
//!
//! # Numbers
//!
//! Every quantity with a fractional part is a fixed-point integer in
//! thousandths (see [`fixed`]): a morale of 80 is `80_000`, a velocity of 1.0
//! is `1_000`, a bank balance of $50,000 is `50_000_000`, a probability of
//! 0.55 is `550` per mille. Products and quotients round toward zero. Sums and
//! products are capped at a magnitude of 10^15, so no step of the engine can
//! overflow, whatever state it is given. Where any number of multipliers
//! compose, as the market conditions do, the product is formed exactly (see
//! [`exact`]) and rounded once at the end, so that their order is of no
//! account.
//!
//! # Chance
//!
//! All randomness comes from one [`chance::GameRng`], which the caller seeds
//! and hands to every step that draws. Each such step is split in two: one
//! function draws every random quantity that the step needs, and a second one,
//! which draws nothing, turns state and draws into the outcome. The contract
//! of the second says exactly what the outcome is; the contract of the step
//! says that its outcome is the one that the second function gives for some
//! draws that fit. Every Bernoulli trial among the draws records the chance
//! at which it was held, and draws fit only if that chance is the one that
//! the rules give.
//!
//! # Modules
//!
//! - [`state`]: the game state, its derived metrics and the advance of the
//!   week.
//! - [`actions`]: the actions and their effects.
//! - [`synergies`]: synergies between the actions of a turn, and the
//!   specialization that a run of turns shows.
//! - [`compounding`]: bonuses for conditions that the history shows to have
//!   been sustained.
//! - [`market_conditions`]: time-boxed market conditions and the
//!   effectiveness of actions under them.
//! - [`events_enhanced`]: conditional events with cooldowns, and the
//!   dilemmas among them; [`events`]: the plain events and the shape of a
//!   dilemma as it is shown.
//! - [`economy`], [`victory`]: churn, the net promoter score, the gates of
//!   escape velocity, victory and defeat.
//! - [`progression`]: unlocks, milestones and seasonal challenges.
//! - [`customers`], [`competitors`]: the records of customers and
//!   competitors, as far as the simulation reads them.
//! - [`insights`], [`warnings`]: what a week is worth pointing out, and the
//!   risks that a state shows.
//! - [`turn`]: the weekly pipeline and the resolution of dilemmas.
//! - [`fixed`], [`exact`], [`chance`]: fixed-point arithmetic, exact products
//!   of many factors, and the source of randomness.
pub mod actions;
pub mod chance;
pub mod competitors;
pub mod compounding;
pub mod customers;
pub mod economy;
pub mod events;
pub mod events_enhanced;
pub mod exact;
pub mod fixed;
pub mod insights;
pub mod market_conditions;
pub mod progression;
pub mod state;
pub mod synergies;
pub mod turn;
pub mod victory;
pub mod warnings;
