//! The single source of randomness that is threaded through every stochastic
//! step of the engine.
use rand::seq::SliceRandom;
use rand::Rng;
use rand::SeedableRng;
use vstd::prelude::*;

verus! {

/// Makes `rand::rngs::StdRng` known as a type whose inside is not looked
/// into.
#[verifier::external_type_specification]
#[verifier::external_body]
pub struct ExStdRng(rand::rngs::StdRng);

/// The generator of a game. It is made from a seed, so that a game can be
/// played again draw by draw.
pub struct GameRng {
    source: rand::rngs::StdRng,
}

/// `rand::SeedableRng::seed_from_u64` for `StdRng`: a generator whose draws
/// are a function of `seed`. Nothing is claimed about the draws themselves.
#[verifier::external_body]
fn generator_from_seed(seed: u64) -> (source: rand::rngs::StdRng) {
    rand::rngs::StdRng::seed_from_u64(seed)
}

/// `rand::Rng::gen_ratio`: `true` with probability
/// `numerator / denominator`. The crate documents that the result is always
/// `false` for a zero numerator and always `true` when numerator and
/// denominator are equal; it panics on a zero denominator or a numerator above
/// the denominator, which the precondition excludes.
#[verifier::external_body]
fn draw_ratio(source: &mut rand::rngs::StdRng, numerator: u32, denominator: u32) -> (hit: bool)
    requires
        denominator > 0,
        numerator <= denominator,
    ensures
        numerator == 0 ==> !hit,
        numerator == denominator ==> hit,
{
    source.gen_ratio(numerator, denominator)
}

/// `rand::Rng::gen_range` on an inclusive `i64` range: some value of the
/// range. It panics on an empty range, which the precondition excludes.
#[verifier::external_body]
fn draw_inclusive(source: &mut rand::rngs::StdRng, low: i64, high: i64) -> (x: i64)
    requires
        low <= high,
    ensures
        low <= x <= high,
{
    source.gen_range(low..=high)
}

/// `rand::seq::SliceRandom::shuffle` on a vector of positions: the vector
/// holds the same positions as before, each as often as before, in some
/// order.
#[verifier::external_body]
fn shuffle_positions(source: &mut rand::rngs::StdRng, positions: &mut Vec<usize>)
    ensures
        final(positions)@.to_multiset() == old(positions)@.to_multiset(),
{
    positions.shuffle(source);
}

/// `rand::seq::SliceRandom::choose` on a vector of positions: one of the
/// positions that the vector holds, and nothing only for an empty vector.
#[verifier::external_body]
fn choose_position(source: &mut rand::rngs::StdRng, positions: &Vec<usize>) -> (pick: Option<usize>)
    ensures
        pick matches Some(p) ==> positions@.contains(p),
        pick.is_none() <==> positions@.len() == 0,
{
    positions.choose(source).copied()
}

/// One Bernoulli trial as it was held: the chance of success, per mille,
/// and whether it succeeded.
#[derive(Debug, Clone, Copy, PartialEq, Eq, Structural)]
pub struct Trial {
    pub chance: i64,
    pub hit: bool,
}

impl Trial {
    /// Whether the trial is one that can be held for a probability of
    /// `per_mille / 1000`: its chance is that probability brought into
    /// `[0, 1]`, a chance of zero fails and a chance of one succeeds.
    pub open spec fn is_held_at(self, per_mille: int) -> bool {
        &&& self.chance == crate::fixed::bounded(per_mille, 0, 1_000)
        &&& self.chance == 0 ==> !self.hit
        &&& self.chance == 1_000 ==> self.hit
    }
}

impl GameRng {
    /// The generator for a seed.
    pub fn seeded(seed: u64) -> (rng: GameRng) {
        GameRng { source: generator_from_seed(seed) }
    }

    /// One Bernoulli trial whose probability is `per_mille / 1000`, with the
    /// probability first brought into `[0, 1]`. A probability of zero never
    /// succeeds and a probability of one always does.
    pub fn chance(&mut self, per_mille: i64) -> (hit: bool)
        ensures
            per_mille <= 0 ==> !hit,
            per_mille >= 1000 ==> hit,
    {
        self.trial(per_mille).hit
    }

    /// One Bernoulli trial whose probability is `per_mille / 1000`, with the
    /// probability first brought into `[0, 1]`; the result records the
    /// chance at which the trial was held.
    pub fn trial(&mut self, per_mille: i64) -> (held: Trial)
        ensures
            held.is_held_at(per_mille as int),
    {
        let chance: i64 = crate::fixed::clamp(per_mille, 0, 1000);
        let hit = draw_ratio(&mut self.source, chance as u32, 1000);
        Trial { chance, hit }
    }

    /// One of the positions, drawn at random; nothing when there is none.
    pub fn pick_one(&mut self, positions: &Vec<usize>) -> (pick: Option<usize>)
        ensures
            pick matches Some(p) ==> positions@.contains(p),
            pick.is_none() <==> positions@.len() == 0,
    {
        choose_position(&mut self.source, positions)
    }

    /// Brings the positions into a random order.
    pub fn shuffle(&mut self, positions: &mut Vec<usize>)
        ensures
            final(positions)@.to_multiset() == old(positions)@.to_multiset(),
    {
        shuffle_positions(&mut self.source, positions);
    }

    /// One value drawn from `[low, high]`; `low` itself when the range is
    /// empty.
    pub fn between(&mut self, low: i64, high: i64) -> (x: i64)
        ensures
            low <= high ==> low <= x <= high,
            low > high ==> x == low,
    {
        if low <= high {
            draw_inclusive(&mut self.source, low, high)
        } else {
            low
        }
    }
}

} // verus!
