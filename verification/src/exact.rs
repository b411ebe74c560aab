//! Products of any number of fixed-point factors, formed exactly.
//!
//! A product of `n` factors in thousandths has `3n` decimal places and no
//! bound on its size. It is therefore held as a sign and a sequence of
//! digits in base 1000, least significant digit first: every multiplication
//! is exact, and the one division by a power of 1000 at the end is the
//! dropping of digits.
use crate::fixed::capped;
use crate::fixed::trunc_div;
use crate::fixed::CEILING;
use vstd::arithmetic::div_mod::lemma_div_denominator;
use vstd::prelude::*;

verus! {

/// `1000` to the power of `n`.
pub open spec fn unit_power(n: nat) -> int
    decreases n,
{
    if n == 0 {
        1
    } else {
        1_000 * unit_power((n - 1) as nat)
    }
}

/// Whether every digit is below 1000.
pub open spec fn is_digits(digits: Seq<u32>) -> bool {
    forall|i: int| 0 <= i < digits.len() ==> #[trigger] digits[i] < 1_000
}

/// The number that digits in base 1000 stand for, least significant digit
/// first.
pub open spec fn number(digits: Seq<u32>) -> nat
    decreases digits.len(),
{
    if digits.len() == 0 {
        0
    } else {
        digits[0] as nat + 1_000 * number(digits.drop_first())
    }
}

/// The digits of `n`, without leading zeros.
pub open spec fn digits_of(n: nat) -> Seq<u32>
    decreases n,
{
    if n == 0 {
        Seq::<u32>::empty()
    } else {
        seq![(n % 1_000) as u32] + digits_of(n / 1_000)
    }
}

/// The digits of `number(digits) * factor + carry`, formed digit by digit.
pub open spec fn multiplied(digits: Seq<u32>, factor: nat, carry: nat) -> Seq<u32>
    decreases digits.len(),
{
    if digits.len() == 0 {
        digits_of(carry)
    } else {
        let x = digits[0] as nat * factor + carry;
        seq![(x % 1_000) as u32] + multiplied(digits.drop_first(), factor, x / 1_000)
    }
}

/// A digit in front of digits counts once, the digits behind it a
/// thousandfold.
pub proof fn lemma_number_behind_a_digit(digit: u32, rest: Seq<u32>)
    ensures
        number(seq![digit] + rest) == digit as nat + 1_000 * number(rest),
        is_digits(rest) && digit < 1_000 ==> is_digits(seq![digit] + rest),
{
    assert((seq![digit] + rest).drop_first() =~= rest);
}

/// The digits of a number stand for that number.
pub proof fn lemma_digits_of(n: nat)
    ensures
        number(digits_of(n)) == n,
        is_digits(digits_of(n)),
    decreases n,
{
    if n > 0 {
        lemma_digits_of(n / 1_000);
        lemma_number_behind_a_digit((n % 1_000) as u32, digits_of(n / 1_000));
    }
}

/// Multiplying digit by digit gives the digits of the product.
pub proof fn lemma_multiplied(digits: Seq<u32>, factor: nat, carry: nat)
    ensures
        number(multiplied(digits, factor, carry)) == number(digits) * factor + carry,
        is_digits(multiplied(digits, factor, carry)),
    decreases digits.len(),
{
    if digits.len() == 0 {
        lemma_digits_of(carry);
        assert(number(digits) * factor == 0) by (nonlinear_arith)
            requires
                number(digits) == 0,
        ;
    } else {
        let x = digits[0] as nat * factor + carry;
        let rest = digits.drop_first();
        lemma_multiplied(rest, factor, x / 1_000);
        lemma_number_behind_a_digit((x % 1_000) as u32, multiplied(rest, factor, x / 1_000));
        let first = digits[0] as int;
        let behind = number(rest) as int;
        let whole = number(digits) as int;
        let f = factor as int;
        assert(whole == first + 1_000 * behind);
        assert(whole * f == first * f + 1_000 * (behind * f)) by (nonlinear_arith)
            requires
                whole == first + 1_000 * behind,
        ;
        assert(x == (x % 1_000) + 1_000 * (x / 1_000));
        assert(number(multiplied(digits, factor, carry)) == (x % 1_000) + 1_000 * (behind * f + x
            / 1_000));
        assert(x == first * f + carry);
        assert(number(digits) * factor == whole * f);
    }
}

/// Digits stand for a number below 1000 to the power of their count.
pub proof fn lemma_number_is_below_its_power(digits: Seq<u32>)
    requires
        is_digits(digits),
    ensures
        number(digits) < unit_power(digits.len()),
    decreases digits.len(),
{
    if digits.len() > 0 {
        lemma_number_is_below_its_power(digits.drop_first());
    }
}

/// The powers of 1000 are positive and grow with the exponent.
pub proof fn lemma_unit_power_grows(low: nat, high: nat)
    requires
        low <= high,
    ensures
        0 < unit_power(low) <= unit_power(high),
    decreases high,
{
    if low < high {
        lemma_unit_power_grows(low, (high - 1) as nat);
    } else if low > 0 {
        lemma_unit_power_grows((low - 1) as nat, (high - 1) as nat);
    }
}

/// Dropping the `places` least significant digits divides by 1000 to that
/// power, rounding down.
pub proof fn lemma_dropped_digits_divide(digits: Seq<u32>, places: nat)
    requires
        is_digits(digits),
        places <= digits.len(),
    ensures
        number(digits.skip(places as int)) == number(digits) as int / unit_power(places),
    decreases places,
{
    if places == 0 {
        assert(digits.skip(0) =~= digits);
    } else {
        let rest = digits.drop_first();
        let below = (places - 1) as nat;
        lemma_dropped_digits_divide(rest, below);
        assert(digits.skip(places as int) =~= rest.skip(below as int));
        lemma_unit_power_grows(0, below);
        lemma_div_denominator(number(digits) as int, 1_000, unit_power(below));
        assert(number(digits) as int / 1_000 == number(rest));
    }
}

/// A whole number of any size, as a sign and digits in base 1000.
#[derive(Debug, Clone)]
pub struct Exact {
    pub digits: Vec<u32>,
    pub negative: bool,
}

impl Exact {
    /// Whether every digit is below 1000.
    pub open spec fn is_valid(self) -> bool {
        is_digits(self.digits@)
    }

    /// The number that is held.
    pub open spec fn value(self) -> int {
        if self.negative {
            -(number(self.digits@) as int)
        } else {
            number(self.digits@) as int
        }
    }

    /// Holds `x`.
    pub fn of(x: i64) -> (held: Exact)
        ensures
            held.is_valid(),
            held.value() == x,
    {
        let negative = x < 0;
        let size: i128 = if negative {
            -(x as i128)
        } else {
            x as i128
        };
        let mut left: u128 = size as u128;
        let mut digits: Vec<u32> = Vec::new();
        proof {
            lemma_digits_of(left as nat);
            assert(digits@ + digits_of(left as nat) =~= digits_of(size as nat));
        }
        while left > 0
            invariant
                digits@ + digits_of(left as nat) == digits_of(size as nat),
            decreases left,
        {
            proof {
                assert(digits@.push((left % 1_000) as u32) + digits_of((left / 1_000) as nat)
                    =~= digits@ + digits_of(left as nat));
            }
            digits.push((left % 1_000) as u32);
            left = left / 1_000;
        }
        proof {
            assert(digits@ + digits_of(0) =~= digits@);
            lemma_digits_of(size as nat);
        }
        Exact { digits, negative }
    }

    /// Multiplies what is held by `factor`, exactly.
    pub fn times(&mut self, factor: i64)
        requires
            old(self).is_valid(),
        ensures
            final(self).is_valid(),
            final(self).value() == old(self).value() * factor,
    {
        let size: u128 = if factor < 0 {
            (-(factor as i128)) as u128
        } else {
            factor as u128
        };
        let ghost before = self.digits@;
        let mut product: Vec<u32> = Vec::new();
        let mut carry: u128 = 0;
        let mut i: usize = 0;
        proof {
            assert(before.skip(0) =~= before);
            assert(product@ + multiplied(before, size as nat, 0) =~= multiplied(
                before,
                size as nat,
                0,
            ));
        }
        while i < self.digits.len()
            invariant
                i <= self.digits.len(),
                self.digits@ == before,
                is_digits(before),
                size <= 0x8000_0000_0000_0000,
                carry <= size,
                product@ + multiplied(before.skip(i as int), size as nat, carry as nat)
                    == multiplied(before, size as nat, 0),
            decreases self.digits.len() - i,
        {
            let digit: u128 = self.digits[i] as u128;
            assert(digit < 1_000);
            assert(digit * size <= 999 * size) by (nonlinear_arith)
                requires
                    digit <= 999,
                    size >= 0,
            ;
            let x: u128 = digit * size + carry;
            proof {
                let tail = before.skip(i as int);
                assert(tail[0] == before[i as int]);
                assert(tail.drop_first() =~= before.skip(i + 1));
                assert(product@.push((x % 1_000) as u32) + multiplied(
                    before.skip(i + 1),
                    size as nat,
                    (x / 1_000) as nat,
                ) =~= product@ + multiplied(tail, size as nat, carry as nat));
            }
            product.push((x % 1_000) as u32);
            carry = x / 1_000;
            i = i + 1;
        }
        while carry > 0
            invariant
                i == before.len(),
                product@ + multiplied(before.skip(i as int), size as nat, carry as nat)
                    == multiplied(before, size as nat, 0),
            decreases carry,
        {
            proof {
                assert(before.skip(i as int).len() == 0);
                assert(product@.push((carry % 1_000) as u32) + digits_of((carry / 1_000) as nat)
                    =~= product@ + digits_of(carry as nat));
            }
            product.push((carry % 1_000) as u32);
            carry = carry / 1_000;
        }
        proof {
            assert(before.skip(i as int).len() == 0);
            assert(product@ + digits_of(0) =~= product@);
            lemma_multiplied(before, size as nat, 0);
            let n = number(before) as int;
            if factor < 0 {
                assert(n * size == -(n * factor)) by (nonlinear_arith)
                    requires
                        size == -factor,
                ;
                assert((-n) * factor == -(n * factor)) by (nonlinear_arith);
            } else {
                assert((-n) * factor == -(n * factor)) by (nonlinear_arith);
            }
        }
        self.negative = if factor < 0 {
            !self.negative
        } else {
            self.negative
        };
        self.digits = product;
    }

    /// What is held, divided by 1000 to the power of `places`, rounded
    /// toward zero and capped.
    pub fn quotient(&self, places: u128) -> (q: i64)
        requires
            self.is_valid(),
        ensures
            q == capped(trunc_div(self.value(), unit_power(places as nat))),
    {
        let n = self.digits.len();
        let ghost held = number(self.digits@) as int;
        let ghost power = unit_power(places as nat);
        if places >= n as u128 {
            proof {
                lemma_number_is_below_its_power(self.digits@);
                lemma_unit_power_grows(n as nat, places as nat);
                assert(held / power == 0) by (nonlinear_arith)
                    requires
                        0 <= held < power,
                ;
            }
            return 0;
        }
        let low: usize = places as usize;
        let mut j: usize = n;
        let mut size: i64 = 0;
        let mut over = false;
        proof {
            assert(self.digits@.skip(n as int).len() == 0);
        }
        while j > low
            invariant
                low <= j <= n,
                n == self.digits@.len(),
                is_digits(self.digits@),
                over <==> number(self.digits@.skip(j as int)) > CEILING,
                !over ==> size == number(self.digits@.skip(j as int)),
                0 <= size <= CEILING,
            decreases j,
        {
            j = j - 1;
            proof {
                let tail = self.digits@.skip(j as int);
                assert(tail[0] == self.digits@[j as int]);
                assert(tail.drop_first() =~= self.digits@.skip(j + 1));
            }
            if !over {
                let x: i128 = size as i128 * 1_000 + self.digits[j] as i128;
                if x > CEILING as i128 {
                    over = true;
                } else {
                    size = x as i64;
                }
            }
        }
        proof {
            lemma_dropped_digits_divide(self.digits@, places as nat);
            lemma_unit_power_grows(0, places as nat);
            assert(held / power >= 0) by (nonlinear_arith)
                requires
                    held >= 0,
                    power > 0,
            ;
        }
        let size = if over {
            CEILING
        } else {
            size
        };
        if self.negative {
            -size
        } else {
            size
        }
    }
}

} // verus!
