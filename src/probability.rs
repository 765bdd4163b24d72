//! The chance that the next roll holds at least one scoring die, as an exact fraction.
use vstd::prelude::*;

verus! {

/// `b` raised to the power `n`.
pub open spec fn pow(b: int, n: nat) -> int
    decreases n,
{
    if n == 0 {
        1
    } else {
        b * pow(b, (n - 1) as nat)
    }
}

/// A fraction `numerator / denominator`.
#[derive(Debug, Clone, Copy, PartialEq, Eq, Structural)]
pub struct Chance {
    pub numerator: u32,
    pub denominator: u32,
}

/// Numerator of the chance to roll a one or a five among `n` dice: of the
/// `6^n` outcomes, all but the `4^n` without either score. With no dice left
/// the whole set is rolled again, so the chance is certain.
pub open spec fn chance_numerator(n: nat) -> int {
    if n == 0 {
        1
    } else {
        pow(6, n) - pow(4, n)
    }
}

/// Denominator of that chance.
pub open spec fn chance_denominator(n: nat) -> int {
    if n == 0 {
        1
    } else {
        pow(6, n)
    }
}

proof fn lemma_pow_positive(b: int, n: nat)
    requires
        b >= 1,
    ensures
        pow(b, n) >= 1,
    decreases n,
{
    if n > 0 {
        lemma_pow_positive(b, (n - 1) as nat);
        assert(b * pow(b, (n - 1) as nat) >= 1) by (nonlinear_arith)
            requires b >= 1, pow(b, (n - 1) as nat) >= 1;
    }
}

proof fn lemma_ratio_shrinks(a: nat, b: nat)
    requires
        a <= b,
    ensures
        pow(4, b) * pow(6, a) <= pow(4, a) * pow(6, b),
    decreases b - a,
{
    if a < b {
        let c = (b - 1) as nat;
        lemma_ratio_shrinks(a, c);
        lemma_pow_positive(4, a);
        lemma_pow_positive(4, c);
        lemma_pow_positive(6, a);
        lemma_pow_positive(6, c);
        let x = pow(4, c);
        let y = pow(6, a);
        let z = pow(4, a);
        let w = pow(6, c);
        assert(4 * x * y <= 6 * z * w) by (nonlinear_arith)
            requires x * y <= z * w, x >= 1, y >= 1, z >= 1, w >= 1;
        assert(pow(4, b) * pow(6, a) == 4 * x * y) by (nonlinear_arith)
            requires pow(4, b) == 4 * x, y == pow(6, a);
        assert(pow(4, a) * pow(6, b) == 6 * z * w) by (nonlinear_arith)
            requires pow(6, b) == 6 * w, z == pow(4, a);
    }
}

/// With one die or more, more dice never lower the chance of scoring:
/// `num(a) / den(a) <= num(b) / den(b)` whenever `1 <= a <= b`.
pub proof fn lemma_chance_monotonic(a: nat, b: nat)
    requires
        1 <= a <= b,
    ensures
        chance_numerator(a) * chance_denominator(b) <= chance_numerator(b) * chance_denominator(a),
{
    lemma_ratio_shrinks(a, b);
    let p = pow(6, a);
    let q = pow(6, b);
    let r = pow(4, a);
    let s = pow(4, b);
    assert((p - r) * q <= (q - s) * p) by (nonlinear_arith)
        requires s * p <= r * q;
}

/// Chance that rolling `remaining_dice` dice shows at least one one or five;
/// certain when no dice remain, since all six are then rolled again.
pub fn probability_of_scoring(remaining_dice: u8) -> (r: Chance)
    requires
        remaining_dice <= 6,
    ensures
        r.numerator as int == chance_numerator(remaining_dice as nat),
        r.denominator as int == chance_denominator(remaining_dice as nat),
{
    if remaining_dice == 0 {
        return Chance { numerator: 1, denominator: 1 };
    }
    let mut all: u32 = 1;
    let mut without: u32 = 1;
    let mut i: u8 = 0;
    while i < remaining_dice
        invariant
            i <= remaining_dice <= 6,
            all as int == pow(6, i as nat),
            without as int == pow(4, i as nat),
            without <= all <= 46656,
        decreases remaining_dice - i,
    {
        proof {
            assert(pow(6, (i + 1) as nat) == 6 * pow(6, i as nat));
            assert(pow(4, (i + 1) as nat) == 4 * pow(4, i as nat));
            assert(all * 6 <= 46656) by {
                reveal_with_fuel(pow, 7);
            }
        }
        all = all * 6;
        without = without * 4;
        i = i + 1;
    }
    Chance { numerator: all - without, denominator: all }
}

} // verus!
