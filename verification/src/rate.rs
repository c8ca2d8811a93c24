//! Fixed-point ratios in `[0, 1]` with eighteen decimal places, and the
//! floored product of an amount with such a ratio.

use cosmwasm_std::{Decimal, Uint128};
use vstd::prelude::*;

verus! {

/// Number of atomic units in the ratio one.
pub const DECIMAL_FRACTIONAL: u128 = 1_000_000_000_000_000_000;

/// `floor(amount * atomics / 10^18)`: the amount scaled by the ratio whose
/// numerator over `10^18` is `atomics`.
pub open spec fn mul_floor_spec(amount: nat, atomics: nat) -> nat {
    (amount * atomics) / (DECIMAL_FRACTIONAL as nat)
}

/// A ratio between zero and one, held as a numerator over `10^18`.
#[derive(Clone, Copy, Debug, PartialEq, Eq, Structural)]
pub struct Rate {
    atomics: u128,
}

impl View for Rate {
    type V = nat;

    closed spec fn view(&self) -> nat {
        self.atomics as nat
    }
}

impl Rate {
    #[verifier::type_invariant]
    spec fn in_range(self) -> bool {
        self.atomics <= DECIMAL_FRACTIONAL
    }

    /// The ratio `atomics / 10^18`, or `None` when that exceeds one.
    pub fn new(atomics: u128) -> (r: Option<Rate>)
        ensures
            r is Some <==> atomics <= DECIMAL_FRACTIONAL,
            r matches Some(rate) ==> rate@ == atomics,
    {
        if atomics <= DECIMAL_FRACTIONAL {
            Some(Rate { atomics })
        } else {
            None
        }
    }

    /// The ratio zero.
    pub fn zero() -> (r: Rate)
        ensures
            r@ == 0,
    {
        Rate { atomics: 0 }
    }

    /// The ratio one.
    pub fn one() -> (r: Rate)
        ensures
            r@ == DECIMAL_FRACTIONAL,
    {
        Rate { atomics: DECIMAL_FRACTIONAL }
    }

    /// `x` hundredths, or `None` when `x` exceeds one hundred.
    pub fn percent(x: u64) -> (r: Option<Rate>)
        ensures
            r is Some <==> x <= 100,
            r matches Some(rate) ==> rate@ == x * 10_000_000_000_000_000,
    {
        if x <= 100 {
            let atomics: u128 = (x as u128) * 10_000_000_000_000_000;
            Some(Rate { atomics })
        } else {
            None
        }
    }

    /// The numerator over `10^18`.
    pub fn atomics(&self) -> (a: u128)
        ensures
            a == self@,
            a <= DECIMAL_FRACTIONAL,
    {
        proof {
            use_type_invariant(self);
        }
        self.atomics
    }

    /// One minus this ratio.
    pub fn complement(&self) -> (r: Rate)
        ensures
            r@ == DECIMAL_FRACTIONAL - self@,
    {
        proof {
            use_type_invariant(self);
        }
        Rate { atomics: DECIMAL_FRACTIONAL - self.atomics }
    }

    /// `floor(amount * self)`, which never exceeds `amount`.
    pub fn apply(&self, amount: u128) -> (out: u128)
        ensures
            out == mul_floor_spec(amount as nat, self@),
            out <= amount,
    {
        proof {
            use_type_invariant(self);
            lemma_mul_floor_bounded(amount as nat, self.atomics as nat);
        }
        mul_floor(amount, self.atomics)
    }
}

/// A ratio of at most one scales an amount to at most itself.
pub proof fn lemma_mul_floor_bounded(amount: nat, atomics: nat)
    requires
        atomics <= DECIMAL_FRACTIONAL,
    ensures
        mul_floor_spec(amount, atomics) <= amount,
{
    let d: nat = DECIMAL_FRACTIONAL as nat;
    assert(amount * atomics <= amount * d) by (nonlinear_arith)
        requires
            atomics <= d,
    ;
    assert((amount * atomics) / d <= amount) by (nonlinear_arith)
        requires
            amount * atomics <= amount * d,
            d > 0,
    ;
}

/// Calls `Uint128::mul_floor` of cosmwasm-std with the `Decimal` whose raw
/// value is `atomics`. That method multiplies in 256 bits, divides by
/// `10^18` rounding down, and panics when the quotient does not fit in 128
/// bits; the contract excludes that case and states the quotient.
#[verifier::external_body]
fn mul_floor(amount: u128, atomics: u128) -> (out: u128)
    requires
        mul_floor_spec(amount as nat, atomics as nat) <= u128::MAX,
    ensures
        out == mul_floor_spec(amount as nat, atomics as nat),
{
    Uint128::new(amount).mul_floor(Decimal::raw(atomics)).u128()
}

} // verus!
