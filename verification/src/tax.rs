//! The tax rates of the token and what they take from an amount.

use crate::rate::{lemma_mul_floor_bounded, mul_floor_spec, Rate, DECIMAL_FRACTIONAL};
use vstd::prelude::*;

verus! {

/// The four rates of the token. Only `global_rate` is applied when tokens
/// move; `reflection_rate` and `burn_rate` say how the treasury disposes of
/// what was collected, and `antiwhale_rate` is kept without being enforced.
#[derive(Clone, Copy, Debug, PartialEq, Eq, Structural)]
pub struct TaxConfig {
    pub global_rate: Rate,
    pub reflection_rate: Rate,
    pub burn_rate: Rate,
    pub antiwhale_rate: Rate,
}

/// What is left of `amount` after the tax at `global` (a numerator over
/// `10^18`): `floor(amount * (1 - global))`.
pub open spec fn post_tax_spec(amount: nat, global: nat) -> nat {
    mul_floor_spec(amount, (DECIMAL_FRACTIONAL - global) as nat)
}

/// What the tax at `global` withholds from `amount`.
pub open spec fn tax_cut_spec(amount: nat, global: nat) -> nat {
    (amount - post_tax_spec(amount, global)) as nat
}

/// What is left after tax never exceeds the amount, so the two parts add
/// up to it.
pub proof fn lemma_tax_parts(amount: nat, global: nat)
    requires
        global <= DECIMAL_FRACTIONAL,
    ensures
        post_tax_spec(amount, global) <= amount,
        post_tax_spec(amount, global) + tax_cut_spec(amount, global) == amount,
{
    lemma_mul_floor_bounded(amount, (DECIMAL_FRACTIONAL - global) as nat);
}

impl TaxConfig {
    /// No tax, nothing reflected or burnt, and the anti-whale rate at its
    /// saturating value.
    pub fn new() -> (config: TaxConfig)
        ensures
            config.global_rate@ == 0,
            config.reflection_rate@ == 0,
            config.burn_rate@ == 0,
            config.antiwhale_rate@ == DECIMAL_FRACTIONAL,
    {
        TaxConfig {
            global_rate: Rate::zero(),
            reflection_rate: Rate::zero(),
            burn_rate: Rate::zero(),
            antiwhale_rate: Rate::one(),
        }
    }

    /// Splits `amount` into what the recipient gets and what is withheld.
    pub fn apply(&self, amount: u128) -> (parts: (u128, u128))
        ensures
            parts.0 == post_tax_spec(amount as nat, self.global_rate@),
            parts.1 == tax_cut_spec(amount as nat, self.global_rate@),
            parts.0 + parts.1 == amount,
    {
        let post_tax: u128 = self.global_rate.complement().apply(amount);
        (post_tax, amount - post_tax)
    }
}

} // verus!
