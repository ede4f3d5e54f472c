//! The AMM reward-rate estimator: derives a reward-token amount for a deposit
//! from the pool's reserve state, degrading to a fixed fallback on any
//! degenerate read or arithmetic step rather than failing the call.

use vstd::prelude::*;
use vstd::arithmetic::mul::lemma_mul_nonnegative;

verus! {

/// The pool's swap fee, in basis points.
pub const METEORA_FEE: i128 = 1800;

/// Basis-point denominator.
pub const FEE_DENOMINATOR: i128 = 10000;

/// Fixed-point scale for the intermediate ratios.
pub const PRECISION_FACTOR: i128 = 1_000_000_000;

/// What the estimator hands back when a read is degenerate or an arithmetic
/// step leaves the representable range.
pub const AMM_FALLBACK_TOKENS: u64 = 100;

/// What the estimator hands back when the true result is positive but
/// truncates to zero.
pub const AMM_MINIMUM_TOKENS: u64 = 1;

/// The fee-adjustment factor, scaled by [`PRECISION_FACTOR`]: rewards fewer
/// tokens as the fee grows.
pub open spec fn spec_fee_multiplier() -> int {
    (FEE_DENOMINATOR * PRECISION_FACTOR) / (FEE_DENOMINATOR - METEORA_FEE)
}

/// The reward-token amount for a deposit, given the six pool reserve reads:
/// each side's pooled underlying amount is `vault * lp_share / lp_supply`
/// (truncating), their cross ratio is scaled by [`PRECISION_FACTOR`] and by
/// the fee adjustment, and the deposit is converted at that ratio. Any zero
/// read, zero pooled amount, overflow past the wide signed range, or result
/// past the output range yields [`AMM_FALLBACK_TOKENS`]; a true result that
/// is positive but truncates to zero yields [`AMM_MINIMUM_TOKENS`].
pub open spec fn spec_donut_tokens(
    a_vault_lp_amount: u64,
    b_vault_lp_amount: u64,
    a_vault_lp_supply: u64,
    b_vault_lp_supply: u64,
    total_token_a: u64,
    total_token_b: u64,
    sol_amount: u64,
) -> u64 {
    if a_vault_lp_supply == 0 || b_vault_lp_supply == 0 || total_token_a == 0 || total_token_b == 0 {
        AMM_FALLBACK_TOKENS
    } else {
        let pool_a_num = total_token_a * a_vault_lp_amount;
        if pool_a_num > i128::MAX {
            AMM_FALLBACK_TOKENS
        } else {
            let pool_token_a = pool_a_num / (a_vault_lp_supply as int);
            let pool_b_num = total_token_b * b_vault_lp_amount;
            if pool_b_num > i128::MAX {
                AMM_FALLBACK_TOKENS
            } else {
                let pool_token_b = pool_b_num / (b_vault_lp_supply as int);
                if pool_token_a == 0 || pool_token_b == 0 {
                    AMM_FALLBACK_TOKENS
                } else {
                    let ratio_num = pool_token_a * PRECISION_FACTOR;
                    if ratio_num > i128::MAX {
                        AMM_FALLBACK_TOKENS
                    } else {
                        let basic_ratio = ratio_num / pool_token_b;
                        let adjusted_num = basic_ratio * spec_fee_multiplier();
                        if adjusted_num > i128::MAX {
                            AMM_FALLBACK_TOKENS
                        } else {
                            let fee_adjusted_ratio = adjusted_num / (PRECISION_FACTOR as int);
                            let scaled = sol_amount * fee_adjusted_ratio;
                            if scaled > i128::MAX {
                                AMM_FALLBACK_TOKENS
                            } else {
                                let donut = scaled / (PRECISION_FACTOR as int);
                                if donut > u64::MAX {
                                    AMM_FALLBACK_TOKENS
                                } else if donut == 0 {
                                    if scaled > 0 {
                                        AMM_MINIMUM_TOKENS
                                    } else {
                                        AMM_FALLBACK_TOKENS
                                    }
                                } else {
                                    donut as u64
                                }
                            }
                        }
                    }
                }
            }
        }
    }
}

/// The estimator's degradation policy: any zero reserve read yields the
/// fixed fallback; an overflowing first product does too, whatever else
/// holds; and when every step stays in range but the scaled result is
/// positive and below one whole token, the floor of one token is returned.
pub proof fn lemma_estimator_fallback_and_floor(
    a_lp: u64, b_lp: u64, a_sup: u64, b_sup: u64, ta: u64, tb: u64, sol: u64,
)
    ensures
        (a_sup == 0 || b_sup == 0 || ta == 0 || tb == 0)
            ==> spec_donut_tokens(a_lp, b_lp, a_sup, b_sup, ta, tb, sol) == AMM_FALLBACK_TOKENS,
        ta * a_lp > i128::MAX
            ==> spec_donut_tokens(a_lp, b_lp, a_sup, b_sup, ta, tb, sol) == AMM_FALLBACK_TOKENS,
        tb * b_lp > i128::MAX
            ==> spec_donut_tokens(a_lp, b_lp, a_sup, b_sup, ta, tb, sol) == AMM_FALLBACK_TOKENS,
        ({
            let pool_a = (ta * a_lp) / (a_sup as int);
            let pool_b = (tb * b_lp) / (b_sup as int);
            let ratio = (pool_a * PRECISION_FACTOR) / pool_b;
            let adj = (ratio * spec_fee_multiplier()) / (PRECISION_FACTOR as int);
            let scaled = sol * adj;
            (a_sup != 0 && b_sup != 0 && ta != 0 && tb != 0
                && ta * a_lp <= i128::MAX && tb * b_lp <= i128::MAX
                && pool_a != 0 && pool_b != 0
                && pool_a * PRECISION_FACTOR <= i128::MAX
                && ratio * spec_fee_multiplier() <= i128::MAX
                && scaled <= i128::MAX
                && 0 < scaled < PRECISION_FACTOR)
                ==> spec_donut_tokens(a_lp, b_lp, a_sup, b_sup, ta, tb, sol) == AMM_MINIMUM_TOKENS
        }),
{
    let pool_a = (ta * a_lp) / (a_sup as int);
    let pool_b = (tb * b_lp) / (b_sup as int);
    let ratio = (pool_a * PRECISION_FACTOR) / pool_b;
    let adj = (ratio * spec_fee_multiplier()) / (PRECISION_FACTOR as int);
    let scaled = sol * adj;
    if 0 < scaled < PRECISION_FACTOR {
        vstd::arithmetic::div_mod::lemma_basic_div(scaled, PRECISION_FACTOR as int);
    }
}

/// Convert a deposit into a reward-token amount from the six reserve reads.
///
/// Every multiplication and division runs checked over the wide signed range;
/// every failure path lands on the fallback, never on an error.
pub fn get_donut_tokens_amount(
    a_vault_lp_amount: u64,
    b_vault_lp_amount: u64,
    a_vault_lp_supply: u64,
    b_vault_lp_supply: u64,
    total_token_a: u64,
    total_token_b: u64,
    sol_amount: u64,
) -> (donut: u64)
    ensures
        donut == spec_donut_tokens(
            a_vault_lp_amount, b_vault_lp_amount,
            a_vault_lp_supply, b_vault_lp_supply,
            total_token_a, total_token_b, sol_amount,
        ),
{
    if a_vault_lp_supply == 0 || b_vault_lp_supply == 0 || total_token_a == 0 || total_token_b == 0 {
        return AMM_FALLBACK_TOKENS;
    }

    proof {
        lemma_mul_nonnegative(total_token_a as int, a_vault_lp_amount as int);
        lemma_mul_nonnegative(total_token_b as int, b_vault_lp_amount as int);
    }

    let pool_token_a: i128 = match (total_token_a as i128).checked_mul(a_vault_lp_amount as i128) {
        Some(num) => num / (a_vault_lp_supply as i128),
        None => {
            return AMM_FALLBACK_TOKENS;
        },
    };

    let pool_token_b: i128 = match (total_token_b as i128).checked_mul(b_vault_lp_amount as i128) {
        Some(num) => num / (b_vault_lp_supply as i128),
        None => {
            return AMM_FALLBACK_TOKENS;
        },
    };

    if pool_token_a == 0 || pool_token_b == 0 {
        return AMM_FALLBACK_TOKENS;
    }

    let basic_ratio: i128 = match pool_token_a.checked_mul(PRECISION_FACTOR) {
        Some(num) => num / pool_token_b,
        None => {
            return AMM_FALLBACK_TOKENS;
        },
    };

    let fee_multiplier: i128 = (FEE_DENOMINATOR * PRECISION_FACTOR) / (FEE_DENOMINATOR - METEORA_FEE);

    proof {
        lemma_mul_nonnegative(basic_ratio as int, fee_multiplier as int);
    }

    let fee_adjusted_ratio: i128 = match basic_ratio.checked_mul(fee_multiplier) {
        Some(num) => num / PRECISION_FACTOR,
        None => {
            return AMM_FALLBACK_TOKENS;
        },
    };

    let donut_tokens_scaled: i128 = match (sol_amount as i128).checked_mul(fee_adjusted_ratio) {
        Some(result) => result,
        None => {
            return AMM_FALLBACK_TOKENS;
        },
    };

    let donut_tokens_big: i128 = donut_tokens_scaled / PRECISION_FACTOR;

    if donut_tokens_big > u64::MAX as i128 {
        return AMM_FALLBACK_TOKENS;
    }

    let donut_tokens: u64 = donut_tokens_big as u64;

    if donut_tokens == 0 {
        if donut_tokens_scaled > 0 {
            return AMM_MINIMUM_TOKENS;
        }
        return AMM_FALLBACK_TOKENS;
    }

    donut_tokens
}

} // verus!
