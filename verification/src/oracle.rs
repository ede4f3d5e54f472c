//! The price-oracle adapter: staleness policy over a feed reading, and the
//! minimum-deposit computation derived from the effective price.

use vstd::prelude::*;
use vstd::arithmetic::div_mod::{lemma_fundamental_div_mod_converse, lemma_div_is_ordered};
use vstd::arithmetic::mul::{lemma_mul_is_distributive_add_other_way, lemma_mul_inequality};

verus! {

/// The deposit threshold in USD base units (ten dollars at eight decimals).
pub const MINIMUM_USD_DEPOSIT: u64 = 10_00000000;

/// A feed older than this many seconds is treated as stale.
pub const MAX_PRICE_FEED_AGE: i64 = 86400;

/// The price substituted for a stale feed (one hundred dollars per native
/// unit, at eight decimals).
pub const DEFAULT_SOL_PRICE: i128 = 100_00000000;

/// One reading of the external price feed, together with the clock value at
/// the time of the call.
#[derive(Clone, Copy, PartialEq, Eq, Structural, Debug)]
pub struct OracleReading {
    /// The feed's latest answer, in USD base units per native unit.
    pub answer: i128,
    /// How many decimal digits the answer carries.
    pub decimals: u32,
    /// The current time, seconds since the epoch.
    pub now: i64,
    /// When the feed's answer was published.
    pub feed_timestamp: i64,
}

/// The price the adapter works with: the feed's answer, unless the reading is
/// older than [`MAX_PRICE_FEED_AGE`], in which case the fixed default price
/// stands in. Staleness degrades to a safe constant instead of failing.
pub open spec fn spec_effective_price(r: OracleReading) -> i128 {
    if r.now - r.feed_timestamp > MAX_PRICE_FEED_AGE {
        DEFAULT_SOL_PRICE
    } else {
        r.answer
    }
}

/// Ten to the given power.
pub open spec fn pow10(e: nat) -> int
    decreases e,
{
    if e == 0 {
        1
    } else {
        10 * pow10((e - 1) as nat)
    }
}

/// Clamp a mathematical integer into the `u64` range.
pub open spec fn sat_u64(x: int) -> u64 {
    if x > u64::MAX {
        u64::MAX
    } else if x < 0 {
        0u64
    } else {
        x as u64
    }
}

/// The minimum deposit for a given price and decimal scale: the ten-dollar
/// threshold divided by the price, expressed in native base units of nine
/// decimals — that is, `10^(decimals + 10) / price`, truncated and clamped
/// into range. A price of zero saturates; a negative price yields zero.
pub open spec fn spec_minimum_deposit(price: i128, decimals: u32) -> u64 {
    if price < 0 {
        0u64
    } else if price == 0 {
        u64::MAX
    } else {
        sat_u64(pow10((decimals + 10) as nat) / (price as int))
    }
}

/// The minimum deposit implied by a full oracle reading, staleness policy
/// applied first.
pub open spec fn spec_minimum_sol_deposit(r: OracleReading) -> u64 {
    spec_minimum_deposit(spec_effective_price(r), r.decimals)
}

proof fn lemma_pow10_pos(e: nat)
    ensures
        pow10(e) >= 1,
    decreases e,
{
    if e > 0 {
        lemma_pow10_pos((e - 1) as nat);
        assert(10 * pow10((e - 1) as nat) >= 10 * 1) by (nonlinear_arith)
            requires pow10((e - 1) as nat) >= 1;
    }
}

proof fn lemma_pow10_mono(a: nat, b: nat)
    requires
        a <= b,
    ensures
        pow10(a) <= pow10(b),
    decreases b,
{
    if a < b {
        lemma_pow10_mono(a, (b - 1) as nat);
        lemma_pow10_pos((b - 1) as nat);
        assert(10 * pow10((b - 1) as nat) >= pow10((b - 1) as nat)) by (nonlinear_arith)
            requires pow10((b - 1) as nat) >= 1;
    }
}

/// One decimal shift of a remainder: returns `(d, r2)` with
/// `10 * r == d * p + r2` and `r2 < p`.
fn times10_rem(r: u128, p: u128) -> (out: (u128, u128))
    requires
        1 <= p <= i128::MAX as u128,
        r < p,
    ensures
        out.0 * p + out.1 == 10 * r,
        out.1 < p,
        out.0 <= 9,
{
    let mut acc: u128 = r;
    let mut d: u128 = 0;
    let mut j: u8 = 0;
    while j < 9
        invariant
            1 <= p <= i128::MAX as u128,
            r < p,
            acc < p,
            j <= 9,
            d <= j,
            acc + d * p == (j + 1) * r,
        decreases 9 - j,
    {
        acc = acc + r;
        if acc >= p {
            acc = acc - p;
            proof {
                assert((d + 1) * p == d * p + p) by (nonlinear_arith);
            }
            d = d + 1;
        }
        proof {
            assert((j + 2) * r == (j + 1) * r + r) by (nonlinear_arith);
        }
        j = j + 1;
    }
    (d, acc)
}

/// `10^k / p`, truncated, clamped to the `u64` range.
///
/// Works one decimal digit at a time, so the dividend never has to be held in
/// a machine word even when `10^k` is astronomically large; once the running
/// quotient leaves the `u64` range the final quotient must as well, and the
/// clamp is returned at once.
fn pow10_div_sat(p: u128, k: u64) -> (q: u64)
    requires
        1 <= p <= i128::MAX as u128,
    ensures
        q == sat_u64(pow10(k as nat) / (p as int)),
{
    let mut q: u128 = 1 / p;
    let mut r: u128 = 1 % p;
    let mut i: u64 = 0;
    proof {
        vstd::arithmetic::div_mod::lemma_fundamental_div_mod(1, p as int);
    }
    while i < k
        invariant
            1 <= p <= i128::MAX as u128,
            i <= k,
            r < p,
            q <= u64::MAX,
            q * p + r == pow10(i as nat),
        decreases k - i,
    {
        let dr = times10_rem(r, p);
        let qn: u128 = 10 * q + dr.0;
        proof {
            lemma_mul_is_distributive_add_other_way(p as int, 10 * q, dr.0 as int);
            assert((10 * q) * p == 10 * (q * p)) by (nonlinear_arith);
        }
        if qn > u64::MAX as u128 {
            proof {
                lemma_fundamental_div_mod_converse(pow10((i + 1) as nat), p as int, qn as int, dr.1 as int);
                lemma_pow10_mono((i + 1) as nat, k as nat);
                lemma_div_is_ordered(pow10((i + 1) as nat), pow10(k as nat), p as int);
            }
            return u64::MAX;
        }
        q = qn;
        r = dr.1;
        i = i + 1;
    }
    proof {
        lemma_fundamental_div_mod_converse(pow10(k as nat), p as int, q as int, r as int);
    }
    q as u64
}

/// The minimum deposit in native base units for one oracle reading.
///
/// Applies the staleness policy, then divides the ten-dollar threshold by the
/// effective price at nine output decimals, truncating. A reading whose
/// effective price is zero saturates the result; a negative effective price
/// yields zero.
pub fn calculate_minimum_sol_deposit(reading: &OracleReading) -> (m: u64)
    ensures
        m == spec_minimum_sol_deposit(*reading),
{
    let age: i128 = (reading.now as i128) - (reading.feed_timestamp as i128);
    let price: i128 = if age > MAX_PRICE_FEED_AGE as i128 {
        DEFAULT_SOL_PRICE
    } else {
        reading.answer
    };
    if price < 0 {
        return 0;
    }
    if price == 0 {
        return u64::MAX;
    }
    let k: u64 = reading.decimals as u64 + 10;
    pow10_div_sat(price as u128, k)
}

/// Staleness policy: a reading older than a day is priced at the fixed
/// default, whatever the raw feed value was; a fresh reading keeps its value.
pub proof fn lemma_stale_reading_uses_default(r: OracleReading)
    ensures
        r.now - r.feed_timestamp > MAX_PRICE_FEED_AGE ==> spec_effective_price(r) == DEFAULT_SOL_PRICE,
        r.now - r.feed_timestamp <= MAX_PRICE_FEED_AGE ==> spec_effective_price(r) == r.answer,
{
}

} // verus!
