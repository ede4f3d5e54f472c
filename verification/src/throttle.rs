//! The mint-rate throttle: bounds how fast successive reward mints may grow,
//! so one manipulated pool read cannot blow up cumulative issuance.

use vstd::prelude::*;
use crate::accounts::ProgramState;

verus! {

/// What the throttle accepts for a proposed mint, given the last accepted
/// amount: the first ever mint is taken as it is; afterwards a proposal above
/// three times the last accepted amount is rejected in favour of the last
/// amount, and anything else is accepted.
pub open spec fn throttled_amount(last: u64, proposed: u64) -> u64 {
    if last == 0 {
        proposed
    } else if proposed > spec_saturating_mul3(last) {
        last
    } else {
        proposed
    }
}

/// `last * 3`, saturating at the largest representable value.
pub open spec fn spec_saturating_mul3(last: u64) -> u64 {
    if last * 3 > u64::MAX {
        u64::MAX
    } else {
        (last * 3) as u64
    }
}

/// The throttle as a value computation: what is accepted for a proposal
/// against the last accepted amount.
pub fn throttle_value(last: u64, proposed: u64) -> (accepted: u64)
    ensures
        accepted == throttled_amount(last, proposed),
{
    if last == 0 {
        return proposed;
    }
    let current_limit: u64 = if last > u64::MAX / 3 { u64::MAX } else { last * 3 };
    if proposed > current_limit {
        return last;
    }
    proposed
}

/// Clamp a proposed mint amount and record the accepted one.
///
/// The first call (state still at zero) accepts any value and records it.
/// Later calls reject a spike above three times the previously accepted value,
/// returning that previous value and leaving the state unchanged; anything
/// else is accepted and recorded. Only `last_mint_amount` is touched.
pub fn check_mint_limit(program_state: &mut ProgramState, proposed_mint_value: u64) -> (accepted: u64)
    ensures
        accepted == throttled_amount(old(program_state).last_mint_amount, proposed_mint_value),
        final(program_state).last_mint_amount == accepted,
        *final(program_state) == (ProgramState { last_mint_amount: accepted, ..*old(program_state) }),
{
    let accepted = throttle_value(program_state.last_mint_amount, proposed_mint_value);
    program_state.last_mint_amount = accepted;
    accepted
}

/// The throttle never lets the recorded amount grow past three times the
/// previously accepted value: after any call on a state that has already
/// accepted a mint, the newly accepted amount is at most three times the old
/// one; and on a fresh state any value goes through.
pub proof fn lemma_throttle_bounds_growth(last: u64, proposed: u64)
    ensures
        last != 0 ==> throttled_amount(last, proposed) <= 3 * last,
        last == 0 ==> throttled_amount(last, proposed) == proposed,
{
}

} // verus!
