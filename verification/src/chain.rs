//! The slot state machine on a sponsor's chain, and the bounded ancestry
//! window: filling a slot, completing and resetting a chain, and appending
//! to the sliding window of nearest ancestors.

use vstd::prelude::*;
use crate::keys::Key;
use crate::accounts::{UplineEntry, UserAccount, MAX_UPLINE_DEPTH};
use crate::records::UserAccountModel;

verus! {

/// One slot fill on a chain: the arriving user's key is recorded in the next
/// slot and the fill count advances; when that was the third slot, the chain
/// completes — it restarts empty under the given fresh id — and the second
/// component is true. A chain already holding three fills is left untouched.
pub open spec fn spec_fill_slot(r: UserAccountModel, user: Key, next_chain_id: u32) -> (UserAccountModel, bool) {
    if r.filled_slots >= 3 {
        (r, false)
    } else if r.filled_slots == 2 {
        ((UserAccountModel {
            chain_id: next_chain_id,
            slots: seq![None, None, None],
            filled_slots: 0,
            ..r
        }), true)
    } else {
        ((UserAccountModel {
            slots: r.slots.update(r.filled_slots as int, Some(user)),
            filled_slots: (r.filled_slots + 1) as u8,
            ..r
        }), false)
    }
}

/// Record the arriving user in the sponsor's next chain slot, resetting the
/// chain under the fresh id when it completes.
pub fn process_referrer_chain(user_key: &Key, referrer: &mut UserAccount, next_chain_id: u32) -> (completed: bool)
    requires
        old(referrer).chain.slots@.len() == 3,
    ensures
        final(referrer)@ == spec_fill_slot(old(referrer)@, *user_key, next_chain_id).0,
        completed == spec_fill_slot(old(referrer)@, *user_key, next_chain_id).1,
{
    let slot_idx = referrer.chain.filled_slots;
    if slot_idx >= 3 {
        return false;
    }

    referrer.chain.slots.set(slot_idx as usize, Some(*user_key));
    referrer.chain.filled_slots = slot_idx + 1;

    if referrer.chain.filled_slots == 3 {
        referrer.chain.id = next_chain_id;
        let mut fresh: Vec<Option<Key>> = Vec::new();
        fresh.push(None);
        fresh.push(None);
        fresh.push(None);
        referrer.chain.slots = fresh;
        referrer.chain.filled_slots = 0;
        proof {
            assert(referrer.chain.slots@ =~= seq![None::<Key>, None::<Key>, None::<Key>]);
        }
        return true;
    }

    false
}

/// The ancestry window of a newly registering user: the sponsor's window
/// with the sponsor itself appended; when the sponsor's window is already at
/// capacity, only its newest five entries are kept, so the oldest entries
/// fall out and the result holds exactly six.
pub open spec fn spec_upline_window(prev: Seq<UplineEntry>, entry: UplineEntry) -> Seq<UplineEntry> {
    if prev.len() >= MAX_UPLINE_DEPTH {
        prev.skip(prev.len() - (MAX_UPLINE_DEPTH - 1)).push(entry)
    } else {
        prev.push(entry)
    }
}

/// Build the ancestry window for a new user from the sponsor's window and
/// the sponsor's own entry.
pub fn build_upline_window(prev: &Vec<UplineEntry>, entry: UplineEntry) -> (w: Vec<UplineEntry>)
    ensures
        w@ == spec_upline_window(prev@, entry),
{
    let mut w: Vec<UplineEntry> = Vec::new();
    let n = prev.len();
    let start: usize = if n >= MAX_UPLINE_DEPTH {
        n - (MAX_UPLINE_DEPTH - 1)
    } else {
        0
    };
    let mut i: usize = start;
    while i < n
        invariant
            start <= i <= n,
            n == prev@.len(),
            w@ == prev@.subrange(start as int, i as int),
        decreases n - i,
    {
        w.push(prev[i]);
        proof {
            assert(w@ =~= prev@.subrange(start as int, i + 1));
        }
        i = i + 1;
    }
    w.push(entry);
    proof {
        if n >= MAX_UPLINE_DEPTH {
            assert(prev@.subrange(start as int, n as int) =~= prev@.skip(prev@.len() - (MAX_UPLINE_DEPTH - 1)));
        } else {
            assert(prev@.subrange(0, n as int) =~= prev@);
        }
    }
    w
}

/// The ancestry window never exceeds its capacity: appending to a window of
/// at most six entries yields at most six; appending to one below capacity
/// keeps every entry and adds the new one; appending to one at capacity
/// first evicts exactly the oldest entry.
pub proof fn lemma_window_bounded(prev: Seq<UplineEntry>, entry: UplineEntry)
    requires
        prev.len() <= MAX_UPLINE_DEPTH,
    ensures
        spec_upline_window(prev, entry).len() <= MAX_UPLINE_DEPTH,
        prev.len() < MAX_UPLINE_DEPTH ==> spec_upline_window(prev, entry) == prev.push(entry),
        prev.len() == MAX_UPLINE_DEPTH ==> spec_upline_window(prev, entry) == prev.skip(1).push(entry),
{
}

/// Filling the three slots of a fresh chain in order: the first two fills
/// record the arrivals in slots 0 and 1; the third completes the chain,
/// which restarts empty under the fresh id, its slots cleared.
pub proof fn lemma_chain_cycle(r: UserAccountModel, u1: Key, u2: Key, u3: Key, id1: u32, id2: u32, id3: u32)
    requires
        r.filled_slots == 0,
        r.slots.len() == 3,
    ensures
        ({
            let (r1, c1) = spec_fill_slot(r, u1, id1);
            let (r2, c2) = spec_fill_slot(r1, u2, id2);
            let (r3, c3) = spec_fill_slot(r2, u3, id3);
            &&& !c1 && r1.filled_slots == 1 && r1.slots[0] == Some(u1) && r1.chain_id == r.chain_id
            &&& !c2 && r2.filled_slots == 2 && r2.slots[0] == Some(u1) && r2.slots[1] == Some(u2)
                && r2.chain_id == r.chain_id
            &&& c3 && r3.filled_slots == 0 && r3.chain_id == id3
            &&& forall|i: int| 0 <= i < 3 ==> r3.slots[i] is None
        }),
{
}

} // verus!
