//! The per-user account record, its ancestry window and slot chain, and the
//! global counter state.

use vstd::prelude::*;
use crate::keys::Key;

verus! {

/// How many ancestors an ancestry window keeps, and how many one call walks.
pub const MAX_UPLINE_DEPTH: usize = 6;

/// One ancestor: its account record's address and its owner's wallet.
/// Immutable once appended to an ancestry window.
#[derive(Clone, Copy, PartialEq, Eq, Structural, Debug)]
pub struct UplineEntry {
    /// Address of the ancestor's account record.
    pub pda: Key,
    /// The ancestor's wallet.
    pub wallet: Key,
}

/// An account's ancestry: a sliding window of its nearest ancestors,
/// oldest evicted first once the window holds [`MAX_UPLINE_DEPTH`] entries.
#[derive(Clone, PartialEq, Eq, Debug)]
pub struct ReferralUpline {
    pub id: u32,
    /// Distance from the root: the root has depth 1, a child one more than
    /// its sponsor.
    pub depth: u32,
    /// Nearest ancestors, farthest first, the direct sponsor last.
    pub upline: Vec<UplineEntry>,
}

/// An account's chain: three slots that direct registrants fill in order.
#[derive(Clone, PartialEq, Eq, Debug)]
pub struct ReferralChain {
    pub id: u32,
    /// Exactly the first `filled_slots` entries are occupied.
    pub slots: Vec<Option<Key>>,
    pub filled_slots: u8,
}

/// One user's account record.
#[derive(Clone, PartialEq, Eq, Debug)]
pub struct UserAccount {
    /// Set once at registration, never cleared.
    pub is_registered: bool,
    /// The direct sponsor's account address; immutable after creation.
    pub referrer: Option<Key>,
    pub owner_wallet: Key,
    pub upline: ReferralUpline,
    pub chain: ReferralChain,
    /// Escrowed deposit, held between this account's slot-1 and slot-2
    /// settlements.
    pub reserved_sol: u64,
    /// Escrowed minted reward, held over the same span.
    pub reserved_tokens: u64,
}

/// The global counters: created once, mutated on every registration.
#[derive(Clone, Copy, PartialEq, Eq, Structural, Debug)]
pub struct ProgramState {
    pub owner: Key,
    pub multisig_treasury: Key,
    /// Next ancestry-window id; strictly increasing, never reused.
    pub next_upline_id: u32,
    /// Next chain id; strictly increasing, never reused.
    pub next_chain_id: u32,
    /// The last reward amount the mint throttle accepted; zero before the
    /// first mint.
    pub last_mint_amount: u64,
}

/// One externally supplied ledger account, as the store hands it to a call:
/// its address, the program that owns it, and a copy of its data bytes.
pub struct AccountRecord {
    pub key: Key,
    pub owner_program: Key,
    pub data: Vec<u8>,
}

impl ReferralChain {
    /// A chain is well formed when it has exactly three slots and exactly the
    /// first `filled_slots` of them are occupied.
    pub open spec fn wf(self) -> bool {
        &&& self.slots.len() == 3
        &&& self.filled_slots <= 3
        &&& forall|i: int| 0 <= i < 3 ==>
                (self.slots[i] is Some <==> i < self.filled_slots)
    }

    /// A fresh chain under a given id: empty slots, nothing filled.
    pub open spec fn is_fresh(self, id: u32) -> bool {
        &&& self.wf()
        &&& self.id == id
        &&& self.filled_slots == 0
    }

    /// Build a fresh chain in executable code.
    pub fn new_fresh(id: u32) -> (c: ReferralChain)
        ensures
            c.is_fresh(id),
            forall|i: int| 0 <= i < 3 ==> c.slots@[i] is None,
    {
        let mut slots: Vec<Option<Key>> = Vec::new();
        slots.push(None);
        slots.push(None);
        slots.push(None);
        ReferralChain { id, slots, filled_slots: 0 }
    }
}

impl ReferralUpline {
    /// An ancestry window never holds more than [`MAX_UPLINE_DEPTH`] entries.
    pub open spec fn wf(self) -> bool {
        self.upline.len() <= MAX_UPLINE_DEPTH
    }
}

impl UserAccount {
    /// Well-formedness of a user account record.
    pub open spec fn wf(self) -> bool {
        &&& self.chain.wf()
        &&& self.upline.wf()
    }
}

} // verus!
