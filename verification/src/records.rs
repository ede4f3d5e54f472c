//! The byte format of ledger records this engine reads and writes: little-
//! endian integer fields, 32-byte keys, and the user-account record layout
//! (a fallible parse for records supplied out-of-band, and the serializer
//! that writes a mutated record back).

use vstd::prelude::*;
use crate::keys::Key;
use crate::accounts::{UplineEntry, ReferralUpline, ReferralChain, UserAccount};

verus! {

/// The little-endian 64-bit value held at `off` in `d`.
pub open spec fn le_u64_at(d: Seq<u8>, off: int) -> u64 {
    (d[off] + d[off + 1] * 0x100 + d[off + 2] * 0x10000 + d[off + 3] * 0x1000000
        + d[off + 4] * 0x100000000 + d[off + 5] * 0x10000000000
        + d[off + 6] * 0x1000000000000 + d[off + 7] * 0x100000000000000) as u64
}

/// The little-endian 32-bit value held at `off` in `d`.
pub open spec fn le_u32_at(d: Seq<u8>, off: int) -> u32 {
    (d[off] + d[off + 1] * 0x100 + d[off + 2] * 0x10000 + d[off + 3] * 0x1000000) as u32
}

/// The 32-byte key held at `off` in `d`, as four little-endian words.
pub open spec fn key_at(d: Seq<u8>, off: int) -> Key {
    Key {
        w0: le_u64_at(d, off),
        w1: le_u64_at(d, off + 8),
        w2: le_u64_at(d, off + 16),
        w3: le_u64_at(d, off + 24),
    }
}

/// The eight little-endian bytes of a 64-bit value.
#[verifier::opaque]
pub open spec fn le_bytes8(v: u64) -> Seq<u8> {
    seq![
        (v % 0x100) as u8,
        ((v / 0x100) % 0x100) as u8,
        ((v / 0x10000) % 0x100) as u8,
        ((v / 0x1000000) % 0x100) as u8,
        ((v / 0x100000000) % 0x100) as u8,
        ((v / 0x10000000000) % 0x100) as u8,
        ((v / 0x1000000000000) % 0x100) as u8,
        ((v / 0x100000000000000) % 0x100) as u8,
    ]
}

/// The four little-endian bytes of a 32-bit value.
#[verifier::opaque]
pub open spec fn le_bytes4(v: u32) -> Seq<u8> {
    seq![
        (v % 0x100) as u8,
        ((v / 0x100) % 0x100) as u8,
        ((v / 0x10000) % 0x100) as u8,
        ((v / 0x1000000) % 0x100) as u8,
    ]
}

/// The 32 bytes of a key: its four words, little-endian, in order.
pub open spec fn key_bytes(k: Key) -> Seq<u8> {
    le_bytes8(k.w0) + le_bytes8(k.w1) + le_bytes8(k.w2) + le_bytes8(k.w3)
}

/// A serialized 64-bit value is eight bytes.
pub proof fn lemma_le_bytes8_len(v: u64)
    ensures
        le_bytes8(v).len() == 8,
{
    reveal(le_bytes8);
}

/// A serialized 32-bit value is four bytes.
pub proof fn lemma_le_bytes4_len(v: u32)
    ensures
        le_bytes4(v).len() == 4,
{
    reveal(le_bytes4);
}

/// A serialized key is 32 bytes.
pub proof fn lemma_key_bytes_len(k: Key)
    ensures
        key_bytes(k).len() == 32,
{
    reveal(le_bytes8);
}

/// Read the little-endian 64-bit value at `off`.
pub fn read_u64_le(d: &Vec<u8>, off: usize) -> (v: u64)
    requires
        off + 8 <= d@.len(),
    ensures
        v == le_u64_at(d@, off as int),
{
    proof {
        vstd::std_specs::vec::axiom_spec_len(d);
    }
    let b0 = d[off] as u64;
    let b1 = d[off + 1] as u64;
    let b2 = d[off + 2] as u64;
    let b3 = d[off + 3] as u64;
    let b4 = d[off + 4] as u64;
    let b5 = d[off + 5] as u64;
    let b6 = d[off + 6] as u64;
    let b7 = d[off + 7] as u64;
    b0 + b1 * 0x100 + b2 * 0x10000 + b3 * 0x1000000 + b4 * 0x100000000
        + b5 * 0x10000000000 + b6 * 0x1000000000000 + b7 * 0x100000000000000
}

/// Read the little-endian 32-bit value at `off`.
pub fn read_u32_le(d: &Vec<u8>, off: usize) -> (v: u32)
    requires
        off + 4 <= d@.len(),
    ensures
        v == le_u32_at(d@, off as int),
{
    proof {
        vstd::std_specs::vec::axiom_spec_len(d);
    }
    let b0 = d[off] as u32;
    let b1 = d[off + 1] as u32;
    let b2 = d[off + 2] as u32;
    let b3 = d[off + 3] as u32;
    b0 + b1 * 0x100 + b2 * 0x10000 + b3 * 0x1000000
}

/// Read the 32-byte key at `off`.
pub fn read_key_at(d: &Vec<u8>, off: usize) -> (k: Key)
    requires
        off + 32 <= d@.len(),
    ensures
        k == key_at(d@, off as int),
{
    proof {
        vstd::std_specs::vec::axiom_spec_len(d);
    }
    Key {
        w0: read_u64_le(d, off),
        w1: read_u64_le(d, off + 8),
        w2: read_u64_le(d, off + 16),
        w3: read_u64_le(d, off + 24),
    }
}

/// Append the eight little-endian bytes of `v`.
pub fn push_u64_le(out: &mut Vec<u8>, v: u64)
    ensures
        final(out)@ == old(out)@ + le_bytes8(v),
{
    out.push((v % 0x100) as u8);
    out.push(((v / 0x100) % 0x100) as u8);
    out.push(((v / 0x10000) % 0x100) as u8);
    out.push(((v / 0x1000000) % 0x100) as u8);
    out.push(((v / 0x100000000) % 0x100) as u8);
    out.push(((v / 0x10000000000) % 0x100) as u8);
    out.push(((v / 0x1000000000000) % 0x100) as u8);
    out.push(((v / 0x100000000000000) % 0x100) as u8);
    proof {
        reveal(le_bytes8);
        assert(out@ =~= old(out)@ + le_bytes8(v));
    }
}

/// Append the four little-endian bytes of `v`.
pub fn push_u32_le(out: &mut Vec<u8>, v: u32)
    ensures
        final(out)@ == old(out)@ + le_bytes4(v),
{
    out.push((v % 0x100) as u8);
    out.push(((v / 0x100) % 0x100) as u8);
    out.push(((v / 0x10000) % 0x100) as u8);
    out.push(((v / 0x1000000) % 0x100) as u8);
    proof {
        reveal(le_bytes4);
        assert(out@ =~= old(out)@ + le_bytes4(v));
    }
}

/// Append the 32 bytes of a key.
pub fn push_key(out: &mut Vec<u8>, k: &Key)
    ensures
        final(out)@ == old(out)@ + key_bytes(*k),
{
    push_u64_le(out, k.w0);
    push_u64_le(out, k.w1);
    push_u64_le(out, k.w2);
    push_u64_le(out, k.w3);
    proof {
        reveal(le_bytes8);
        assert(out@ =~= old(out)@ + key_bytes(*k));
    }
}

/// The mathematical model of a user-account record: every field as a plain
/// value, the two bounded lists as sequences.
pub ghost struct UserAccountModel {
    pub is_registered: bool,
    pub referrer: Option<Key>,
    pub owner_wallet: Key,
    pub upline_id: u32,
    pub upline_depth: u32,
    pub upline: Seq<UplineEntry>,
    pub chain_id: u32,
    pub slots: Seq<Option<Key>>,
    pub filled_slots: u8,
    pub reserved_sol: u64,
    pub reserved_tokens: u64,
}

impl View for UserAccount {
    type V = UserAccountModel;

    open spec fn view(&self) -> UserAccountModel {
        UserAccountModel {
            is_registered: self.is_registered,
            referrer: self.referrer,
            owner_wallet: self.owner_wallet,
            upline_id: self.upline.id,
            upline_depth: self.upline.depth,
            upline: self.upline.upline@,
            chain_id: self.chain.id,
            slots: self.chain.slots@,
            filled_slots: self.chain.filled_slots,
            reserved_sol: self.reserved_sol,
            reserved_tokens: self.reserved_tokens,
        }
    }
}

/// Parse one byte that must be 0 or 1.
pub open spec fn p_bool(d: Seq<u8>, off: int) -> Option<(bool, int)> {
    if 0 <= off && off + 1 <= d.len() && (d[off] == 0 || d[off] == 1) {
        Some((d[off] == 1, off + 1))
    } else {
        None
    }
}

/// Parse one arbitrary byte.
pub open spec fn p_u8(d: Seq<u8>, off: int) -> Option<(u8, int)> {
    if 0 <= off && off + 1 <= d.len() {
        Some((d[off], off + 1))
    } else {
        None
    }
}

/// Parse a little-endian 32-bit value.
pub open spec fn p_u32(d: Seq<u8>, off: int) -> Option<(u32, int)> {
    if 0 <= off && off + 4 <= d.len() {
        Some((le_u32_at(d, off), off + 4))
    } else {
        None
    }
}

/// Parse a little-endian 64-bit value.
pub open spec fn p_u64(d: Seq<u8>, off: int) -> Option<(u64, int)> {
    if 0 <= off && off + 8 <= d.len() {
        Some((le_u64_at(d, off), off + 8))
    } else {
        None
    }
}

/// Parse a 32-byte key.
pub open spec fn p_key(d: Seq<u8>, off: int) -> Option<(Key, int)> {
    if 0 <= off && off + 32 <= d.len() {
        Some((key_at(d, off), off + 32))
    } else {
        None
    }
}

/// Parse an optional key: a tag byte that must be 0 or 1, then the key when
/// the tag is 1.
pub open spec fn p_opt_key(d: Seq<u8>, off: int) -> Option<(Option<Key>, int)> {
    match p_u8(d, off) {
        Some(t) => {
            if t.0 == 0 {
                Some((None, t.1))
            } else if t.0 == 1 {
                match p_key(d, t.1) {
                    Some(k) => Some((Some(k.0), k.1)),
                    None => None,
                }
            } else {
                None
            }
        },
        None => None,
    }
}

/// Parse `n` ancestry entries, each a pair of keys.
pub open spec fn p_entries(d: Seq<u8>, off: int, n: nat) -> Option<(Seq<UplineEntry>, int)>
    decreases n,
{
    if n == 0 {
        if 0 <= off {
            Some((Seq::empty(), off))
        } else {
            None
        }
    } else {
        match p_key(d, off) {
            Some(pda) => match p_key(d, pda.1) {
                Some(wallet) => match p_entries(d, wallet.1, (n - 1) as nat) {
                    Some(rest) => Some((
                        seq![UplineEntry { pda: pda.0, wallet: wallet.0 }] + rest.0,
                        rest.1,
                    )),
                    None => None,
                },
                None => None,
            },
            None => None,
        }
    }
}

/// Parse a full user-account record starting at `off`: the flags and keys,
/// the ancestry window with its length-prefixed entry list, the chain with
/// its three optional slots, and the two escrow amounts. Trailing bytes after
/// the record are ignored.
pub open spec fn spec_parse_user_account(d: Seq<u8>, off: int) -> Option<UserAccountModel> {
    match p_bool(d, off) {
        Some(reg) => match p_opt_key(d, reg.1) {
            Some(referrer) => match p_key(d, referrer.1) {
                Some(wallet) => match p_u32(d, wallet.1) {
                    Some(uid) => match p_u32(d, uid.1) {
                        Some(depth) => match p_u32(d, depth.1) {
                            Some(count) => match p_entries(d, count.1, count.0 as nat) {
                                Some(entries) => match p_u32(d, entries.1) {
                                    Some(cid) => match p_opt_key(d, cid.1) {
                                        Some(s0) => match p_opt_key(d, s0.1) {
                                            Some(s1) => match p_opt_key(d, s1.1) {
                                                Some(s2) => match p_u8(d, s2.1) {
                                                    Some(filled) => match p_u64(d, filled.1) {
                                                        Some(rsol) => match p_u64(d, rsol.1) {
                                                            Some(rtok) => Some(UserAccountModel {
                                                                is_registered: reg.0,
                                                                referrer: referrer.0,
                                                                owner_wallet: wallet.0,
                                                                upline_id: uid.0,
                                                                upline_depth: depth.0,
                                                                upline: entries.0,
                                                                chain_id: cid.0,
                                                                slots: seq![s0.0, s1.0, s2.0],
                                                                filled_slots: filled.0,
                                                                reserved_sol: rsol.0,
                                                                reserved_tokens: rtok.0,
                                                            }),
                                                            None => None,
                                                        },
                                                        None => None,
                                                    },
                                                    None => None,
                                                },
                                                None => None,
                                            },
                                            None => None,
                                        },
                                        None => None,
                                    },
                                    None => None,
                                },
                                None => None,
                            },
                            None => None,
                        },
                        None => None,
                    },
                    None => None,
                },
                None => None,
            },
            None => None,
        },
        None => None,
    }
}

/// What a run of [`p_entries`] amounts to: it succeeds exactly when the
/// input holds `64 * n` bytes from `off` on (or `n` is zero), and then yields
/// the `n` key pairs laid out back to back.
pub proof fn lemma_p_entries_shape(d: Seq<u8>, off: int, n: nat)
    requires
        0 <= off,
    ensures
        (p_entries(d, off, n) is Some) <==> (n == 0 || off + 64 * n <= d.len()),
        (p_entries(d, off, n) matches Some(res) ==> res.1 == off + 64 * n && res.0.len() == n
            && (forall|i: int| 0 <= i < n ==> #[trigger] res.0[i]
                == (UplineEntry { pda: key_at(d, off + 64 * i), wallet: key_at(d, off + 64 * i + 32) }))),
    decreases n,
{
    if n > 0 {
        lemma_p_entries_shape(d, off + 64, (n - 1) as nat);
        if off + 64 * n <= d.len() {
            let head = UplineEntry { pda: key_at(d, off), wallet: key_at(d, off + 32) };
            let rest = p_entries(d, off + 64, (n - 1) as nat).unwrap();
            let res = p_entries(d, off, n).unwrap();
            assert(res.0 == seq![head] + rest.0);
            assert forall|i: int| 0 <= i < n implies #[trigger] res.0[i]
                == (UplineEntry { pda: key_at(d, off + 64 * i), wallet: key_at(d, off + 64 * i + 32) }) by {
                if i > 0 {
                    assert(res.0[i] == rest.0[i - 1]);
                    assert(off + 64 + 64 * (i - 1) == off + 64 * i);
                }
            }
        }
    }
}

/// Read one byte that must be 0 or 1.
fn e_bool(d: &Vec<u8>, off: usize) -> (r: Option<(bool, usize)>)
    ensures
        (r is Some) == (p_bool(d@, off as int) is Some),
        (r matches Some(v) ==> p_bool(d@, off as int) == Some((v.0, v.1 as int))),
{
    if off < d.len() {
        let b = d[off];
        if b == 0 || b == 1 {
            Some((b == 1, off + 1))
        } else {
            None
        }
    } else {
        None
    }
}

/// Read one arbitrary byte.
fn e_u8(d: &Vec<u8>, off: usize) -> (r: Option<(u8, usize)>)
    ensures
        (r is Some) == (p_u8(d@, off as int) is Some),
        (r matches Some(v) ==> p_u8(d@, off as int) == Some((v.0, v.1 as int))),
{
    if off < d.len() {
        Some((d[off], off + 1))
    } else {
        None
    }
}

/// Read a little-endian 32-bit field.
fn e_u32(d: &Vec<u8>, off: usize) -> (r: Option<(u32, usize)>)
    ensures
        (r is Some) == (p_u32(d@, off as int) is Some),
        (r matches Some(v) ==> p_u32(d@, off as int) == Some((v.0, v.1 as int))),
{
    if off <= d.len() && d.len() - off >= 4 {
        Some((read_u32_le(d, off), off + 4))
    } else {
        None
    }
}

/// Read a little-endian 64-bit field.
fn e_u64(d: &Vec<u8>, off: usize) -> (r: Option<(u64, usize)>)
    ensures
        (r is Some) == (p_u64(d@, off as int) is Some),
        (r matches Some(v) ==> p_u64(d@, off as int) == Some((v.0, v.1 as int))),
{
    if off <= d.len() && d.len() - off >= 8 {
        Some((read_u64_le(d, off), off + 8))
    } else {
        None
    }
}

/// Read a 32-byte key field.
fn e_key(d: &Vec<u8>, off: usize) -> (r: Option<(Key, usize)>)
    ensures
        (r is Some) == (p_key(d@, off as int) is Some),
        (r matches Some(v) ==> p_key(d@, off as int) == Some((v.0, v.1 as int))),
{
    if off <= d.len() && d.len() - off >= 32 {
        Some((read_key_at(d, off), off + 32))
    } else {
        None
    }
}

/// Read an optional key field.
fn e_opt_key(d: &Vec<u8>, off: usize) -> (r: Option<(Option<Key>, usize)>)
    ensures
        (r is Some) == (p_opt_key(d@, off as int) is Some),
        (r matches Some(v) ==> p_opt_key(d@, off as int) == Some((v.0, v.1 as int))),
{
    let t = match e_u8(d, off) {
        Some(t) => t,
        None => {
            return None;
        },
    };
    if t.0 == 0 {
        Some((None, t.1))
    } else if t.0 == 1 {
        match e_key(d, t.1) {
            Some(k) => Some((Some(k.0), k.1)),
            None => None,
        }
    } else {
        None
    }
}

/// Read `n` ancestry entries.
fn e_entries(d: &Vec<u8>, off: usize, n: u32) -> (r: Option<(Vec<UplineEntry>, usize)>)
    ensures
        (r is Some) == (p_entries(d@, off as int, n as nat) is Some),
        (r matches Some(v) ==> p_entries(d@, off as int, n as nat) == Some((v.0@, v.1 as int))),
{
    proof {
        lemma_p_entries_shape(d@, off as int, n as nat);
        vstd::std_specs::vec::axiom_spec_len(d);
    }
    if n == 0 {
        let out: Vec<UplineEntry> = Vec::new();
        return Some((out, off));
    }
    let len = d.len();
    if off > len {
        return None;
    }
    if (n as u64) > ((len - off) as u64) / 64 {
        return None;
    }
    let mut out: Vec<UplineEntry> = Vec::new();
    let mut i: u32 = 0;
    while i < n
        invariant
            off + 64 * (n as int) <= d@.len(),
            d@.len() <= usize::MAX,
            i <= n,
            out@.len() == i,
            forall|j: int| 0 <= j < i ==> #[trigger] out@[j]
                == (UplineEntry {
                    pda: key_at(d@, off + 64 * j),
                    wallet: key_at(d@, off + 64 * j + 32),
                }),
        decreases n - i,
    {
        let base: usize = off + 64 * (i as usize);
        let pda = read_key_at(d, base);
        let wallet = read_key_at(d, base + 32);
        out.push(UplineEntry { pda, wallet });
        i = i + 1;
    }
    let end: usize = off + 64 * (n as usize);
    proof {
        let res = p_entries(d@, off as int, n as nat).unwrap();
        assert(out@ =~= res.0);
    }
    Some((out, end))
}

/// Parse a full user-account record starting at `off`, as
/// [`spec_parse_user_account`] describes; `None` on any malformed field or
/// truncated input.
pub fn parse_user_account(d: &Vec<u8>, off: usize) -> (r: Option<UserAccount>)
    ensures
        (r is Some) == (spec_parse_user_account(d@, off as int) is Some),
        (r matches Some(u) ==> spec_parse_user_account(d@, off as int) == Some(u@)),
{
    let reg = match e_bool(d, off) { Some(x) => x, None => { return None; } };
    let referrer = match e_opt_key(d, reg.1) { Some(x) => x, None => { return None; } };
    let wallet = match e_key(d, referrer.1) { Some(x) => x, None => { return None; } };
    let uid = match e_u32(d, wallet.1) { Some(x) => x, None => { return None; } };
    let depth = match e_u32(d, uid.1) { Some(x) => x, None => { return None; } };
    let count = match e_u32(d, depth.1) { Some(x) => x, None => { return None; } };
    let entries = match e_entries(d, count.1, count.0) { Some(x) => x, None => { return None; } };
    let cid = match e_u32(d, entries.1) { Some(x) => x, None => { return None; } };
    let s0 = match e_opt_key(d, cid.1) { Some(x) => x, None => { return None; } };
    let s1 = match e_opt_key(d, s0.1) { Some(x) => x, None => { return None; } };
    let s2 = match e_opt_key(d, s1.1) { Some(x) => x, None => { return None; } };
    let filled = match e_u8(d, s2.1) { Some(x) => x, None => { return None; } };
    let rsol = match e_u64(d, filled.1) { Some(x) => x, None => { return None; } };
    let rtok = match e_u64(d, rsol.1) { Some(x) => x, None => { return None; } };

    let mut slots: Vec<Option<Key>> = Vec::new();
    slots.push(s0.0);
    slots.push(s1.0);
    slots.push(s2.0);

    let u = UserAccount {
        is_registered: reg.0,
        referrer: referrer.0,
        owner_wallet: wallet.0,
        upline: ReferralUpline { id: uid.0, depth: depth.0, upline: entries.0 },
        chain: ReferralChain { id: cid.0, slots, filled_slots: filled.0 },
        reserved_sol: rsol.0,
        reserved_tokens: rtok.0,
    };
    proof {
        let m = spec_parse_user_account(d@, off as int).unwrap();
        assert(u@.slots =~= m.slots);
        assert(u@ == m);
    }
    Some(u)
}

/// The serialized form of a flag byte.
pub open spec fn spec_ser_bool(b: bool) -> Seq<u8> {
    if b {
        seq![1u8]
    } else {
        seq![0u8]
    }
}

/// The serialized form of an optional key: a tag byte, then the key when
/// present.
pub open spec fn spec_ser_opt_key(o: Option<Key>) -> Seq<u8> {
    match o {
        None => seq![0u8],
        Some(k) => seq![1u8] + key_bytes(k),
    }
}

/// The serialized form of an ancestry entry list: the key pairs back to back.
pub open spec fn spec_ser_entries(s: Seq<UplineEntry>) -> Seq<u8>
    decreases s.len(),
{
    if s.len() == 0 {
        Seq::empty()
    } else {
        key_bytes(s[0].pda) + key_bytes(s[0].wallet) + spec_ser_entries(s.skip(1))
    }
}

/// The serialized form of a user-account record, field by field in record
/// order; the entry list carries its length as a 32-bit prefix.
pub open spec fn spec_ser_user_account(m: UserAccountModel) -> Seq<u8> {
    spec_ser_bool(m.is_registered) + spec_ser_opt_key(m.referrer) + key_bytes(m.owner_wallet)
        + le_bytes4(m.upline_id) + le_bytes4(m.upline_depth) + le_bytes4(m.upline.len() as u32)
        + spec_ser_entries(m.upline) + le_bytes4(m.chain_id)
        + spec_ser_opt_key(m.slots[0]) + spec_ser_opt_key(m.slots[1]) + spec_ser_opt_key(m.slots[2])
        + seq![m.filled_slots] + le_bytes8(m.reserved_sol) + le_bytes8(m.reserved_tokens)
}

/// Pushing an element is the same as appending a singleton.
pub proof fn lemma_push_is_concat<A>(a: Seq<A>, x: A)
    ensures
        a.push(x) == a + seq![x],
{
    assert(a.push(x) =~= a + seq![x]);
}

/// Concatenation of sequences is associative.
pub proof fn lemma_seq_assoc<A>(a: Seq<A>, b: Seq<A>, c: Seq<A>)
    ensures
        (a + b) + c == a + (b + c),
{
    assert((a + b) + c =~= a + (b + c));
}

/// The empty sequence is a left and right identity of concatenation.
pub proof fn lemma_seq_empty_identity<A>(a: Seq<A>)
    ensures
        a + Seq::<A>::empty() == a,
        Seq::<A>::empty() + a == a,
{
    assert(a + Seq::<A>::empty() =~= a);
    assert(Seq::<A>::empty() + a =~= a);
}

/// Serializing one more entry appends its two keys at the end.
pub proof fn lemma_ser_entries_snoc(s: Seq<UplineEntry>, e: UplineEntry)
    ensures
        spec_ser_entries(s.push(e)) == spec_ser_entries(s) + key_bytes(e.pda) + key_bytes(e.wallet),
    decreases s.len(),
{
    let kp = key_bytes(e.pda);
    let kw = key_bytes(e.wallet);
    if s.len() == 0 {
        assert(s.push(e)[0] == e);
        assert(s.push(e).skip(1) =~= Seq::<UplineEntry>::empty());
        assert(spec_ser_entries(s.push(e)) == kp + kw + spec_ser_entries(Seq::<UplineEntry>::empty()));
        lemma_seq_empty_identity(kp + kw);
        lemma_seq_empty_identity(kp);
        assert(spec_ser_entries(s) + kp + kw == (Seq::<u8>::empty() + kp) + kw);
    } else {
        let a = key_bytes(s[0].pda);
        let b = key_bytes(s[0].wallet);
        let rest = spec_ser_entries(s.skip(1));
        assert(s.push(e).skip(1) =~= s.skip(1).push(e));
        lemma_ser_entries_snoc(s.skip(1), e);
        assert(s.push(e)[0] == s[0]);
        // spec_ser_entries(s.push(e)) == (a + b) + ((rest + kp) + kw)
        // spec_ser_entries(s) + kp + kw == (((a + b) + rest) + kp) + kw
        lemma_seq_assoc(a + b, rest + kp, kw);
        lemma_seq_assoc(a + b, rest, kp);
        assert(spec_ser_entries(s.push(e)) == ((a + b) + (rest + kp)) + kw);
    }
}

/// Append the serialized form of an optional key.
fn push_opt_key(out: &mut Vec<u8>, o: &Option<Key>)
    ensures
        final(out)@ == old(out)@ + spec_ser_opt_key(*o),
{
    match o {
        None => {
            out.push(0);
            proof {
                lemma_push_is_concat(old(out)@, 0u8);
            }
        },
        Some(k) => {
            out.push(1);
            push_key(out, k);
            proof {
                lemma_push_is_concat(old(out)@, 1u8);
                lemma_seq_assoc(old(out)@, seq![1u8], key_bytes(*k));
            }
        },
    }
}

/// Serialize a user-account record, exactly as [`spec_ser_user_account`]
/// lays it out.
pub fn serialize_user_account(u: &UserAccount) -> (out: Vec<u8>)
    requires
        u.upline.upline@.len() <= u32::MAX,
        u.chain.slots@.len() == 3,
    ensures
        out@ == spec_ser_user_account(u@),
{
    let mut out: Vec<u8> = Vec::new();
    out.push(if u.is_registered { 1 } else { 0 });
    proof {
        assert(out@ =~= spec_ser_bool(u.is_registered));
    }
    push_opt_key(&mut out, &u.referrer);
    push_key(&mut out, &u.owner_wallet);
    push_u32_le(&mut out, u.upline.id);
    push_u32_le(&mut out, u.upline.depth);
    let n = u.upline.upline.len();
    push_u32_le(&mut out, n as u32);

    let ghost prefix: Seq<u8> = out@;
    proof {
        assert(u.upline.upline@.take(0) =~= Seq::<UplineEntry>::empty());
        lemma_seq_empty_identity(prefix);
    }
    let mut i: usize = 0;
    while i < n
        invariant
            n == u.upline.upline@.len(),
            i <= n,
            out@ == prefix + spec_ser_entries(u.upline.upline@.take(i as int)),
        decreases n - i,
    {
        let e = &u.upline.upline[i];
        push_key(&mut out, &e.pda);
        push_key(&mut out, &e.wallet);
        proof {
            let entries = u.upline.upline@;
            let done = entries.take(i as int);
            let kp = key_bytes(entries[i as int].pda);
            let kw = key_bytes(entries[i as int].wallet);
            lemma_ser_entries_snoc(done, entries[i as int]);
            assert(entries.take(i + 1) =~= done.push(entries[i as int]));
            lemma_seq_assoc(prefix, spec_ser_entries(done), kp);
            lemma_seq_assoc(prefix, spec_ser_entries(done) + kp, kw);
        }
        i = i + 1;
    }
    proof {
        assert(u.upline.upline@.take(n as int) =~= u.upline.upline@);
    }

    push_u32_le(&mut out, u.chain.id);
    push_opt_key(&mut out, &u.chain.slots[0]);
    push_opt_key(&mut out, &u.chain.slots[1]);
    push_opt_key(&mut out, &u.chain.slots[2]);
    let ghost before_filled: Seq<u8> = out@;
    out.push(u.chain.filled_slots);
    proof {
        lemma_push_is_concat(before_filled, u.chain.filled_slots);
    }
    push_u64_le(&mut out, u.reserved_sol);
    push_u64_le(&mut out, u.reserved_tokens);
    out
}

/// The serialized entry list is 64 bytes per entry.
#[verifier::rlimit(50)]
pub proof fn lemma_ser_entries_len(s: Seq<UplineEntry>)
    ensures
        spec_ser_entries(s).len() == 64 * s.len(),
    decreases s.len(),
{
    if s.len() > 0 {
        lemma_ser_entries_len(s.skip(1));
        lemma_key_bytes_len(s[0].pda);
        lemma_key_bytes_len(s[0].wallet);
        assert(spec_ser_entries(s).len()
            == 64 + spec_ser_entries(s.skip(1)).len());
    }
}

/// The head of the unread tail is the chunk, byte for byte, and skipping
/// the chunk leaves the rest.
proof fn lemma_skip_split(d: Seq<u8>, off: int, chunk: Seq<u8>, rest: Seq<u8>)
    requires
        0 <= off <= d.len(),
        d.skip(off) == chunk + rest,
    ensures
        off + chunk.len() <= d.len(),
        forall|i: int| 0 <= i < chunk.len() ==> #[trigger] d[off + i] == chunk[i],
        d.skip(off + chunk.len()) == rest,
{
    assert(d.skip(off).len() == d.len() - off);
    assert forall|i: int| 0 <= i < chunk.len() implies #[trigger] d[off + i] == chunk[i] by {
        assert(d.skip(off)[i] == d[off + i]);
        assert((chunk + rest)[i] == chunk[i]);
    }
    let k = chunk.len() as int;
    assert forall|i: int| 0 <= i < rest.len() implies d.skip(off + k)[i] == rest[i] by {
        assert(d.skip(off + k)[i] == d[off + k + i]);
        assert(d.skip(off)[k + i] == d[off + k + i]);
        assert((chunk + rest)[k + i] == rest[i]);
    }
    assert(d.skip(off + k) =~= rest);
}

/// Parsing one byte at the head of the unread tail.
proof fn lemma_step_u8(d: Seq<u8>, off: int, b: u8, rest: Seq<u8>)
    requires
        0 <= off <= d.len(),
        d.skip(off) == seq![b] + rest,
    ensures
        p_u8(d, off) == Some((b, off + 1)),
        off + 1 <= d.len(),
        d.skip(off + 1) == rest,
{
    lemma_skip_split(d, off, seq![b], rest);
    assert(d[off + 0] == b);
}

/// Parsing a serialized flag byte at the head of the unread tail.
proof fn lemma_step_bool(d: Seq<u8>, off: int, b: bool, rest: Seq<u8>)
    requires
        0 <= off <= d.len(),
        d.skip(off) == spec_ser_bool(b) + rest,
    ensures
        p_bool(d, off) == Some((b, off + 1)),
        off + 1 <= d.len(),
        d.skip(off + 1) == rest,
{
    lemma_skip_split(d, off, spec_ser_bool(b), rest);
    assert(d[off + 0] == spec_ser_bool(b)[0]);
}

/// Parsing a serialized 32-bit field at the head of the unread tail.
proof fn lemma_step_u32(d: Seq<u8>, off: int, v: u32, rest: Seq<u8>)
    requires
        0 <= off <= d.len(),
        d.skip(off) == le_bytes4(v) + rest,
    ensures
        p_u32(d, off) == Some((v, off + 4)),
        off + 4 <= d.len(),
        d.skip(off + 4) == rest,
{
    lemma_le_bytes4_len(v);
    lemma_skip_split(d, off, le_bytes4(v), rest);
    assert(d[off + 0] == le_bytes4(v)[0]);
    assert(d[off + 1] == le_bytes4(v)[1]);
    assert(d[off + 2] == le_bytes4(v)[2]);
    assert(d[off + 3] == le_bytes4(v)[3]);
    lemma_le_u32_roundtrip(v);
    assert(le_u32_at(d, off) == v);
}

/// Parsing a serialized 64-bit field at the head of the unread tail.
proof fn lemma_step_u64(d: Seq<u8>, off: int, v: u64, rest: Seq<u8>)
    requires
        0 <= off <= d.len(),
        d.skip(off) == le_bytes8(v) + rest,
    ensures
        p_u64(d, off) == Some((v, off + 8)),
        off + 8 <= d.len(),
        d.skip(off + 8) == rest,
{
    lemma_le_bytes8_len(v);
    lemma_skip_split(d, off, le_bytes8(v), rest);
    assert(d[off + 0] == le_bytes8(v)[0]);
    assert(d[off + 1] == le_bytes8(v)[1]);
    assert(d[off + 2] == le_bytes8(v)[2]);
    assert(d[off + 3] == le_bytes8(v)[3]);
    assert(d[off + 4] == le_bytes8(v)[4]);
    assert(d[off + 5] == le_bytes8(v)[5]);
    assert(d[off + 6] == le_bytes8(v)[6]);
    assert(d[off + 7] == le_bytes8(v)[7]);
    lemma_le_u64_roundtrip(v);
    assert(le_u64_at(d, off) == v);
}

/// Reading a key whose 32 serialized bytes sit at `off`.
proof fn lemma_key_at_of(d: Seq<u8>, off: int, k: Key)
    requires
        forall|i: int| 0 <= i < 32 ==> #[trigger] d[off + i] == key_bytes(k)[i],
    ensures
        key_at(d, off) == k,
{
    lemma_le_bytes8_len(k.w0);
    lemma_le_bytes8_len(k.w1);
    lemma_le_bytes8_len(k.w2);
    lemma_le_bytes8_len(k.w3);
    assert(key_bytes(k)[0] == le_bytes8(k.w0)[0]);
    assert(d[off + 0] == le_bytes8(k.w0)[0]);
    assert(key_bytes(k)[1] == le_bytes8(k.w0)[1]);
    assert(d[off + 1] == le_bytes8(k.w0)[1]);
    assert(key_bytes(k)[2] == le_bytes8(k.w0)[2]);
    assert(d[off + 2] == le_bytes8(k.w0)[2]);
    assert(key_bytes(k)[3] == le_bytes8(k.w0)[3]);
    assert(d[off + 3] == le_bytes8(k.w0)[3]);
    assert(key_bytes(k)[4] == le_bytes8(k.w0)[4]);
    assert(d[off + 4] == le_bytes8(k.w0)[4]);
    assert(key_bytes(k)[5] == le_bytes8(k.w0)[5]);
    assert(d[off + 5] == le_bytes8(k.w0)[5]);
    assert(key_bytes(k)[6] == le_bytes8(k.w0)[6]);
    assert(d[off + 6] == le_bytes8(k.w0)[6]);
    assert(key_bytes(k)[7] == le_bytes8(k.w0)[7]);
    assert(d[off + 7] == le_bytes8(k.w0)[7]);
    assert(key_bytes(k)[8] == le_bytes8(k.w1)[0]);
    assert(d[off + 8] == le_bytes8(k.w1)[0]);
    assert(key_bytes(k)[9] == le_bytes8(k.w1)[1]);
    assert(d[off + 9] == le_bytes8(k.w1)[1]);
    assert(key_bytes(k)[10] == le_bytes8(k.w1)[2]);
    assert(d[off + 10] == le_bytes8(k.w1)[2]);
    assert(key_bytes(k)[11] == le_bytes8(k.w1)[3]);
    assert(d[off + 11] == le_bytes8(k.w1)[3]);
    assert(key_bytes(k)[12] == le_bytes8(k.w1)[4]);
    assert(d[off + 12] == le_bytes8(k.w1)[4]);
    assert(key_bytes(k)[13] == le_bytes8(k.w1)[5]);
    assert(d[off + 13] == le_bytes8(k.w1)[5]);
    assert(key_bytes(k)[14] == le_bytes8(k.w1)[6]);
    assert(d[off + 14] == le_bytes8(k.w1)[6]);
    assert(key_bytes(k)[15] == le_bytes8(k.w1)[7]);
    assert(d[off + 15] == le_bytes8(k.w1)[7]);
    assert(key_bytes(k)[16] == le_bytes8(k.w2)[0]);
    assert(d[off + 16] == le_bytes8(k.w2)[0]);
    assert(key_bytes(k)[17] == le_bytes8(k.w2)[1]);
    assert(d[off + 17] == le_bytes8(k.w2)[1]);
    assert(key_bytes(k)[18] == le_bytes8(k.w2)[2]);
    assert(d[off + 18] == le_bytes8(k.w2)[2]);
    assert(key_bytes(k)[19] == le_bytes8(k.w2)[3]);
    assert(d[off + 19] == le_bytes8(k.w2)[3]);
    assert(key_bytes(k)[20] == le_bytes8(k.w2)[4]);
    assert(d[off + 20] == le_bytes8(k.w2)[4]);
    assert(key_bytes(k)[21] == le_bytes8(k.w2)[5]);
    assert(d[off + 21] == le_bytes8(k.w2)[5]);
    assert(key_bytes(k)[22] == le_bytes8(k.w2)[6]);
    assert(d[off + 22] == le_bytes8(k.w2)[6]);
    assert(key_bytes(k)[23] == le_bytes8(k.w2)[7]);
    assert(d[off + 23] == le_bytes8(k.w2)[7]);
    assert(key_bytes(k)[24] == le_bytes8(k.w3)[0]);
    assert(d[off + 24] == le_bytes8(k.w3)[0]);
    assert(key_bytes(k)[25] == le_bytes8(k.w3)[1]);
    assert(d[off + 25] == le_bytes8(k.w3)[1]);
    assert(key_bytes(k)[26] == le_bytes8(k.w3)[2]);
    assert(d[off + 26] == le_bytes8(k.w3)[2]);
    assert(key_bytes(k)[27] == le_bytes8(k.w3)[3]);
    assert(d[off + 27] == le_bytes8(k.w3)[3]);
    assert(key_bytes(k)[28] == le_bytes8(k.w3)[4]);
    assert(d[off + 28] == le_bytes8(k.w3)[4]);
    assert(key_bytes(k)[29] == le_bytes8(k.w3)[5]);
    assert(d[off + 29] == le_bytes8(k.w3)[5]);
    assert(key_bytes(k)[30] == le_bytes8(k.w3)[6]);
    assert(d[off + 30] == le_bytes8(k.w3)[6]);
    assert(key_bytes(k)[31] == le_bytes8(k.w3)[7]);
    assert(d[off + 31] == le_bytes8(k.w3)[7]);
    lemma_le_u64_roundtrip(k.w0);
    lemma_le_u64_roundtrip(k.w1);
    lemma_le_u64_roundtrip(k.w2);
    lemma_le_u64_roundtrip(k.w3);
    assert(le_u64_at(d, off) == k.w0);
    assert(le_u64_at(d, off + 8) == k.w1);
    assert(le_u64_at(d, off + 16) == k.w2);
    assert(le_u64_at(d, off + 24) == k.w3);
}

/// Parsing a serialized key at the head of the unread tail.
proof fn lemma_step_key(d: Seq<u8>, off: int, k: Key, rest: Seq<u8>)
    requires
        0 <= off <= d.len(),
        d.skip(off) == key_bytes(k) + rest,
    ensures
        p_key(d, off) == Some((k, off + 32)),
        off + 32 <= d.len(),
        d.skip(off + 32) == rest,
{
    lemma_key_bytes_len(k);
    lemma_skip_split(d, off, key_bytes(k), rest);
    lemma_key_at_of(d, off, k);
}

/// Parsing a serialized optional key at the head of the unread tail.
proof fn lemma_step_opt_key(d: Seq<u8>, off: int, o: Option<Key>, rest: Seq<u8>)
    requires
        0 <= off <= d.len(),
        d.skip(off) == spec_ser_opt_key(o) + rest,
    ensures
        (p_opt_key(d, off) matches Some(r) && r.0 == o
            && r.1 == off + (if o is Some { 33int } else { 1int })),
        off + (if o is Some { 33int } else { 1int }) <= d.len(),
        d.skip(off + (if o is Some { 33int } else { 1int })) == rest,
{
    match o {
        None => {
            lemma_step_u8(d, off, 0, rest);
        },
        Some(k) => {
            lemma_seq_assoc(seq![1u8], key_bytes(k), rest);
            lemma_step_u8(d, off, 1, key_bytes(k) + rest);
            lemma_step_key(d, off + 1, k, rest);
        },
    }
}

/// Parsing a serialized entry list at the head of the unread tail.
proof fn lemma_step_entries(d: Seq<u8>, off: int, s: Seq<UplineEntry>, rest: Seq<u8>)
    requires
        0 <= off <= d.len(),
        d.skip(off) == spec_ser_entries(s) + rest,
    ensures
        p_entries(d, off, s.len()) == Some((s, off + 64 * s.len())),
        off + 64 * s.len() <= d.len(),
        d.skip(off + 64 * s.len()) == rest,
    decreases s.len(),
{
    lemma_ser_entries_len(s);
    if s.len() == 0 {
        assert(spec_ser_entries(s) + rest =~= rest);
        let r = p_entries(d, off, 0).unwrap();
        assert(r.0 =~= s);
    } else {
        let e = s[0];
        let tail = spec_ser_entries(s.skip(1));
        lemma_ser_entries_len(s.skip(1));
        // d.skip(off) == ((kp + kw) + tail) + rest; regroup for the two keys.
        lemma_seq_assoc(key_bytes(e.pda) + key_bytes(e.wallet), tail, rest);
        lemma_seq_assoc(key_bytes(e.pda), key_bytes(e.wallet), tail + rest);
        lemma_step_key(d, off, e.pda, key_bytes(e.wallet) + (tail + rest));
        lemma_step_key(d, off + 32, e.wallet, tail + rest);
        lemma_step_entries(d, off + 64, s.skip(1), rest);
        let r = p_entries(d, off, s.len()).unwrap();
        assert(r.0 =~= s);
        assert(off + 64 + 64 * s.skip(1).len() == off + 64 * s.len());
    }
}

/// The first six fields of a serialized record parse back, one after the
/// other, leaving the entry list and everything after it unread.
proof fn lemma_steps_front(d: Seq<u8>, m: UserAccountModel, t7: Seq<u8>)
    requires
        d.skip(0) == spec_ser_bool(m.is_registered) + (spec_ser_opt_key(m.referrer)
            + (key_bytes(m.owner_wallet) + (le_bytes4(m.upline_id)
            + (le_bytes4(m.upline_depth) + (le_bytes4(m.upline.len() as u32) + t7))))),
    ensures
        ({
            let o3 = 1 + (if m.referrer is Some { 33int } else { 1int });
            &&& p_bool(d, 0) == Some((m.is_registered, 1int))
            &&& (p_opt_key(d, 1) matches Some(r) && r.0 == m.referrer && r.1 == o3)
            &&& p_key(d, o3) == Some((m.owner_wallet, o3 + 32))
            &&& p_u32(d, o3 + 32) == Some((m.upline_id, o3 + 36))
            &&& p_u32(d, o3 + 36) == Some((m.upline_depth, o3 + 40))
            &&& p_u32(d, o3 + 40) == Some((m.upline.len() as u32, o3 + 44))
            &&& o3 + 44 <= d.len()
            &&& d.skip(o3 + 44) == t7
        }),
{
    assert(d.skip(0) =~= d);
    lemma_step_bool(d, 0, m.is_registered,
        spec_ser_opt_key(m.referrer) + (key_bytes(m.owner_wallet) + (le_bytes4(m.upline_id)
            + (le_bytes4(m.upline_depth) + (le_bytes4(m.upline.len() as u32) + t7)))));
    lemma_step_opt_key(d, 1, m.referrer,
        key_bytes(m.owner_wallet) + (le_bytes4(m.upline_id)
            + (le_bytes4(m.upline_depth) + (le_bytes4(m.upline.len() as u32) + t7))));
    let o3 = 1 + (if m.referrer is Some { 33int } else { 1int });
    lemma_step_key(d, o3, m.owner_wallet,
        le_bytes4(m.upline_id) + (le_bytes4(m.upline_depth)
            + (le_bytes4(m.upline.len() as u32) + t7)));
    lemma_step_u32(d, o3 + 32, m.upline_id,
        le_bytes4(m.upline_depth) + (le_bytes4(m.upline.len() as u32) + t7));
    lemma_step_u32(d, o3 + 36, m.upline_depth, le_bytes4(m.upline.len() as u32) + t7);
    lemma_step_u32(d, o3 + 40, m.upline.len() as u32, t7);
}

/// The last seven fields of a serialized record parse back, one after the
/// other, from the offset just past the entry list.
proof fn lemma_steps_back(d: Seq<u8>, m: UserAccountModel, o8: int, post: Seq<u8>)
    requires
        m.slots.len() == 3,
        0 <= o8 <= d.len(),
        d.skip(o8) == le_bytes4(m.chain_id) + (spec_ser_opt_key(m.slots[0])
            + (spec_ser_opt_key(m.slots[1]) + (spec_ser_opt_key(m.slots[2])
            + (seq![m.filled_slots] + (le_bytes8(m.reserved_sol)
            + (le_bytes8(m.reserved_tokens) + post)))))),
    ensures
        ({
            let o9 = o8 + 4;
            let o10 = o9 + (if m.slots[0] is Some { 33int } else { 1int });
            let o11 = o10 + (if m.slots[1] is Some { 33int } else { 1int });
            let o12 = o11 + (if m.slots[2] is Some { 33int } else { 1int });
            &&& p_u32(d, o8) == Some((m.chain_id, o9))
            &&& (p_opt_key(d, o9) matches Some(r9) && r9.0 == m.slots[0] && r9.1 == o10)
            &&& (p_opt_key(d, o10) matches Some(r10) && r10.0 == m.slots[1] && r10.1 == o11)
            &&& (p_opt_key(d, o11) matches Some(r11) && r11.0 == m.slots[2] && r11.1 == o12)
            &&& p_u8(d, o12) == Some((m.filled_slots, o12 + 1))
            &&& p_u64(d, o12 + 1) == Some((m.reserved_sol, o12 + 9))
            &&& p_u64(d, o12 + 9) == Some((m.reserved_tokens, o12 + 17))
        }),
{
    lemma_step_u32(d, o8, m.chain_id,
        spec_ser_opt_key(m.slots[0]) + (spec_ser_opt_key(m.slots[1])
            + (spec_ser_opt_key(m.slots[2]) + (seq![m.filled_slots]
            + (le_bytes8(m.reserved_sol) + (le_bytes8(m.reserved_tokens) + post))))));
    let o9 = o8 + 4;
    lemma_step_opt_key(d, o9, m.slots[0],
        spec_ser_opt_key(m.slots[1]) + (spec_ser_opt_key(m.slots[2])
            + (seq![m.filled_slots] + (le_bytes8(m.reserved_sol)
            + (le_bytes8(m.reserved_tokens) + post)))));
    let o10 = o9 + (if m.slots[0] is Some { 33int } else { 1int });
    lemma_step_opt_key(d, o10, m.slots[1],
        spec_ser_opt_key(m.slots[2]) + (seq![m.filled_slots]
            + (le_bytes8(m.reserved_sol) + (le_bytes8(m.reserved_tokens) + post))));
    let o11 = o10 + (if m.slots[1] is Some { 33int } else { 1int });
    lemma_step_opt_key(d, o11, m.slots[2],
        seq![m.filled_slots] + (le_bytes8(m.reserved_sol)
            + (le_bytes8(m.reserved_tokens) + post)));
    let o12 = o11 + (if m.slots[2] is Some { 33int } else { 1int });
    lemma_step_u8(d, o12, m.filled_slots,
        le_bytes8(m.reserved_sol) + (le_bytes8(m.reserved_tokens) + post));
    lemma_step_u64(d, o12 + 1, m.reserved_sol, le_bytes8(m.reserved_tokens) + post);
    lemma_step_u64(d, o12 + 9, m.reserved_tokens, post);
}

/// A record whose fields parse one after the other parses as a whole to
/// the model those fields make up.
#[verifier::rlimit(100)]
proof fn lemma_parse_assemble(
    d: Seq<u8>, m: UserAccountModel,
    o3: int, o7: int, o8: int, o9: int, o10: int, o11: int, o12: int,
)
    requires
        m.slots.len() == 3,
        p_bool(d, 0) == Some((m.is_registered, 1int)),
        (p_opt_key(d, 1) matches Some(r2) && r2.0 == m.referrer && r2.1 == o3),
        p_key(d, o3) == Some((m.owner_wallet, o3 + 32)),
        p_u32(d, o3 + 32) == Some((m.upline_id, o3 + 36)),
        p_u32(d, o3 + 36) == Some((m.upline_depth, o3 + 40)),
        p_u32(d, o3 + 40) == Some((m.upline.len() as u32, o7)),
        p_entries(d, o7, (m.upline.len() as u32) as nat) == Some((m.upline, o8)),
        p_u32(d, o8) == Some((m.chain_id, o9)),
        (p_opt_key(d, o9) matches Some(r9) && r9.0 == m.slots[0] && r9.1 == o10),
        (p_opt_key(d, o10) matches Some(r10) && r10.0 == m.slots[1] && r10.1 == o11),
        (p_opt_key(d, o11) matches Some(r11) && r11.0 == m.slots[2] && r11.1 == o12),
        p_u8(d, o12) == Some((m.filled_slots, o12 + 1)),
        p_u64(d, o12 + 1) == Some((m.reserved_sol, o12 + 9)),
        p_u64(d, o12 + 9) == Some((m.reserved_tokens, o12 + 17)),
    ensures
        spec_parse_user_account(d, 0) == Some(m),
{
    let parsed = spec_parse_user_account(d, 0).unwrap();
    assert(parsed.slots =~= m.slots);
    assert(parsed == m);
}

/// Regrouping a fourteen-chunk concatenation from the left-nested form the
/// serializer builds to the right-nested form the parser consumes.
proof fn lemma_reassoc14<A>(
    c1: Seq<A>, c2: Seq<A>, c3: Seq<A>, c4: Seq<A>, c5: Seq<A>, c6: Seq<A>, c7: Seq<A>,
    c8: Seq<A>, c9: Seq<A>, c10: Seq<A>, c11: Seq<A>, c12: Seq<A>, c13: Seq<A>, c14: Seq<A>,
    post: Seq<A>,
)
    ensures
        (((((((((((((c1 + c2) + c3) + c4) + c5) + c6) + c7) + c8) + c9) + c10) + c11) + c12)
            + c13) + c14) + post
            == c1 + (c2 + (c3 + (c4 + (c5 + (c6 + (c7 + (c8 + (c9 + (c10 + (c11 + (c12
                + (c13 + (c14 + post))))))))))))),
{
    let t14 = c14 + post;
    let t13 = c13 + t14;
    let t12 = c12 + t13;
    let t11 = c11 + t12;
    let t10 = c10 + t11;
    let t9 = c9 + t10;
    let t8 = c8 + t9;
    let t7 = c7 + t8;
    let t6 = c6 + t7;
    let t5 = c5 + t6;
    let t4 = c4 + t5;
    let t3 = c3 + t4;
    let t2 = c2 + t3;
    let l2 = c1 + c2;
    let l3 = l2 + c3;
    let l4 = l3 + c4;
    let l5 = l4 + c5;
    let l6 = l5 + c6;
    let l7 = l6 + c7;
    let l8 = l7 + c8;
    let l9 = l8 + c9;
    let l10 = l9 + c10;
    let l11 = l10 + c11;
    let l12 = l11 + c12;
    let l13 = l12 + c13;
    lemma_seq_assoc(l13, c14, post);
    lemma_seq_assoc(l12, c13, t14);
    lemma_seq_assoc(l11, c12, t13);
    lemma_seq_assoc(l10, c11, t12);
    lemma_seq_assoc(l9, c10, t11);
    lemma_seq_assoc(l8, c9, t10);
    lemma_seq_assoc(l7, c8, t9);
    lemma_seq_assoc(l6, c7, t8);
    lemma_seq_assoc(l5, c6, t7);
    lemma_seq_assoc(l4, c5, t6);
    lemma_seq_assoc(l3, c4, t5);
    lemma_seq_assoc(l2, c3, t4);
    lemma_seq_assoc(c1, c2, t3);
}

/// Parsing a serialized record yields the record again: the serializer and
/// the parser are exact inverses on well-formed models, whatever follows the
/// record in the input.
#[verifier::rlimit(100)]
pub proof fn lemma_record_roundtrip(m: UserAccountModel, post: Seq<u8>)
    requires
        m.upline.len() <= u32::MAX,
        m.slots.len() == 3,
    ensures
        spec_parse_user_account(spec_ser_user_account(m) + post, 0) == Some(m),
{
    let c1 = spec_ser_bool(m.is_registered);
    let c2 = spec_ser_opt_key(m.referrer);
    let c3 = key_bytes(m.owner_wallet);
    let c4 = le_bytes4(m.upline_id);
    let c5 = le_bytes4(m.upline_depth);
    let c6 = le_bytes4(m.upline.len() as u32);
    let c7 = spec_ser_entries(m.upline);
    let c8 = le_bytes4(m.chain_id);
    let c9 = spec_ser_opt_key(m.slots[0]);
    let c10 = spec_ser_opt_key(m.slots[1]);
    let c11 = spec_ser_opt_key(m.slots[2]);
    let c12 = seq![m.filled_slots];
    let c13 = le_bytes8(m.reserved_sol);
    let c14 = le_bytes8(m.reserved_tokens);
    let d = spec_ser_user_account(m) + post;
    lemma_reassoc14(c1, c2, c3, c4, c5, c6, c7, c8, c9, c10, c11, c12, c13, c14, post);
    let t8 = c8 + (c9 + (c10 + (c11 + (c12 + (c13 + (c14 + post))))));
    let t7 = c7 + t8;
    assert(d.skip(0) =~= d);

    lemma_steps_front(d, m, t7);
    let o3 = 1 + (if m.referrer is Some { 33int } else { 1int });
    let o7 = o3 + 44;
    lemma_step_entries(d, o7, m.upline, t8);
    let o8 = o7 + 64 * m.upline.len();
    lemma_steps_back(d, m, o8, post);
    let o9 = o8 + 4;
    let o10 = o9 + (if m.slots[0] is Some { 33int } else { 1int });
    let o11 = o10 + (if m.slots[1] is Some { 33int } else { 1int });
    let o12 = o11 + (if m.slots[2] is Some { 33int } else { 1int });
    assert((m.upline.len() as u32) as nat == m.upline.len());
    lemma_parse_assemble(d, m, o3, o7, o8, o9, o10, o11, o12);
}

/// Writing a 64-bit value and reading it back at the same place yields the
/// value again.
pub proof fn lemma_le_u64_roundtrip(v: u64)
    ensures
        le_u64_at(le_bytes8(v), 0) == v,
{
    reveal(le_bytes8);
    assert(v % 0x100 + (v / 0x100) % 0x100 * 0x100 + (v / 0x10000) % 0x100 * 0x10000
        + (v / 0x1000000) % 0x100 * 0x1000000 + (v / 0x100000000) % 0x100 * 0x100000000
        + (v / 0x10000000000) % 0x100 * 0x10000000000
        + (v / 0x1000000000000) % 0x100 * 0x1000000000000
        + (v / 0x100000000000000) % 0x100 * 0x100000000000000 == v) by (bit_vector);
}

/// Writing a 32-bit value and reading it back at the same place yields the
/// value again.
pub proof fn lemma_le_u32_roundtrip(v: u32)
    ensures
        le_u32_at(le_bytes4(v), 0) == v,
{
    reveal(le_bytes4);
    assert(v % 0x100 + (v / 0x100) % 0x100 * 0x100 + (v / 0x10000) % 0x100 * 0x10000
        + (v / 0x1000000) % 0x100 * 0x1000000 == v) by (bit_vector);
}

} // verus!
