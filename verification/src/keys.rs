//! Account keys and the fixed configuration table of allow-listed addresses.

use vstd::prelude::*;

verus! {

/// A 32-byte ledger address, held as four 64-bit little-endian words.
///
/// The engine never interprets a key; it only compares keys for equality and
/// copies them between records, so the word representation is all it needs.
#[derive(Clone, Copy, PartialEq, Eq, Structural, Debug)]
pub struct Key {
    pub w0: u64,
    pub w1: u64,
    pub w2: u64,
    pub w3: u64,
}

/// The fixed configuration table: every externally supplied address is checked
/// against one of these before any fund-moving operation uses it.
#[derive(Clone, Copy, PartialEq, Eq, Structural, Debug)]
pub struct VerifiedAddresses {
    /// LP share account of the paired vault.
    pub a_vault_lp: Key,
    /// Mint of the paired vault's LP shares.
    pub a_vault_lp_mint: Key,
    /// Underlying token vault on the paired side.
    pub a_token_vault: Key,
    /// The liquidity pool itself.
    pub pool: Key,
    /// LP share account of the native-asset vault.
    pub b_vault_lp: Key,
    /// Mint of the reward token.
    pub token_mint: Key,
    /// Mint of the wrapped native asset.
    pub wsol_mint: Key,
    /// The oracle program.
    pub chainlink_program: Key,
    /// The oracle's native-asset price feed.
    pub sol_usd_feed: Key,
    /// Treasury identity allowed to register the root account.
    pub multisig_treasury: Key,
    /// Identity allowed to initialize the global state.
    pub authorized_initializer: Key,
    /// The token-accounting program that owns all token records.
    pub spl_token_program: Key,
    /// The system program that owns plain wallet accounts.
    pub system_program: Key,
    /// This engine's own program id, owner of every user account record.
    pub program_id: Key,
}

} // verus!
