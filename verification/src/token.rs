//! Reading externally owned token records: the byte layout of the token
//! program's account and mint records, the trusted parse checks, and the
//! ownership verifications every fund-moving operation runs before using a
//! supplied token account.

use vstd::prelude::*;
use spl_token::solana_program::program_pack::Pack;
use crate::keys::{Key, VerifiedAddresses};
use crate::errors::ErrorCode;
use crate::accounts::AccountRecord;
use crate::records::{key_at, le_u64_at, read_key_at, read_u64_le};
use crate::amm::{spec_donut_tokens, get_donut_tokens_amount, AMM_FALLBACK_TOKENS};

verus! {

/// A four-byte optional-field tag: 0 or 1 in the first byte, zeroes after.
pub open spec fn coption_tag_ok(d: Seq<u8>, off: int) -> bool {
    &&& (d[off] == 0 || d[off] == 1)
    &&& d[off + 1] == 0
    &&& d[off + 2] == 0
    &&& d[off + 3] == 0
}

/// A well-formed, initialized token-account record: exactly 165 bytes; the
/// three optional-field tags in shape; the state byte marking the account
/// initialized or frozen.
pub open spec fn token_account_valid(d: Seq<u8>) -> bool {
    &&& d.len() == 165
    &&& coption_tag_ok(d, 72)
    &&& (d[108] == 1 || d[108] == 2)
    &&& coption_tag_ok(d, 109)
    &&& coption_tag_ok(d, 129)
}

/// The mint a token-account record belongs to: its first 32 bytes.
pub open spec fn token_account_mint(d: Seq<u8>) -> Key {
    key_at(d, 0)
}

/// The wallet that owns a token-account record: bytes 32 to 64.
pub open spec fn token_account_owner(d: Seq<u8>) -> Key {
    key_at(d, 32)
}

/// The balance a token-account record holds: bytes 64 to 72, little-endian.
pub open spec fn token_account_amount(d: Seq<u8>) -> u64 {
    le_u64_at(d, 64)
}

/// A well-formed, initialized mint record: exactly 82 bytes; the two
/// optional-field tags in shape; the initialized byte set.
pub open spec fn mint_valid(d: Seq<u8>) -> bool {
    &&& d.len() == 82
    &&& coption_tag_ok(d, 0)
    &&& d[45] == 1
    &&& coption_tag_ok(d, 46)
}

/// The total supply a mint record declares: bytes 36 to 44, little-endian.
pub open spec fn mint_supply(d: Seq<u8>) -> u64 {
    le_u64_at(d, 36)
}

/// Relies on `spl_token::state::Account::unpack`: it accepts exactly a
/// 165-byte record whose three optional-field tags are in shape and whose
/// state byte marks it initialized or frozen, and rejects everything else.
#[verifier::external_body]
fn token_account_parses(data: &Vec<u8>) -> (r: bool)
    ensures
        r == token_account_valid(data@),
{
    spl_token::state::Account::unpack(data.as_slice()).is_ok()
}

/// Relies on `spl_token::state::Mint::unpack`: it accepts exactly an 82-byte
/// record whose two optional-field tags are in shape and whose initialized
/// byte is set, and rejects everything else.
#[verifier::external_body]
fn mint_parses(data: &Vec<u8>) -> (r: bool)
    ensures
        r == mint_valid(data@),
{
    spl_token::state::Mint::unpack(data.as_slice()).is_ok()
}

/// Parse a token-account record: its mint, owning wallet and balance, or
/// `None` when the record does not deserialize.
pub fn parse_token_account(data: &Vec<u8>) -> (r: Option<(Key, Key, u64)>)
    ensures
        (r is Some) == token_account_valid(data@),
        (r matches Some(t) ==> t.0 == token_account_mint(data@)
            && t.1 == token_account_owner(data@)
            && t.2 == token_account_amount(data@)),
{
    if token_account_parses(data) {
        let mint = read_key_at(data, 0);
        let owner = read_key_at(data, 32);
        let amount = read_u64_le(data, 64);
        Some((mint, owner, amount))
    } else {
        None
    }
}

/// Parse a mint record: its total supply, or `None` when the record does not
/// deserialize.
pub fn parse_mint_supply(data: &Vec<u8>) -> (r: Option<u64>)
    ensures
        (r is Some) == mint_valid(data@),
        (r matches Some(s) ==> s == mint_supply(data@)),
{
    if mint_parses(data) {
        Some(read_u64_le(data, 36))
    } else {
        None
    }
}

/// What checking a token account against an expected wallet and mint
/// reports, with one shared error for every failure.
pub open spec fn spec_verify_token_account(
    owner_program: Key,
    data: Seq<u8>,
    wallet: Key,
    token_mint: Key,
    cfg: VerifiedAddresses,
) -> Result<(), ErrorCode> {
    if owner_program != cfg.spl_token_program {
        Err(ErrorCode::TokenAccountInvalid)
    } else if !token_account_valid(data) {
        Err(ErrorCode::TokenAccountInvalid)
    } else if token_account_owner(data) != wallet {
        Err(ErrorCode::TokenAccountInvalid)
    } else if token_account_mint(data) != token_mint {
        Err(ErrorCode::TokenAccountInvalid)
    } else {
        Ok(())
    }
}

/// Check that a supplied record is a token account of the expected mint,
/// owned by the expected wallet; any failure reports the same code.
pub fn verify_token_account(
    token_account: &AccountRecord,
    wallet: &Key,
    token_mint: &Key,
    cfg: &VerifiedAddresses,
) -> (r: Result<(), ErrorCode>)
    ensures
        r == spec_verify_token_account(token_account.owner_program, token_account.data@, *wallet, *token_mint, *cfg),
{
    if !(token_account.owner_program == cfg.spl_token_program) {
        return Err(ErrorCode::TokenAccountInvalid);
    }
    let parsed = match parse_token_account(&token_account.data) {
        Some(p) => p,
        None => {
            return Err(ErrorCode::TokenAccountInvalid);
        },
    };
    if !(parsed.1 == *wallet) {
        return Err(ErrorCode::TokenAccountInvalid);
    }
    if !(parsed.0 == *token_mint) {
        return Err(ErrorCode::TokenAccountInvalid);
    }
    Ok(())
}

/// What the strict associated-token-account check reports: distinct codes
/// for a record owned by the wrong program or malformed, for the wrong
/// owning wallet, and for the wrong mint.
pub open spec fn spec_verify_ata(
    owner_program: Key,
    data: Seq<u8>,
    owner: Key,
    expected_mint: Key,
    cfg: VerifiedAddresses,
) -> Result<(), ErrorCode> {
    if owner_program != cfg.spl_token_program {
        Err(ErrorCode::InvalidTokenAccount)
    } else if !token_account_valid(data) {
        Err(ErrorCode::InvalidTokenAccount)
    } else if token_account_owner(data) != owner {
        Err(ErrorCode::InvalidWalletForATA)
    } else if token_account_mint(data) != expected_mint {
        Err(ErrorCode::InvalidTokenMintAddress)
    } else {
        Ok(())
    }
}

/// Check that a supplied record is the expected owner's token account for
/// the expected mint, each failure under its own code.
pub fn verify_ata_strict(
    token_account: &AccountRecord,
    owner: &Key,
    expected_mint: &Key,
    cfg: &VerifiedAddresses,
) -> (r: Result<(), ErrorCode>)
    ensures
        r == spec_verify_ata(token_account.owner_program, token_account.data@, *owner, *expected_mint, *cfg),
{
    if !(token_account.owner_program == cfg.spl_token_program) {
        return Err(ErrorCode::InvalidTokenAccount);
    }
    let parsed = match parse_token_account(&token_account.data) {
        Some(p) => p,
        None => {
            return Err(ErrorCode::InvalidTokenAccount);
        },
    };
    if !(parsed.1 == *owner) {
        return Err(ErrorCode::InvalidWalletForATA);
    }
    if !(parsed.0 == *expected_mint) {
        return Err(ErrorCode::InvalidTokenMintAddress);
    }
    Ok(())
}

/// Checking a wrapped-asset account runs the same tests and reports the same
/// codes as the strict associated-token-account check.
pub open spec fn spec_verify_wsol(
    owner_program: Key,
    data: Seq<u8>,
    expected_owner: Key,
    wsol_mint: Key,
    cfg: VerifiedAddresses,
) -> Result<(), ErrorCode> {
    spec_verify_ata(owner_program, data, expected_owner, wsol_mint, cfg)
}

/// Check that a supplied record is the expected owner's wrapped-asset
/// account.
pub fn verify_wsol_account(
    wsol_account: &AccountRecord,
    expected_owner: &Key,
    wsol_mint: &Key,
    cfg: &VerifiedAddresses,
) -> (r: Result<(), ErrorCode>)
    ensures
        r == spec_verify_wsol(wsol_account.owner_program, wsol_account.data@, *expected_owner, *wsol_mint, *cfg),
{
    verify_ata_strict(wsol_account, expected_owner, wsol_mint, cfg)
}

/// The reward quote from the six raw reserve records: the fallback when any
/// record fails to deserialize, the estimator's result on the read balances
/// otherwise.
pub open spec fn spec_quote_records(
    a_lp: Seq<u8>,
    b_lp: Seq<u8>,
    a_mint: Seq<u8>,
    b_mint: Seq<u8>,
    a_vault: Seq<u8>,
    b_vault: Seq<u8>,
    sol_amount: u64,
) -> u64 {
    if !token_account_valid(a_lp) || !token_account_valid(b_lp) {
        AMM_FALLBACK_TOKENS
    } else if !mint_valid(a_mint) || !mint_valid(b_mint) {
        AMM_FALLBACK_TOKENS
    } else if !token_account_valid(a_vault) || !token_account_valid(b_vault) {
        AMM_FALLBACK_TOKENS
    } else {
        spec_donut_tokens(
            token_account_amount(a_lp),
            token_account_amount(b_lp),
            mint_supply(a_mint),
            mint_supply(b_mint),
            token_account_amount(a_vault),
            token_account_amount(b_vault),
            sol_amount,
        )
    }
}

/// Any reserve record that does not deserialize degrades the whole quote to
/// the fixed fallback, whatever the other records hold.
pub proof fn lemma_quote_unreadable_record(
    a_lp: Seq<u8>, b_lp: Seq<u8>, a_mint: Seq<u8>, b_mint: Seq<u8>,
    a_vault: Seq<u8>, b_vault: Seq<u8>, sol_amount: u64,
)
    ensures
        (!token_account_valid(a_lp) || !token_account_valid(b_lp)
            || !mint_valid(a_mint) || !mint_valid(b_mint)
            || !token_account_valid(a_vault) || !token_account_valid(b_vault))
            ==> spec_quote_records(a_lp, b_lp, a_mint, b_mint, a_vault, b_vault, sol_amount)
                == AMM_FALLBACK_TOKENS,
{
}

/// Convert a deposit into a reward amount straight from the six raw reserve
/// records, reading each with the token program's own deserializer; a record
/// that fails to read degrades to the fallback instead of failing the call.
pub fn quote_donut_tokens(
    a_vault_lp: &AccountRecord,
    b_vault_lp: &AccountRecord,
    a_vault_lp_mint: &AccountRecord,
    b_vault_lp_mint: &AccountRecord,
    a_token_vault: &AccountRecord,
    b_token_vault: &AccountRecord,
    sol_amount: u64,
) -> (donut: u64)
    ensures
        donut == spec_quote_records(
            a_vault_lp.data@, b_vault_lp.data@,
            a_vault_lp_mint.data@, b_vault_lp_mint.data@,
            a_token_vault.data@, b_token_vault.data@,
            sol_amount,
        ),
{
    let a_lp = match parse_token_account(&a_vault_lp.data) {
        Some(p) => p.2,
        None => {
            return AMM_FALLBACK_TOKENS;
        },
    };
    let b_lp = match parse_token_account(&b_vault_lp.data) {
        Some(p) => p.2,
        None => {
            return AMM_FALLBACK_TOKENS;
        },
    };
    let a_supply = match parse_mint_supply(&a_vault_lp_mint.data) {
        Some(s) => s,
        None => {
            return AMM_FALLBACK_TOKENS;
        },
    };
    let b_supply = match parse_mint_supply(&b_vault_lp_mint.data) {
        Some(s) => s,
        None => {
            return AMM_FALLBACK_TOKENS;
        },
    };
    let a_tokens = match parse_token_account(&a_token_vault.data) {
        Some(p) => p.2,
        None => {
            return AMM_FALLBACK_TOKENS;
        },
    };
    let b_tokens = match parse_token_account(&b_token_vault.data) {
        Some(p) => p.2,
        None => {
            return AMM_FALLBACK_TOKENS;
        },
    };
    get_donut_tokens_amount(a_lp, b_lp, a_supply, b_supply, a_tokens, b_tokens, sol_amount)
}

} // verus!
