//! The address allow-list verifier: every externally supplied address is
//! compared against its fixed expected address before any fund-moving
//! operation uses it.

use vstd::prelude::*;
use crate::keys::{Key, VerifiedAddresses};
use crate::errors::ErrorCode;

verus! {

/// What a strict address comparison reports.
pub open spec fn spec_verify_address(provided: Key, expected: Key, error_code: ErrorCode) -> Result<(), ErrorCode> {
    if provided == expected {
        Ok(())
    } else {
        Err(error_code)
    }
}

/// Compare a supplied address against the expected one; on mismatch report
/// the given code.
pub fn verify_address_strict(provided: &Key, expected: &Key, error_code: ErrorCode) -> (r: Result<(), ErrorCode>)
    ensures
        r == spec_verify_address(*provided, *expected, error_code),
{
    if provided == expected {
        Ok(())
    } else {
        Err(error_code)
    }
}

/// The first failure, if any, among the three paired-vault address checks.
pub open spec fn spec_verify_vault_a(
    a_vault_lp: Key,
    a_vault_lp_mint: Key,
    a_token_vault: Key,
    cfg: VerifiedAddresses,
) -> Result<(), ErrorCode> {
    if a_vault_lp != cfg.a_vault_lp {
        Err(ErrorCode::InvalidVaultALpAddress)
    } else if a_vault_lp_mint != cfg.a_vault_lp_mint {
        Err(ErrorCode::InvalidVaultALpMintAddress)
    } else if a_token_vault != cfg.a_token_vault {
        Err(ErrorCode::InvalidTokenAVaultAddress)
    } else {
        Ok(())
    }
}

/// Check the three paired-vault addresses against the configuration table.
pub fn verify_vault_a_addresses(
    a_vault_lp: &Key,
    a_vault_lp_mint: &Key,
    a_token_vault: &Key,
    cfg: &VerifiedAddresses,
) -> (r: Result<(), ErrorCode>)
    ensures
        r == spec_verify_vault_a(*a_vault_lp, *a_vault_lp_mint, *a_token_vault, *cfg),
{
    verify_address_strict(a_vault_lp, &cfg.a_vault_lp, ErrorCode::InvalidVaultALpAddress)?;
    verify_address_strict(a_vault_lp_mint, &cfg.a_vault_lp_mint, ErrorCode::InvalidVaultALpMintAddress)?;
    verify_address_strict(a_token_vault, &cfg.a_token_vault, ErrorCode::InvalidTokenAVaultAddress)?;
    Ok(())
}

/// The first failure, if any, among the fixed pool-side address checks.
pub open spec fn spec_verify_all_fixed(
    pool: Key,
    b_vault_lp: Key,
    token_mint: Key,
    wsol_mint: Key,
    cfg: VerifiedAddresses,
) -> Result<(), ErrorCode> {
    if pool != cfg.pool {
        Err(ErrorCode::InvalidPoolAddress)
    } else if b_vault_lp != cfg.b_vault_lp {
        Err(ErrorCode::InvalidVaultAddress)
    } else if token_mint != cfg.token_mint {
        Err(ErrorCode::InvalidTokenMintAddress)
    } else if wsol_mint != cfg.wsol_mint {
        Err(ErrorCode::InvalidTokenMintAddress)
    } else {
        Ok(())
    }
}

/// Check the pool, native-vault LP, reward mint and wrapped-asset mint
/// addresses against the configuration table.
pub fn verify_all_fixed_addresses(
    pool: &Key,
    b_vault_lp: &Key,
    token_mint: &Key,
    wsol_mint: &Key,
    cfg: &VerifiedAddresses,
) -> (r: Result<(), ErrorCode>)
    ensures
        r == spec_verify_all_fixed(*pool, *b_vault_lp, *token_mint, *wsol_mint, *cfg),
{
    verify_address_strict(pool, &cfg.pool, ErrorCode::InvalidPoolAddress)?;
    verify_address_strict(b_vault_lp, &cfg.b_vault_lp, ErrorCode::InvalidVaultAddress)?;
    verify_address_strict(token_mint, &cfg.token_mint, ErrorCode::InvalidTokenMintAddress)?;
    verify_address_strict(wsol_mint, &cfg.wsol_mint, ErrorCode::InvalidTokenMintAddress)?;
    Ok(())
}

/// The first failure, if any, among the two oracle address checks.
pub open spec fn spec_verify_chainlink(
    chainlink_program: Key,
    chainlink_feed: Key,
    cfg: VerifiedAddresses,
) -> Result<(), ErrorCode> {
    if chainlink_program != cfg.chainlink_program {
        Err(ErrorCode::InvalidChainlinkProgram)
    } else if chainlink_feed != cfg.sol_usd_feed {
        Err(ErrorCode::InvalidPriceFeed)
    } else {
        Ok(())
    }
}

/// Check the oracle program and feed addresses against the configuration
/// table.
pub fn verify_chainlink_addresses(
    chainlink_program: &Key,
    chainlink_feed: &Key,
    cfg: &VerifiedAddresses,
) -> (r: Result<(), ErrorCode>)
    ensures
        r == spec_verify_chainlink(*chainlink_program, *chainlink_feed, *cfg),
{
    verify_address_strict(chainlink_program, &cfg.chainlink_program, ErrorCode::InvalidChainlinkProgram)?;
    verify_address_strict(chainlink_feed, &cfg.sol_usd_feed, ErrorCode::InvalidPriceFeed)?;
    Ok(())
}

/// Whether a wallet is a plain account owned by the system program, so that
/// funds can be paid to it directly.
pub open spec fn spec_wallet_is_system(wallet_owner_program: Key, cfg: VerifiedAddresses) -> Result<(), ErrorCode> {
    if wallet_owner_program != cfg.system_program {
        Err(ErrorCode::PaymentWalletInvalid)
    } else {
        Ok(())
    }
}

/// Check that a payment wallet is owned by the system program.
pub fn verify_wallet_is_system_account(wallet_owner_program: &Key, cfg: &VerifiedAddresses) -> (r: Result<(), ErrorCode>)
    ensures
        r == spec_wallet_is_system(*wallet_owner_program, *cfg),
{
    verify_address_strict(wallet_owner_program, &cfg.system_program, ErrorCode::PaymentWalletInvalid)
}

} // verus!
