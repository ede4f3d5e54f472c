use matrix_system::keys::{Key, VerifiedAddresses};
use matrix_system::errors::ErrorCode;
use matrix_system::accounts::ProgramState;
use matrix_system::oracle::OracleReading;
use matrix_system::throttle::check_mint_limit;
use matrix_system::oracle::calculate_minimum_sol_deposit;
use matrix_system::amm::get_donut_tokens_amount;
use matrix_system::verify::{verify_address_strict, verify_all_fixed_addresses, verify_vault_a_addresses};

fn key(n: u64) -> Key {
    Key { w0: n, w1: 0, w2: 0, w3: 0 }
}

fn cfg() -> VerifiedAddresses {
    VerifiedAddresses {
        a_vault_lp: key(1),
        a_vault_lp_mint: key(2),
        a_token_vault: key(3),
        pool: key(4),
        b_vault_lp: key(5),
        token_mint: key(6),
        wsol_mint: key(7),
        chainlink_program: key(8),
        sol_usd_feed: key(9),
        multisig_treasury: key(10),
        authorized_initializer: key(11),
        spl_token_program: key(12),
        system_program: key(13),
        program_id: key(14),
    }
}

fn state() -> ProgramState {
    ProgramState {
        owner: key(11),
        multisig_treasury: key(10),
        next_upline_id: 1,
        next_chain_id: 1,
        last_mint_amount: 0,
    }
}

#[test]
fn throttle_first_mint_accepts_any_value() {
    let mut st = state();
    let accepted = check_mint_limit(&mut st, 987_654_321);
    assert_eq!(accepted, 987_654_321);
    assert_eq!(st.last_mint_amount, 987_654_321);
}

#[test]
fn throttle_rejects_spike_above_triple() {
    let mut st = state();
    st.last_mint_amount = 100;
    let accepted = check_mint_limit(&mut st, 301);
    assert_eq!(accepted, 100);
    assert_eq!(st.last_mint_amount, 100);
}

#[test]
fn throttle_accepts_exactly_triple() {
    let mut st = state();
    st.last_mint_amount = 100;
    let accepted = check_mint_limit(&mut st, 300);
    assert_eq!(accepted, 300);
    assert_eq!(st.last_mint_amount, 300);
}

#[test]
fn throttle_accepts_decrease() {
    let mut st = state();
    st.last_mint_amount = 100;
    let accepted = check_mint_limit(&mut st, 1);
    assert_eq!(accepted, 1);
    assert_eq!(st.last_mint_amount, 1);
}

#[test]
fn minimum_deposit_at_default_price() {
    // Fresh feed at one hundred dollars, eight decimals: ten dollars comes
    // to a tenth of a native unit, 100_000_000 base units at nine decimals.
    let reading = OracleReading {
        answer: 100_00000000,
        decimals: 8,
        now: 1_000_000,
        feed_timestamp: 1_000_000,
    };
    assert_eq!(calculate_minimum_sol_deposit(&reading), 100_000_000);
}

#[test]
fn minimum_deposit_stale_feed_uses_default_price() {
    // A day-old reading with an absurd answer is priced at the default.
    let reading = OracleReading {
        answer: 5,
        decimals: 8,
        now: 1_000_000 + 86_401,
        feed_timestamp: 1_000_000,
    };
    assert_eq!(calculate_minimum_sol_deposit(&reading), 100_000_000);
}

#[test]
fn minimum_deposit_age_boundary_keeps_feed_price() {
    // Exactly a day old is still fresh: two hundred dollars halves the
    // minimum.
    let reading = OracleReading {
        answer: 200_00000000,
        decimals: 8,
        now: 1_000_000 + 86_400,
        feed_timestamp: 1_000_000,
    };
    assert_eq!(calculate_minimum_sol_deposit(&reading), 50_000_000);
}

#[test]
fn minimum_deposit_negative_price_is_zero() {
    let reading = OracleReading {
        answer: -1,
        decimals: 8,
        now: 0,
        feed_timestamp: 0,
    };
    assert_eq!(calculate_minimum_sol_deposit(&reading), 0);
}

#[test]
fn minimum_deposit_zero_price_saturates() {
    let reading = OracleReading {
        answer: 0,
        decimals: 8,
        now: 0,
        feed_timestamp: 0,
    };
    assert_eq!(calculate_minimum_sol_deposit(&reading), u64::MAX);
}

#[test]
fn minimum_deposit_large_decimals() {
    // Sixty decimals: the dividend has no machine-word representation, yet
    // the exact truncated quotient is still produced.
    let reading = OracleReading {
        answer: 100_00000000,
        decimals: 60,
        now: 0,
        feed_timestamp: 0,
    };
    // 10^70 / 10^10 = 10^60, far past the output range.
    assert_eq!(calculate_minimum_sol_deposit(&reading), u64::MAX);
}

#[test]
fn estimator_balanced_pool_exact_value() {
    // Both pooled sides at one thousand, a one-unit deposit of a billion
    // base units: the quote is exactly the fee multiplier.
    let donut = get_donut_tokens_amount(1000, 1000, 1000, 1000, 1000, 1000, 1_000_000_000);
    assert_eq!(donut, 1_219_512_195);
}

#[test]
fn estimator_zero_reserve_returns_fallback() {
    assert_eq!(get_donut_tokens_amount(1000, 1000, 0, 1000, 1000, 1000, 5), 100);
    assert_eq!(get_donut_tokens_amount(1000, 1000, 1000, 0, 1000, 1000, 5), 100);
    assert_eq!(get_donut_tokens_amount(1000, 1000, 1000, 1000, 0, 1000, 5), 100);
    assert_eq!(get_donut_tokens_amount(1000, 1000, 1000, 1000, 1000, 0, 5), 100);
}

#[test]
fn estimator_zero_deposit_returns_fallback() {
    assert_eq!(get_donut_tokens_amount(1000, 1000, 1000, 1000, 1000, 1000, 0), 100);
}

#[test]
fn estimator_overflow_returns_fallback() {
    // The first cross product leaves the wide signed range.
    assert_eq!(
        get_donut_tokens_amount(u64::MAX, 1000, 1, 1000, u64::MAX, 1000, 5),
        100
    );
}

#[test]
fn estimator_positive_truncation_returns_one() {
    // Pooled sides of one against a billion: the fee-adjusted ratio is one,
    // so a five-unit deposit scales to five, which truncates to zero tokens;
    // the estimator floors at one.
    let donut = get_donut_tokens_amount(1, 1, 1, 1, 1, 1_000_000_000, 5);
    assert_eq!(donut, 1);
}

#[test]
fn address_check_reports_given_code() {
    let ok = verify_address_strict(&key(4), &key(4), ErrorCode::InvalidPoolAddress);
    assert_eq!(ok, Ok(()));
    let bad = verify_address_strict(&key(5), &key(4), ErrorCode::InvalidPoolAddress);
    assert_eq!(bad, Err(ErrorCode::InvalidPoolAddress));
}

#[test]
fn fixed_address_checks_report_first_mismatch() {
    let c = cfg();
    assert_eq!(
        verify_all_fixed_addresses(&key(99), &c.b_vault_lp, &c.token_mint, &c.wsol_mint, &c),
        Err(ErrorCode::InvalidPoolAddress)
    );
    assert_eq!(
        verify_all_fixed_addresses(&c.pool, &key(99), &c.token_mint, &c.wsol_mint, &c),
        Err(ErrorCode::InvalidVaultAddress)
    );
    assert_eq!(
        verify_all_fixed_addresses(&c.pool, &c.b_vault_lp, &key(99), &c.wsol_mint, &c),
        Err(ErrorCode::InvalidTokenMintAddress)
    );
    assert_eq!(
        verify_all_fixed_addresses(&c.pool, &c.b_vault_lp, &c.token_mint, &c.wsol_mint, &c),
        Ok(())
    );
}

#[test]
fn vault_a_checks_report_each_code() {
    let c = cfg();
    assert_eq!(
        verify_vault_a_addresses(&key(99), &c.a_vault_lp_mint, &c.a_token_vault, &c),
        Err(ErrorCode::InvalidVaultALpAddress)
    );
    assert_eq!(
        verify_vault_a_addresses(&c.a_vault_lp, &key(99), &c.a_token_vault, &c),
        Err(ErrorCode::InvalidVaultALpMintAddress)
    );
    assert_eq!(
        verify_vault_a_addresses(&c.a_vault_lp, &c.a_vault_lp_mint, &key(99), &c),
        Err(ErrorCode::InvalidTokenAVaultAddress)
    );
}
