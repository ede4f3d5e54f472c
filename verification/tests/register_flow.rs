use matrix_system::keys::{Key, VerifiedAddresses};
use matrix_system::errors::ErrorCode;
use matrix_system::accounts::{AccountRecord, ProgramState, ReferralChain, ReferralUpline, UserAccount};
use matrix_system::oracle::OracleReading;
use matrix_system::records::serialize_user_account;
use matrix_system::register::{initialize, register_with_sol_deposit, register_without_referrer, FinancialAction, RegistrationOutcome};

fn key(n: u64) -> Key {
    Key { w0: n, w1: 0, w2: 0, w3: 0 }
}

fn cfg() -> VerifiedAddresses {
    VerifiedAddresses {
        a_vault_lp: key(1),
        a_vault_lp_mint: key(2),
        a_token_vault: key(3),
        pool: key(4),
        b_vault_lp: key(5),
        token_mint: key(6),
        wsol_mint: key(7),
        chainlink_program: key(8),
        sol_usd_feed: key(9),
        multisig_treasury: key(10),
        authorized_initializer: key(11),
        spl_token_program: key(12),
        system_program: key(13),
        program_id: key(14),
    }
}

fn push_key_bytes(out: &mut Vec<u8>, k: &Key) {
    out.extend_from_slice(&k.w0.to_le_bytes());
    out.extend_from_slice(&k.w1.to_le_bytes());
    out.extend_from_slice(&k.w2.to_le_bytes());
    out.extend_from_slice(&k.w3.to_le_bytes());
}

fn token_account_bytes(mint: &Key, owner: &Key, amount: u64) -> Vec<u8> {
    let mut d = Vec::new();
    push_key_bytes(&mut d, mint);
    push_key_bytes(&mut d, owner);
    d.extend_from_slice(&amount.to_le_bytes());
    d.extend_from_slice(&[0u8; 36]);
    d.push(1);
    d.extend_from_slice(&[0u8; 12]);
    d.extend_from_slice(&[0u8; 8]);
    d.extend_from_slice(&[0u8; 36]);
    d
}

fn mint_bytes(supply: u64) -> Vec<u8> {
    let mut d = vec![0u8; 36];
    d.extend_from_slice(&supply.to_le_bytes());
    d.push(9);
    d.push(1);
    d.extend_from_slice(&[0u8; 36]);
    d
}

fn record(k: Key, owner_program: Key, data: Vec<u8>) -> AccountRecord {
    AccountRecord { key: k, owner_program, data }
}

struct Setup {
    cfg: VerifiedAddresses,
    referrer_key: Key,
    referrer_wallet: Key,
    user_wallet: Key,
    referrer_token: AccountRecord,
    pool_key: Key,
    token_mint_key: Key,
    wsol_mint_key: Key,
    b_vault_lp: AccountRecord,
    b_vault_lp_mint: AccountRecord,
    b_token_vault: AccountRecord,
}

fn setup() -> Setup {
    let c = cfg();
    let referrer_wallet = key(20);
    let user_wallet = key(21);
    Setup {
        referrer_key: key(22),
        referrer_wallet,
        user_wallet,
        referrer_token: record(
            key(23),
            c.spl_token_program,
            token_account_bytes(&c.token_mint, &referrer_wallet, 0),
        ),
        pool_key: c.pool,
        token_mint_key: c.token_mint,
        wsol_mint_key: c.wsol_mint,
        b_vault_lp: record(c.b_vault_lp, c.spl_token_program, token_account_bytes(&c.wsol_mint, &c.pool, 1000)),
        b_vault_lp_mint: record(key(24), c.spl_token_program, mint_bytes(1000)),
        b_token_vault: record(key(25), c.spl_token_program, token_account_bytes(&c.wsol_mint, &c.pool, 1000)),
        cfg: c,
    }
}

/// The five leading auxiliary records, then the payer's wrapped-asset
/// account, then any ancestor triples.
fn remaining(s: &Setup, trios: Vec<AccountRecord>) -> Vec<AccountRecord> {
    let c = &s.cfg;
    let mut v = vec![
        record(c.a_vault_lp, c.spl_token_program, token_account_bytes(&key(30), &c.pool, 1000)),
        record(c.a_vault_lp_mint, c.spl_token_program, mint_bytes(1000)),
        record(c.a_token_vault, c.spl_token_program, token_account_bytes(&key(30), &c.pool, 1000)),
        record(c.sol_usd_feed, c.chainlink_program, Vec::new()),
        record(c.chainlink_program, key(31), Vec::new()),
        record(key(32), c.spl_token_program, token_account_bytes(&c.wsol_mint, &s.user_wallet, 0)),
    ];
    v.extend(trios);
    v
}

fn fresh_referrer(chain_id: u32) -> UserAccount {
    UserAccount {
        is_registered: true,
        referrer: None,
        owner_wallet: key(20),
        upline: ReferralUpline { id: 1, depth: 1, upline: Vec::new() },
        chain: ReferralChain { id: chain_id, slots: vec![None, None, None], filled_slots: 0 },
        reserved_sol: 0,
        reserved_tokens: 0,
    }
}

fn fresh_state() -> ProgramState {
    ProgramState {
        owner: key(11),
        multisig_treasury: key(10),
        next_upline_id: 20,
        next_chain_id: 30,
        last_mint_amount: 0,
    }
}

fn oracle() -> Option<OracleReading> {
    Some(OracleReading { answer: 100_00000000, decimals: 8, now: 1_000_000, feed_timestamp: 1_000_000 })
}

const DEPOSIT: u64 = 100_000_000;

fn call(
    st: &mut ProgramState,
    referrer: &mut UserAccount,
    s: &Setup,
    deposit: u64,
    reading: &Option<OracleReading>,
    rem: &Vec<AccountRecord>,
) -> Result<RegistrationOutcome, ErrorCode> {
    register_with_sol_deposit(
        st,
        referrer,
        &s.referrer_key,
        &s.referrer_wallet,
        &s.cfg.system_program,
        &s.referrer_token,
        &s.user_wallet,
        deposit,
        reading,
        &s.pool_key,
        &s.token_mint_key,
        &s.wsol_mint_key,
        &s.b_vault_lp,
        &s.b_vault_lp_mint,
        &s.b_token_vault,
        rem,
        &s.cfg,
    )
}

fn ancestor_info_record(pda: Key, program_id: Key, acct: &UserAccount) -> AccountRecord {
    let mut data = vec![0u8; 8];
    data.extend_from_slice(&serialize_user_account(acct));
    record(pda, program_id, data)
}

#[test]
fn three_registrations_fill_and_reset_the_chain() {
    let s = setup();
    let mut st = fresh_state();
    let mut referrer = fresh_referrer(5);
    let rem = remaining(&s, Vec::new());

    // First registration fills slot 0 and deposits straight into the pool.
    let out1 = call(&mut st, &mut referrer, &s, DEPOSIT, &oracle(), &rem).unwrap();
    assert_eq!(referrer.chain.filled_slots, 1);
    assert_eq!(referrer.chain.slots[0], Some(s.user_wallet));
    assert_eq!(referrer.chain.id, 5);
    assert_eq!(out1.actions, vec![FinancialAction::DepositToPool { amount: DEPOSIT }]);
    assert_eq!(out1.events.len(), 1);
    assert_eq!(out1.events[0].slot_idx, 0);
    assert_eq!(out1.events[0].chain_id, 5);
    assert_eq!(st.next_chain_id, 31);
    assert_eq!(out1.new_user.upline.depth, 2);
    assert_eq!(out1.new_user.upline.upline.len(), 1);
    assert_eq!(out1.new_user.upline.upline[0].pda, s.referrer_key);
    assert_eq!(out1.new_user.referrer, Some(s.referrer_key));

    // Second registration fills slot 1: the deposit is escrowed and the
    // throttled quote minted.
    let out2 = call(&mut st, &mut referrer, &s, DEPOSIT, &oracle(), &rem).unwrap();
    assert_eq!(referrer.chain.filled_slots, 2);
    assert_eq!(referrer.chain.slots[1], Some(s.user_wallet));
    assert_eq!(referrer.reserved_sol, DEPOSIT);
    let expected_mint: u64 = 121_951_219;
    assert_eq!(referrer.reserved_tokens, expected_mint);
    assert_eq!(st.last_mint_amount, expected_mint);
    assert_eq!(
        out2.actions,
        vec![
            FinancialAction::ReserveSol { amount: DEPOSIT },
            FinancialAction::MintTokens { amount: expected_mint },
        ]
    );
    assert_eq!(st.next_chain_id, 32);

    // Third registration fills slot 2: the escrow is paid out and the chain
    // completes, restarting empty under a fresh id.
    let out3 = call(&mut st, &mut referrer, &s, DEPOSIT, &oracle(), &rem).unwrap();
    assert_eq!(referrer.chain.filled_slots, 0);
    assert_eq!(referrer.chain.slots, vec![None, None, None]);
    assert_eq!(referrer.chain.id, 33);
    assert_eq!(referrer.reserved_sol, 0);
    assert_eq!(referrer.reserved_tokens, 0);
    assert_eq!(
        out3.actions,
        vec![
            FinancialAction::PayWallet { wallet: s.referrer_wallet, amount: DEPOSIT },
            FinancialAction::TransferTokens { destination: s.referrer_token.key, amount: expected_mint },
        ]
    );
    assert_eq!(out3.events[0].slot_idx, 2);
    assert_eq!(st.next_chain_id, 34);
}

#[test]
fn settlement_pays_escrow_and_propagates() {
    let s = setup();
    let mut st = fresh_state();
    let mut referrer = UserAccount {
        chain: ReferralChain {
            id: 5,
            slots: vec![Some(key(41)), Some(key(42)), None],
            filled_slots: 2,
        },
        reserved_sol: 500,
        reserved_tokens: 40,
        ..fresh_referrer(5)
    };
    let ancestor = fresh_referrer(77);
    let anc_wallet = key(201);
    let trio = vec![
        ancestor_info_record(key(200), s.cfg.program_id, &ancestor),
        record(anc_wallet, s.cfg.system_program, Vec::new()),
        record(key(202), s.cfg.spl_token_program, token_account_bytes(&s.cfg.token_mint, &anc_wallet, 0)),
    ];
    let rem = remaining(&s, trio);

    let out = call(&mut st, &mut referrer, &s, DEPOSIT, &oracle(), &rem).unwrap();

    // Exactly the reserved amounts are paid out and the fields zeroed.
    assert_eq!(out.actions[0], FinancialAction::PayWallet { wallet: s.referrer_wallet, amount: 500 });
    assert_eq!(out.actions[1], FinancialAction::TransferTokens { destination: s.referrer_token.key, amount: 40 });
    assert_eq!(referrer.reserved_sol, 0);
    assert_eq!(referrer.reserved_tokens, 0);
    assert_eq!(referrer.chain.filled_slots, 0);

    // The ancestor received the slot action for its own fill (slot 0): the
    // carried deposit went to the pool and its chain advanced by one.
    assert_eq!(out.upline_writes.len(), 1);
    assert_eq!(out.upline_writes[0].pda, key(200));
    assert_eq!(out.upline_writes[0].account.chain.filled_slots, 1);
    assert_eq!(out.upline_writes[0].account.chain.slots[0], Some(s.referrer_key));
    assert_eq!(out.actions[2], FinancialAction::DepositToPool { amount: DEPOSIT });
    assert_eq!(out.actions.len(), 3);
    assert_eq!(out.events.len(), 2);
    assert_eq!(out.events[1].slot_idx, 0);
    assert_eq!(out.events[1].user, s.referrer_key);
    assert_eq!(out.events[1].owner, key(200));
}

#[test]
fn deposit_one_below_minimum_fails_and_mutates_nothing() {
    let s = setup();
    let mut st = fresh_state();
    let mut referrer = fresh_referrer(5);
    let st_before = st;
    let referrer_before = referrer.clone();
    let rem = remaining(&s, Vec::new());

    let r = call(&mut st, &mut referrer, &s, DEPOSIT - 1, &oracle(), &rem);
    assert_eq!(r.err(), Some(ErrorCode::InsufficientDeposit));
    assert_eq!(st, st_before);
    assert_eq!(referrer, referrer_before);
}

#[test]
fn unregistered_referrer_is_rejected() {
    let s = setup();
    let mut st = fresh_state();
    let mut referrer = fresh_referrer(5);
    referrer.is_registered = false;
    let rem = remaining(&s, Vec::new());
    let r = call(&mut st, &mut referrer, &s, DEPOSIT, &oracle(), &rem);
    assert_eq!(r.err(), Some(ErrorCode::ReferrerNotRegistered));
}

#[test]
fn missing_auxiliary_accounts_are_rejected() {
    let s = setup();
    let mut st = fresh_state();
    let mut referrer = fresh_referrer(5);
    let mut rem = remaining(&s, Vec::new());
    rem.truncate(4);
    let r = call(&mut st, &mut referrer, &s, DEPOSIT, &oracle(), &rem);
    assert_eq!(r.err(), Some(ErrorCode::MissingVaultAAccounts));
}

#[test]
fn wrong_vault_a_address_is_rejected() {
    let s = setup();
    let mut st = fresh_state();
    let mut referrer = fresh_referrer(5);
    let mut rem = remaining(&s, Vec::new());
    rem[0].key = key(99);
    let r = call(&mut st, &mut referrer, &s, DEPOSIT, &oracle(), &rem);
    assert_eq!(r.err(), Some(ErrorCode::InvalidVaultALpAddress));
}

#[test]
fn wrong_oracle_program_is_rejected() {
    let s = setup();
    let mut st = fresh_state();
    let mut referrer = fresh_referrer(5);
    let mut rem = remaining(&s, Vec::new());
    rem[4].key = key(99);
    let r = call(&mut st, &mut referrer, &s, DEPOSIT, &oracle(), &rem);
    assert_eq!(r.err(), Some(ErrorCode::InvalidChainlinkProgram));
}

#[test]
fn unreadable_feed_is_rejected() {
    let s = setup();
    let mut st = fresh_state();
    let mut referrer = fresh_referrer(5);
    let rem = remaining(&s, Vec::new());
    let r = call(&mut st, &mut referrer, &s, DEPOSIT, &None, &rem);
    assert_eq!(r.err(), Some(ErrorCode::PriceFeedReadFailed));
}

#[test]
fn referrer_token_account_of_wrong_wallet_is_rejected() {
    let mut s = setup();
    s.referrer_token = record(
        key(23),
        s.cfg.spl_token_program,
        token_account_bytes(&s.cfg.token_mint, &key(99), 0),
    );
    let mut st = fresh_state();
    let mut referrer = fresh_referrer(5);
    let rem = remaining(&s, Vec::new());
    let r = call(&mut st, &mut referrer, &s, DEPOSIT, &oracle(), &rem);
    assert_eq!(r.err(), Some(ErrorCode::InvalidWalletForATA));
}

#[test]
fn missing_wrapped_asset_account_is_rejected() {
    let s = setup();
    let mut st = fresh_state();
    let mut referrer = fresh_referrer(5);
    let mut rem = remaining(&s, Vec::new());
    rem.truncate(5); // no wrapped-asset account for a slot-0 registration
    let r = call(&mut st, &mut referrer, &s, DEPOSIT, &oracle(), &rem);
    assert_eq!(r.err(), Some(ErrorCode::MissingWsolAccount));
}

#[test]
fn wrapped_asset_account_of_wrong_mint_is_rejected() {
    let s = setup();
    let mut st = fresh_state();
    let mut referrer = fresh_referrer(5);
    let mut rem = remaining(&s, Vec::new());
    rem[5] = record(key(32), s.cfg.spl_token_program, token_account_bytes(&key(99), &s.user_wallet, 0));
    let r = call(&mut st, &mut referrer, &s, DEPOSIT, &oracle(), &rem);
    assert_eq!(r.err(), Some(ErrorCode::InvalidTokenMintAddress));
}

#[test]
fn ragged_ancestor_triples_are_rejected() {
    let s = setup();
    let mut st = fresh_state();
    let mut referrer = UserAccount {
        chain: ReferralChain {
            id: 5,
            slots: vec![Some(key(41)), Some(key(42)), None],
            filled_slots: 2,
        },
        ..fresh_referrer(5)
    };
    let trio = vec![record(key(200), s.cfg.program_id, Vec::new())];
    let rem = remaining(&s, trio);
    let r = call(&mut st, &mut referrer, &s, DEPOSIT, &oracle(), &rem);
    assert_eq!(r.err(), Some(ErrorCode::MissingUplineAccount));
}

#[test]
fn ancestor_wallet_not_system_owned_is_rejected() {
    let s = setup();
    let mut st = fresh_state();
    let mut referrer = UserAccount {
        chain: ReferralChain {
            id: 5,
            slots: vec![Some(key(41)), Some(key(42)), None],
            filled_slots: 2,
        },
        ..fresh_referrer(5)
    };
    let ancestor = fresh_referrer(77);
    let trio = vec![
        ancestor_info_record(key(200), s.cfg.program_id, &ancestor),
        record(key(201), key(99), Vec::new()),
        record(key(202), s.cfg.spl_token_program, Vec::new()),
    ];
    let rem = remaining(&s, trio);
    let r = call(&mut st, &mut referrer, &s, DEPOSIT, &oracle(), &rem);
    assert_eq!(r.err(), Some(ErrorCode::PaymentWalletInvalid));
}

#[test]
fn ancestor_record_of_wrong_owner_is_rejected() {
    let s = setup();
    let mut st = fresh_state();
    let mut referrer = UserAccount {
        chain: ReferralChain {
            id: 5,
            slots: vec![Some(key(41)), Some(key(42)), None],
            filled_slots: 2,
        },
        ..fresh_referrer(5)
    };
    let ancestor = fresh_referrer(77);
    let trio = vec![
        ancestor_info_record(key(200), key(99), &ancestor),
        record(key(201), s.cfg.system_program, Vec::new()),
        record(key(202), s.cfg.spl_token_program, Vec::new()),
    ];
    let rem = remaining(&s, trio);
    let r = call(&mut st, &mut referrer, &s, DEPOSIT, &oracle(), &rem);
    assert_eq!(r.err(), Some(ErrorCode::InvalidSlotOwner));
}

#[test]
fn short_ancestor_record_is_rejected() {
    let s = setup();
    let mut st = fresh_state();
    let mut referrer = UserAccount {
        chain: ReferralChain {
            id: 5,
            slots: vec![Some(key(41)), Some(key(42)), None],
            filled_slots: 2,
        },
        ..fresh_referrer(5)
    };
    let trio = vec![
        record(key(200), s.cfg.program_id, vec![0u8; 8]),
        record(key(201), s.cfg.system_program, Vec::new()),
        record(key(202), s.cfg.spl_token_program, Vec::new()),
    ];
    let rem = remaining(&s, trio);
    let r = call(&mut st, &mut referrer, &s, DEPOSIT, &oracle(), &rem);
    assert_eq!(r.err(), Some(ErrorCode::CannotLoadUplineAccount));
}

#[test]
fn malformed_ancestor_record_is_rejected() {
    let s = setup();
    let mut st = fresh_state();
    let mut referrer = UserAccount {
        chain: ReferralChain {
            id: 5,
            slots: vec![Some(key(41)), Some(key(42)), None],
            filled_slots: 2,
        },
        ..fresh_referrer(5)
    };
    let trio = vec![
        record(key(200), s.cfg.program_id, vec![9u8; 32]),
        record(key(201), s.cfg.system_program, Vec::new()),
        record(key(202), s.cfg.spl_token_program, Vec::new()),
    ];
    let rem = remaining(&s, trio);
    let r = call(&mut st, &mut referrer, &s, DEPOSIT, &oracle(), &rem);
    assert_eq!(r.err(), Some(ErrorCode::InvalidAccountDiscriminator));
}

#[test]
fn unregistered_ancestor_is_rejected() {
    let s = setup();
    let mut st = fresh_state();
    let mut referrer = UserAccount {
        chain: ReferralChain {
            id: 5,
            slots: vec![Some(key(41)), Some(key(42)), None],
            filled_slots: 2,
        },
        ..fresh_referrer(5)
    };
    let mut ancestor = fresh_referrer(77);
    ancestor.is_registered = false;
    let trio = vec![
        ancestor_info_record(key(200), s.cfg.program_id, &ancestor),
        record(key(201), s.cfg.system_program, Vec::new()),
        record(key(202), s.cfg.spl_token_program, Vec::new()),
    ];
    let rem = remaining(&s, trio);
    let r = call(&mut st, &mut referrer, &s, DEPOSIT, &oracle(), &rem);
    assert_eq!(r.err(), Some(ErrorCode::SlotNotRegistered));
}

#[test]
fn ancestry_window_caps_at_six_entries() {
    let s = setup();
    let mut st = fresh_state();
    let mut referrer = fresh_referrer(5);
    referrer.upline.upline = (0u64..6)
        .map(|i| matrix_system::accounts::UplineEntry { pda: key(300 + i), wallet: key(400 + i) })
        .collect();
    referrer.upline.depth = 7;
    let rem = remaining(&s, Vec::new());
    let out = call(&mut st, &mut referrer, &s, DEPOSIT, &oracle(), &rem).unwrap();
    // The oldest entry fell out; the sponsor itself came in last.
    let w = &out.new_user.upline.upline;
    assert_eq!(w.len(), 6);
    assert_eq!(w[0].pda, key(301));
    assert_eq!(w[4].pda, key(305));
    assert_eq!(w[5].pda, s.referrer_key);
    assert_eq!(out.new_user.upline.depth, 8);
}

#[test]
fn initialize_requires_the_configured_identity() {
    let c = cfg();
    assert_eq!(initialize(&key(99), &c).err(), Some(ErrorCode::NotAuthorized));
    let st = initialize(&key(11), &c).unwrap();
    assert_eq!(st.next_upline_id, 1);
    assert_eq!(st.next_chain_id, 1);
    assert_eq!(st.last_mint_amount, 0);
    assert_eq!(st.multisig_treasury, key(10));
    assert_eq!(st.owner, key(11));
}

#[test]
fn root_registration_requires_the_treasury() {
    let s = setup();
    let mut st = fresh_state();
    let r = register_without_referrer(
        &mut st, &key(99), &s.user_wallet, &s.pool_key, &s.cfg.b_vault_lp,
        &s.token_mint_key, DEPOSIT, &s.cfg,
    );
    assert_eq!(r.err(), Some(ErrorCode::NotAuthorized));
}

#[test]
fn root_registration_creates_the_root_account() {
    let s = setup();
    let mut st = fresh_state();
    let (user, actions) = register_without_referrer(
        &mut st, &key(10), &s.user_wallet, &s.pool_key, &s.cfg.b_vault_lp,
        &s.token_mint_key, DEPOSIT, &s.cfg,
    ).unwrap();
    assert!(user.is_registered);
    assert_eq!(user.referrer, None);
    assert_eq!(user.upline.depth, 1);
    assert_eq!(user.upline.id, 20);
    assert_eq!(user.chain.id, 30);
    assert_eq!(user.chain.filled_slots, 0);
    assert_eq!(st.next_upline_id, 21);
    assert_eq!(st.next_chain_id, 31);
    assert_eq!(
        actions,
        vec![FinancialAction::SyncNative, FinancialAction::DepositToPool { amount: DEPOSIT }]
    );
}

#[test]
fn root_registration_checks_the_pool_address() {
    let s = setup();
    let mut st = fresh_state();
    let r = register_without_referrer(
        &mut st, &key(10), &s.user_wallet, &key(99), &s.cfg.b_vault_lp,
        &s.token_mint_key, DEPOSIT, &s.cfg,
    );
    assert_eq!(r.err(), Some(ErrorCode::InvalidPoolAddress));
    assert_eq!(st.next_upline_id, 20);
}

#[test]
fn cascade_continues_through_completed_chains() {
    let s = setup();
    let mut st = fresh_state();
    let mut referrer = UserAccount {
        chain: ReferralChain {
            id: 5,
            slots: vec![Some(key(41)), Some(key(42)), None],
            filled_slots: 2,
        },
        ..fresh_referrer(5)
    };
    // Ancestor A sits at slot 2 with escrow: it is paid out, completes, and
    // the cascade moves on. Ancestor B sits at slot 1: it consumes the
    // deposit and the cascade stops.
    let anc_a = UserAccount {
        chain: ReferralChain {
            id: 60,
            slots: vec![Some(key(43)), Some(key(44)), None],
            filled_slots: 2,
        },
        reserved_sol: 300,
        reserved_tokens: 7,
        ..fresh_referrer(60)
    };
    let anc_b = UserAccount {
        chain: ReferralChain {
            id: 61,
            slots: vec![Some(key(45)), None, None],
            filled_slots: 1,
        },
        ..fresh_referrer(61)
    };
    let a_wallet = key(201);
    let b_wallet = key(211);
    let trios = vec![
        ancestor_info_record(key(200), s.cfg.program_id, &anc_a),
        record(a_wallet, s.cfg.system_program, Vec::new()),
        record(key(202), s.cfg.spl_token_program, token_account_bytes(&s.cfg.token_mint, &a_wallet, 0)),
        ancestor_info_record(key(210), s.cfg.program_id, &anc_b),
        record(b_wallet, s.cfg.system_program, Vec::new()),
        record(key(212), s.cfg.spl_token_program, token_account_bytes(&s.cfg.token_mint, &b_wallet, 0)),
    ];
    let rem = remaining(&s, trios);

    let out = call(&mut st, &mut referrer, &s, DEPOSIT, &oracle(), &rem).unwrap();

    let expected_mint: u64 = 121_951_219;
    assert_eq!(
        out.actions,
        vec![
            FinancialAction::PayWallet { wallet: a_wallet, amount: 300 },
            FinancialAction::TransferTokens { destination: key(202), amount: 7 },
            FinancialAction::ReserveSol { amount: DEPOSIT },
            FinancialAction::MintTokens { amount: expected_mint },
        ]
    );

    // A completed and restarted under a fresh id; B escrowed the deposit.
    assert_eq!(out.upline_writes.len(), 2);
    assert_eq!(out.upline_writes[0].pda, key(200));
    assert_eq!(out.upline_writes[0].account.chain.filled_slots, 0);
    assert_eq!(out.upline_writes[0].account.chain.id, 32);
    assert_eq!(out.upline_writes[0].account.reserved_sol, 0);
    assert_eq!(out.upline_writes[0].account.reserved_tokens, 0);
    assert_eq!(out.upline_writes[1].pda, key(210));
    assert_eq!(out.upline_writes[1].account.chain.filled_slots, 2);
    assert_eq!(out.upline_writes[1].account.reserved_sol, DEPOSIT);
    assert_eq!(out.upline_writes[1].account.reserved_tokens, expected_mint);

    // Once A completed, the credit for the next fill moved to A itself.
    assert_eq!(out.events.len(), 3);
    assert_eq!(out.events[1].user, s.referrer_key);
    assert_eq!(out.events[1].owner, key(200));
    assert_eq!(out.events[2].user, key(200));
    assert_eq!(out.events[2].owner, key(210));

    assert_eq!(st.next_chain_id, 33);
    assert_eq!(st.last_mint_amount, expected_mint);
}

#[test]
fn unconsumed_deposit_falls_through_to_the_pool() {
    let s = setup();
    let mut st = fresh_state();
    let mut referrer = UserAccount {
        chain: ReferralChain {
            id: 5,
            slots: vec![Some(key(41)), Some(key(42)), None],
            filled_slots: 2,
        },
        ..fresh_referrer(5)
    };
    // The only supplied ancestor also completes its chain, so the deposit is
    // never consumed by a slot action; the catch-all routes it to the pool.
    let anc = UserAccount {
        chain: ReferralChain {
            id: 60,
            slots: vec![Some(key(43)), Some(key(44)), None],
            filled_slots: 2,
        },
        reserved_sol: 9,
        ..fresh_referrer(60)
    };
    let anc_wallet = key(201);
    let trios = vec![
        ancestor_info_record(key(200), s.cfg.program_id, &anc),
        record(anc_wallet, s.cfg.system_program, Vec::new()),
        record(key(202), s.cfg.spl_token_program, token_account_bytes(&s.cfg.token_mint, &anc_wallet, 0)),
    ];
    let rem = remaining(&s, trios);

    let out = call(&mut st, &mut referrer, &s, DEPOSIT, &oracle(), &rem).unwrap();
    assert_eq!(
        out.actions,
        vec![
            FinancialAction::PayWallet { wallet: anc_wallet, amount: 9 },
            FinancialAction::DepositToPool { amount: DEPOSIT },
        ]
    );
    assert_eq!(out.upline_writes.len(), 1);
    assert_eq!(out.upline_writes[0].account.chain.filled_slots, 0);
}
