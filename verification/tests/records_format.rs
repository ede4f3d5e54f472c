use matrix_system::keys::Key;
use matrix_system::accounts::{ReferralChain, ReferralUpline, UplineEntry, UserAccount};
use matrix_system::records::{parse_user_account, read_u32_le, read_u64_le, serialize_user_account};
use matrix_system::token::{parse_mint_supply, parse_token_account};
use spl_token::solana_program::program_pack::Pack;

fn key(n: u64) -> Key {
    Key { w0: n, w1: n + 1, w2: n + 2, w3: n + 3 }
}

fn push_key_bytes(out: &mut Vec<u8>, k: &Key) {
    out.extend_from_slice(&k.w0.to_le_bytes());
    out.extend_from_slice(&k.w1.to_le_bytes());
    out.extend_from_slice(&k.w2.to_le_bytes());
    out.extend_from_slice(&k.w3.to_le_bytes());
}

fn token_account_bytes(mint: &Key, owner: &Key, amount: u64) -> Vec<u8> {
    let mut d = Vec::new();
    push_key_bytes(&mut d, mint);
    push_key_bytes(&mut d, owner);
    d.extend_from_slice(&amount.to_le_bytes());
    d.extend_from_slice(&[0u8; 36]); // no delegate
    d.push(1); // initialized
    d.extend_from_slice(&[0u8; 12]); // not native
    d.extend_from_slice(&[0u8; 8]); // delegated amount
    d.extend_from_slice(&[0u8; 36]); // no close authority
    assert_eq!(d.len(), 165);
    d
}

fn mint_bytes(supply: u64) -> Vec<u8> {
    let mut d = vec![0u8; 36];
    d.extend_from_slice(&supply.to_le_bytes());
    d.push(9); // decimals
    d.push(1); // initialized
    d.extend_from_slice(&[0u8; 36]); // no freeze authority
    assert_eq!(d.len(), 82);
    d
}

fn sample_account() -> UserAccount {
    UserAccount {
        is_registered: true,
        referrer: Some(key(40)),
        owner_wallet: key(50),
        upline: ReferralUpline {
            id: 7,
            depth: 3,
            upline: vec![
                UplineEntry { pda: key(60), wallet: key(70) },
                UplineEntry { pda: key(80), wallet: key(90) },
            ],
        },
        chain: ReferralChain {
            id: 9,
            slots: vec![Some(key(100)), Some(key(110)), None],
            filled_slots: 2,
        },
        reserved_sol: 500,
        reserved_tokens: 40,
    }
}

#[test]
fn serialized_record_parses_back() {
    let acct = sample_account();
    let bytes = serialize_user_account(&acct);
    let parsed = parse_user_account(&bytes, 0).expect("well-formed record must parse");
    assert_eq!(parsed, acct);
}

#[test]
fn serialized_record_parses_past_a_header() {
    let acct = sample_account();
    let mut bytes = vec![0xAAu8; 8];
    bytes.extend_from_slice(&serialize_user_account(&acct));
    let parsed = parse_user_account(&bytes, 8).expect("record past the header must parse");
    assert_eq!(parsed, acct);
}

#[test]
fn trailing_bytes_are_ignored() {
    let acct = sample_account();
    let mut bytes = serialize_user_account(&acct);
    bytes.extend_from_slice(&[1, 2, 3, 4]);
    let parsed = parse_user_account(&bytes, 0).expect("trailing bytes do not matter");
    assert_eq!(parsed, acct);
}

#[test]
fn truncated_record_fails_to_parse() {
    let acct = sample_account();
    let bytes = serialize_user_account(&acct);
    let cut = bytes[..bytes.len() - 1].to_vec();
    assert!(parse_user_account(&cut, 0).is_none());
}

#[test]
fn bad_flag_byte_fails_to_parse() {
    let acct = sample_account();
    let mut bytes = serialize_user_account(&acct);
    bytes[0] = 2; // the registered flag must be 0 or 1
    assert!(parse_user_account(&bytes, 0).is_none());
}

#[test]
fn bad_option_tag_fails_to_parse() {
    let acct = sample_account();
    let mut bytes = serialize_user_account(&acct);
    bytes[1] = 7; // the sponsor tag must be 0 or 1
    assert!(parse_user_account(&bytes, 0).is_none());
}

#[test]
fn little_endian_readers_match_std() {
    let d = vec![0x11, 0x22, 0x33, 0x44, 0x55, 0x66, 0x77, 0x88, 0x99];
    assert_eq!(read_u32_le(&d, 0), u32::from_le_bytes([0x11, 0x22, 0x33, 0x44]));
    assert_eq!(read_u64_le(&d, 1), u64::from_le_bytes([0x22, 0x33, 0x44, 0x55, 0x66, 0x77, 0x88, 0x99]));
}

#[test]
fn token_account_parses_fields() {
    let mint = key(1);
    let owner = key(2);
    let d = token_account_bytes(&mint, &owner, 123_456);
    let (m, o, a) = parse_token_account(&d).expect("valid token record");
    assert_eq!(m, mint);
    assert_eq!(o, owner);
    assert_eq!(a, 123_456);
}

#[test]
fn token_account_matches_reference_packer() {
    // Cross-check the record builder against the token program's own packer.
    let mut acct = spl_token::state::Account::default();
    acct.mint = spl_token::solana_program::pubkey::Pubkey::new_from_array([3u8; 32]);
    acct.owner = spl_token::solana_program::pubkey::Pubkey::new_from_array([4u8; 32]);
    acct.amount = 777;
    acct.state = spl_token::state::AccountState::Initialized;
    let mut d = vec![0u8; 165];
    spl_token::state::Account::pack(acct, &mut d).unwrap();
    let (m, o, a) = parse_token_account(&d).expect("packed record must parse");
    let w = u64::from_le_bytes([3; 8]);
    assert_eq!(m, Key { w0: w, w1: w, w2: w, w3: w });
    let w4 = u64::from_le_bytes([4; 8]);
    assert_eq!(o, Key { w0: w4, w1: w4, w2: w4, w3: w4 });
    assert_eq!(a, 777);
}

#[test]
fn uninitialized_token_account_rejected() {
    let mut d = token_account_bytes(&key(1), &key(2), 5);
    d[108] = 0; // uninitialized state
    assert!(parse_token_account(&d).is_none());
}

#[test]
fn bad_delegate_tag_rejected() {
    let mut d = token_account_bytes(&key(1), &key(2), 5);
    d[72] = 9; // malformed optional-field tag
    assert!(parse_token_account(&d).is_none());
}

#[test]
fn wrong_length_token_account_rejected() {
    let mut d = token_account_bytes(&key(1), &key(2), 5);
    d.push(0);
    assert!(parse_token_account(&d).is_none());
}

#[test]
fn mint_supply_parses() {
    let d = mint_bytes(42_000);
    assert_eq!(parse_mint_supply(&d), Some(42_000));
}

#[test]
fn uninitialized_mint_rejected() {
    let mut d = mint_bytes(42_000);
    d[45] = 0;
    assert!(parse_mint_supply(&d).is_none());
}
