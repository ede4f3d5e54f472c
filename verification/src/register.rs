//! The registration flow: validation of every supplied account, the slot
//! state machine on the direct sponsor, and the bounded upline propagation
//! that replays settlement up the ancestry once a chain completes. The
//! engine decides; the fund movements it decides on are returned as an
//! ordered action list for the embedding program to execute, all-or-nothing.

use vstd::prelude::*;
use crate::keys::{Key, VerifiedAddresses};
use crate::errors::ErrorCode;
use crate::accounts::{AccountRecord, ProgramState, ReferralChain, ReferralUpline, UplineEntry, UserAccount};
use crate::records::{UserAccountModel, spec_parse_user_account};
use crate::oracle::{OracleReading, spec_minimum_sol_deposit};
use crate::throttle::throttled_amount;
use crate::token::{spec_quote_records, spec_verify_ata, spec_verify_token_account, spec_verify_wsol};
use crate::verify::{spec_verify_all_fixed, spec_verify_chainlink, spec_verify_vault_a};
use crate::chain::{spec_fill_slot, spec_upline_window};

verus! {

/// One fund movement the engine asks its host to perform, in list order.
#[derive(Clone, Copy, PartialEq, Eq, Structural, Debug)]
pub enum FinancialAction {
    /// Fold the payer's native balance into its wrapped-asset account.
    SyncNative,
    /// Deposit the amount into the liquidity pool on the paying user's
    /// behalf.
    DepositToPool { amount: u64 },
    /// Move the amount from the paying user into the engine's reserve
    /// account.
    ReserveSol { amount: u64 },
    /// Mint the amount of reward tokens into the engine's reward vault.
    MintTokens { amount: u64 },
    /// Pay the amount from the reserve to a plain wallet.
    PayWallet { wallet: Key, amount: u64 },
    /// Transfer the amount of reward tokens from the vault to a token
    /// account.
    TransferTokens { destination: Key, amount: u64 },
}

/// The notification recorded when a chain slot is filled.
#[derive(Clone, Copy, PartialEq, Eq, Structural, Debug)]
pub struct SlotFilled {
    pub slot_idx: u8,
    pub chain_id: u32,
    pub user: Key,
    pub owner: Key,
}

/// A mutated ancestor record the host must write back to the store.
pub struct UplineWrite {
    pub pda: Key,
    pub account: UserAccount,
}

/// Everything a successful registration produced beyond the two accounts
/// mutated in place: the new user's record, the fund movements to perform,
/// the slot notifications to emit, and the ancestor records to write back.
pub struct RegistrationOutcome {
    pub new_user: UserAccount,
    pub actions: Vec<FinancialAction>,
    pub events: Vec<SlotFilled>,
    pub upline_writes: Vec<UplineWrite>,
}

/// The running state of the upline propagation: the next fresh chain id,
/// the throttle state, the key credited for the next slot fill, and the
/// deposit amount still to be consumed.
#[derive(Clone, Copy, PartialEq, Eq, Structural, Debug)]
pub struct PropCursor {
    pub next_chain_id: u32,
    pub last_mint_amount: u64,
    pub current_user: Key,
    pub current_deposit: u64,
}

/// What a finished propagation produced: the final cursor, the mutated
/// ancestor records keyed by address, the slot notifications, and the fund
/// movements, each in traversal order.
pub ghost struct PropResult {
    pub cursor: PropCursor,
    pub writes: Seq<(Key, UserAccountModel)>,
    pub events: Seq<SlotFilled>,
    pub actions: Seq<FinancialAction>,
}

/// Everything a successful registration amounts to: the global state and the
/// sponsor's record after the call, the new user's record, and the produced
/// action, notification and write-back lists.
pub ghost struct RegistrationModel {
    pub state: ProgramState,
    pub referrer: UserAccountModel,
    pub new_user: UserAccountModel,
    pub actions: Seq<FinancialAction>,
    pub events: Seq<SlotFilled>,
    pub upline_writes: Seq<(Key, UserAccountModel)>,
}

/// The financial action bound to the sponsor's current slot, applied before
/// the slot counter advances. Slot 0 deposits the incoming amount into the
/// pool from the payer's verified wrapped-asset account; slot 1 escrows the
/// amount and mints the throttled reward quote; slot 2 pays out both escrow
/// fields and zeroes them. A sponsor whose chain is already full gets no
/// action.
pub open spec fn spec_slot_action(
    referrer: UserAccountModel,
    last_mint: u64,
    deposit_amount: u64,
    user_wallet: Key,
    referrer_wallet_key: Key,
    referrer_wallet_owner: Key,
    referrer_token: AccountRecord,
    token_mint_key: Key,
    wsol_mint_key: Key,
    remaining: Seq<AccountRecord>,
    b_vault_lp: AccountRecord,
    b_vault_lp_mint: AccountRecord,
    b_token_vault: AccountRecord,
    cfg: VerifiedAddresses,
) -> Result<(UserAccountModel, u64, Seq<FinancialAction>), ErrorCode> {
    let slot = referrer.filled_slots;
    if slot == 0 {
        if remaining.len() <= 5 {
            Err(ErrorCode::MissingWsolAccount)
        } else {
            let w = remaining[5];
            match spec_verify_wsol(w.owner_program, w.data@, user_wallet, wsol_mint_key, cfg) {
                Err(e) => Err(e),
                Ok(_) => Ok((
                    referrer,
                    last_mint,
                    seq![FinancialAction::DepositToPool { amount: deposit_amount }],
                )),
            }
        }
    } else if slot == 1 {
        let quote = spec_quote_records(
            remaining[0].data@, b_vault_lp.data@,
            remaining[1].data@, b_vault_lp_mint.data@,
            remaining[2].data@, b_token_vault.data@,
            deposit_amount,
        );
        let adjusted = throttled_amount(last_mint, quote);
        Ok((
            (UserAccountModel { reserved_sol: deposit_amount, reserved_tokens: adjusted, ..referrer }),
            adjusted,
            seq![
                FinancialAction::ReserveSol { amount: deposit_amount },
                FinancialAction::MintTokens { amount: adjusted },
            ],
        ))
    } else if slot == 2 {
        if referrer.reserved_sol > 0 && referrer_wallet_owner != cfg.system_program {
            Err(ErrorCode::PaymentWalletInvalid)
        } else {
            match spec_verify_token_account(referrer_token.owner_program, referrer_token.data@,
                referrer_wallet_key, token_mint_key, cfg) {
                Err(e) => Err(e),
                Ok(_) => {
                    let pay: Seq<FinancialAction> = if referrer.reserved_sol > 0 {
                        seq![FinancialAction::PayWallet {
                            wallet: referrer_wallet_key,
                            amount: referrer.reserved_sol,
                        }]
                    } else {
                        Seq::empty()
                    };
                    let transfer: Seq<FinancialAction> = if referrer.reserved_tokens > 0 {
                        seq![FinancialAction::TransferTokens {
                            destination: referrer_token.key,
                            amount: referrer.reserved_tokens,
                        }]
                    } else {
                        Seq::empty()
                    };
                    Ok((
                        (UserAccountModel { reserved_sol: 0, reserved_tokens: 0, ..referrer }),
                        last_mint,
                        pay + transfer,
                    ))
                },
            }
        }
    } else {
        Ok((referrer, last_mint, Seq::empty()))
    }
}

/// One propagation hop over one ancestor triple (record, wallet, token
/// account): the structural validations in order, then the slot action for
/// the ancestor's current fill, the slot fill itself, and — when the
/// ancestor's chain completes — its reset under a fresh id, with the credit
/// for the next hop moving to this ancestor.
pub open spec fn spec_upline_step(
    info: AccountRecord,
    wallet: AccountRecord,
    tok: AccountRecord,
    cur: PropCursor,
    user_wallet: Key,
    token_mint_key: Key,
    wsol_mint_key: Key,
    wsol: AccountRecord,
    a_vault_lp: AccountRecord,
    a_vault_lp_mint: AccountRecord,
    a_token_vault: AccountRecord,
    b_vault_lp: AccountRecord,
    b_vault_lp_mint: AccountRecord,
    b_token_vault: AccountRecord,
    cfg: VerifiedAddresses,
) -> Result<(UserAccountModel, PropCursor, SlotFilled, Seq<FinancialAction>), ErrorCode> {
    if wallet.owner_program != cfg.system_program {
        Err(ErrorCode::PaymentWalletInvalid)
    } else if info.owner_program != cfg.program_id {
        Err(ErrorCode::InvalidSlotOwner)
    } else if info.data@.len() <= 8 {
        Err(ErrorCode::CannotLoadUplineAccount)
    } else {
        match spec_parse_user_account(info.data@, 8) {
            None => Err(ErrorCode::InvalidAccountDiscriminator),
            Some(anc) => {
                if !anc.is_registered {
                    Err(ErrorCode::SlotNotRegistered)
                } else if anc.filled_slots >= 3 {
                    Err(ErrorCode::ChainFull)
                } else {
                    let slot = anc.filled_slots;
                    if slot == 2 && tok.owner_program != cfg.spl_token_program {
                        Err(ErrorCode::TokenAccountInvalid)
                    } else if slot == 2 && (spec_verify_token_account(tok.owner_program, tok.data@,
                            wallet.key, token_mint_key, cfg) is Err) {
                        Err(ErrorCode::TokenAccountInvalid)
                    } else {
                        let event = SlotFilled {
                            slot_idx: slot,
                            chain_id: anc.chain_id,
                            user: cur.current_user,
                            owner: info.key,
                        };
                        if slot == 0 {
                            match spec_verify_wsol(wsol.owner_program, wsol.data@, user_wallet,
                                wsol_mint_key, cfg) {
                                Err(e) => Err(e),
                                Ok(_) => Ok((
                                    (UserAccountModel {
                                        slots: anc.slots.update(0, Some(cur.current_user)),
                                        filled_slots: 1,
                                        ..anc
                                    }),
                                    (PropCursor { current_deposit: 0, ..cur }),
                                    event,
                                    seq![FinancialAction::DepositToPool { amount: cur.current_deposit }],
                                )),
                            }
                        } else if slot == 1 {
                            let quote = spec_quote_records(
                                a_vault_lp.data@, b_vault_lp.data@,
                                a_vault_lp_mint.data@, b_vault_lp_mint.data@,
                                a_token_vault.data@, b_token_vault.data@,
                                cur.current_deposit,
                            );
                            let adjusted = throttled_amount(cur.last_mint_amount, quote);
                            Ok((
                                (UserAccountModel {
                                    slots: anc.slots.update(1, Some(cur.current_user)),
                                    filled_slots: 2,
                                    reserved_sol: cur.current_deposit,
                                    reserved_tokens: adjusted,
                                    ..anc
                                }),
                                (PropCursor { last_mint_amount: adjusted, current_deposit: 0, ..cur }),
                                event,
                                seq![
                                    FinancialAction::ReserveSol { amount: cur.current_deposit },
                                    FinancialAction::MintTokens { amount: adjusted },
                                ],
                            ))
                        } else {
                            let pay: Seq<FinancialAction> = if anc.reserved_sol > 0 {
                                seq![FinancialAction::PayWallet {
                                    wallet: wallet.key,
                                    amount: anc.reserved_sol,
                                }]
                            } else {
                                Seq::empty()
                            };
                            let transfer: Seq<FinancialAction> = if anc.reserved_tokens > 0 {
                                seq![FinancialAction::TransferTokens {
                                    destination: tok.key,
                                    amount: anc.reserved_tokens,
                                }]
                            } else {
                                Seq::empty()
                            };
                            Ok((
                                (UserAccountModel {
                                    chain_id: cur.next_chain_id,
                                    slots: seq![None, None, None],
                                    filled_slots: 0,
                                    reserved_sol: 0,
                                    reserved_tokens: 0,
                                    ..anc
                                }),
                                (PropCursor {
                                    next_chain_id: (cur.next_chain_id + 1) as u32,
                                    current_user: info.key,
                                    ..cur
                                }),
                                event,
                                pay + transfer,
                            ))
                        }
                    }
                }
            },
        }
    }
}

/// The upline propagation from trio `idx` on: it stops at once when the
/// carried deposit is consumed; when the triple list or the depth bound is
/// exhausted first, the remaining deposit is routed into one final pool
/// deposit from the payer's verified wrapped-asset account; otherwise one
/// hop is taken and propagation continues behind it.
pub open spec fn spec_propagate(
    trios: Seq<AccountRecord>,
    idx: nat,
    cur: PropCursor,
    user_wallet: Key,
    token_mint_key: Key,
    wsol_mint_key: Key,
    wsol: AccountRecord,
    a_vault_lp: AccountRecord,
    a_vault_lp_mint: AccountRecord,
    a_token_vault: AccountRecord,
    b_vault_lp: AccountRecord,
    b_vault_lp_mint: AccountRecord,
    b_token_vault: AccountRecord,
    cfg: VerifiedAddresses,
) -> Result<PropResult, ErrorCode>
    decreases 6 - idx,
{
    if cur.current_deposit == 0 {
        Ok(PropResult { cursor: cur, writes: Seq::empty(), events: Seq::empty(), actions: Seq::empty() })
    } else if idx >= trios.len() / 3 || idx >= 6 {
        match spec_verify_wsol(wsol.owner_program, wsol.data@, user_wallet, wsol_mint_key, cfg) {
            Err(e) => Err(e),
            Ok(_) => Ok(PropResult {
                cursor: cur,
                writes: Seq::empty(),
                events: Seq::empty(),
                actions: seq![FinancialAction::DepositToPool { amount: cur.current_deposit }],
            }),
        }
    } else {
        match spec_upline_step(trios[3 * idx as int], trios[3 * idx as int + 1], trios[3 * idx as int + 2], cur,
            user_wallet, token_mint_key, wsol_mint_key, wsol,
            a_vault_lp, a_vault_lp_mint, a_token_vault,
            b_vault_lp, b_vault_lp_mint, b_token_vault, cfg) {
            Err(e) => Err(e),
            Ok(step) => {
                match spec_propagate(trios, idx + 1, step.1,
                    user_wallet, token_mint_key, wsol_mint_key, wsol,
                    a_vault_lp, a_vault_lp_mint, a_token_vault,
                    b_vault_lp, b_vault_lp_mint, b_token_vault, cfg) {
                    Err(e) => Err(e),
                    Ok(rest) => Ok(PropResult {
                        cursor: rest.cursor,
                        writes: seq![(trios[3 * idx as int].key, step.0)] + rest.writes,
                        events: seq![step.2] + rest.events,
                        actions: step.3 + rest.actions,
                    }),
                }
            },
        }
    }
}

/// The write-backs of a propagation, as the model sees them: each mutated
/// ancestor's address paired with its record's model.
pub open spec fn writes_model(s: Seq<UplineWrite>) -> Seq<(Key, UserAccountModel)> {
    s.map_values(|w: UplineWrite| (w.pda, w.account@))
}

/// The executable side of [`spec_slot_action`]: the sponsor's new escrow
/// fields, the new throttle state, and the slot's fund movements.
fn apply_referrer_slot_action(
    referrer: &UserAccount,
    last_mint: u64,
    deposit_amount: u64,
    user_wallet: &Key,
    referrer_wallet_key: &Key,
    referrer_wallet_owner: &Key,
    referrer_token: &AccountRecord,
    token_mint_key: &Key,
    wsol_mint_key: &Key,
    remaining: &Vec<AccountRecord>,
    b_vault_lp: &AccountRecord,
    b_vault_lp_mint: &AccountRecord,
    b_token_vault: &AccountRecord,
    cfg: &VerifiedAddresses,
) -> (r: Result<(u64, u64, u64, Vec<FinancialAction>), ErrorCode>)
    requires
        remaining@.len() >= 5,
    ensures
        ({
            let spec = spec_slot_action(referrer@, last_mint, deposit_amount, *user_wallet,
                *referrer_wallet_key, *referrer_wallet_owner, *referrer_token, *token_mint_key,
                *wsol_mint_key, remaining@, *b_vault_lp, *b_vault_lp_mint, *b_token_vault, *cfg);
            match r {
                Ok(out) => (spec matches Ok(s)
                    && s.0 == (UserAccountModel {
                        reserved_sol: out.0,
                        reserved_tokens: out.1,
                        ..referrer@
                    })
                    && s.1 == out.2
                    && s.2 == out.3@),
                Err(e) => spec
                    == Err::<(UserAccountModel, u64, Seq<FinancialAction>), ErrorCode>(e),
            }
        }),
{
    let slot = referrer.chain.filled_slots;
    let mut actions: Vec<FinancialAction> = Vec::new();
    if slot == 0 {
        if remaining.len() <= 5 {
            return Err(ErrorCode::MissingWsolAccount);
        }
        match crate::token::verify_wsol_account(&remaining[5], user_wallet, wsol_mint_key, cfg) {
            Err(e) => {
                return Err(e);
            },
            Ok(_) => {},
        }
        actions.push(FinancialAction::DepositToPool { amount: deposit_amount });
        proof {
            let s = spec_slot_action(referrer@, last_mint, deposit_amount, *user_wallet,
                *referrer_wallet_key, *referrer_wallet_owner, *referrer_token, *token_mint_key,
                *wsol_mint_key, remaining@, *b_vault_lp, *b_vault_lp_mint, *b_token_vault, *cfg).unwrap();
            assert(actions@ =~= s.2);
        }
        Ok((referrer.reserved_sol, referrer.reserved_tokens, last_mint, actions))
    } else if slot == 1 {
        let quote = crate::token::quote_donut_tokens(&remaining[0], b_vault_lp, &remaining[1],
            b_vault_lp_mint, &remaining[2], b_token_vault, deposit_amount);
        let adjusted = crate::throttle::throttle_value(last_mint, quote);
        actions.push(FinancialAction::ReserveSol { amount: deposit_amount });
        actions.push(FinancialAction::MintTokens { amount: adjusted });
        proof {
            let s = spec_slot_action(referrer@, last_mint, deposit_amount, *user_wallet,
                *referrer_wallet_key, *referrer_wallet_owner, *referrer_token, *token_mint_key,
                *wsol_mint_key, remaining@, *b_vault_lp, *b_vault_lp_mint, *b_token_vault, *cfg).unwrap();
            assert(actions@ =~= s.2);
        }
        Ok((deposit_amount, adjusted, adjusted, actions))
    } else if slot == 2 {
        if referrer.reserved_sol > 0 && !(referrer_wallet_owner == &cfg.system_program) {
            return Err(ErrorCode::PaymentWalletInvalid);
        }
        match crate::token::verify_token_account(referrer_token, referrer_wallet_key, token_mint_key, cfg) {
            Err(e) => {
                return Err(e);
            },
            Ok(_) => {},
        }
        if referrer.reserved_sol > 0 {
            actions.push(FinancialAction::PayWallet {
                wallet: *referrer_wallet_key,
                amount: referrer.reserved_sol,
            });
        }
        if referrer.reserved_tokens > 0 {
            actions.push(FinancialAction::TransferTokens {
                destination: referrer_token.key,
                amount: referrer.reserved_tokens,
            });
        }
        proof {
            let s = spec_slot_action(referrer@, last_mint, deposit_amount, *user_wallet,
                *referrer_wallet_key, *referrer_wallet_owner, *referrer_token, *token_mint_key,
                *wsol_mint_key, remaining@, *b_vault_lp, *b_vault_lp_mint, *b_token_vault, *cfg).unwrap();
            assert(actions@ =~= s.2);
        }
        Ok((0, 0, last_mint, actions))
    } else {
        proof {
            let s = spec_slot_action(referrer@, last_mint, deposit_amount, *user_wallet,
                *referrer_wallet_key, *referrer_wallet_owner, *referrer_token, *token_mint_key,
                *wsol_mint_key, remaining@, *b_vault_lp, *b_vault_lp_mint, *b_token_vault, *cfg).unwrap();
            assert(actions@ =~= s.2);
        }
        Ok((referrer.reserved_sol, referrer.reserved_tokens, last_mint, actions))
    }
}

/// One executable propagation hop, exactly as [`spec_upline_step`]
/// describes it: validate the triple, parse the ancestor record past its
/// header, apply the slot action for its current fill, fill the slot, and
/// reset the chain on completion.
fn apply_upline_step(
    info: &AccountRecord,
    wallet: &AccountRecord,
    tok: &AccountRecord,
    cur: PropCursor,
    user_wallet: &Key,
    token_mint_key: &Key,
    wsol_mint_key: &Key,
    wsol: &AccountRecord,
    a_vault_lp: &AccountRecord,
    a_vault_lp_mint: &AccountRecord,
    a_token_vault: &AccountRecord,
    b_vault_lp: &AccountRecord,
    b_vault_lp_mint: &AccountRecord,
    b_token_vault: &AccountRecord,
    cfg: &VerifiedAddresses,
) -> (r: Result<(UserAccount, PropCursor, SlotFilled, Vec<FinancialAction>), ErrorCode>)
    requires
        cur.next_chain_id < u32::MAX,
    ensures
        ({
            let spec = spec_upline_step(*info, *wallet, *tok, cur, *user_wallet, *token_mint_key,
                *wsol_mint_key, *wsol, *a_vault_lp, *a_vault_lp_mint, *a_token_vault,
                *b_vault_lp, *b_vault_lp_mint, *b_token_vault, *cfg);
            match r {
                Ok(out) => (spec matches Ok(s) && out.0@ == s.0 && out.1 == s.1 && out.2 == s.2
                    && out.3@ == s.3),
                Err(e) => spec
                    == Err::<(UserAccountModel, PropCursor, SlotFilled, Seq<FinancialAction>), ErrorCode>(e),
            }
        }),
{
    if !(wallet.owner_program == cfg.system_program) {
        return Err(ErrorCode::PaymentWalletInvalid);
    }
    if !(info.owner_program == cfg.program_id) {
        return Err(ErrorCode::InvalidSlotOwner);
    }
    if info.data.len() <= 8 {
        return Err(ErrorCode::CannotLoadUplineAccount);
    }
    let mut anc = match crate::records::parse_user_account(&info.data, 8) {
        Some(a) => a,
        None => {
            return Err(ErrorCode::InvalidAccountDiscriminator);
        },
    };
    if !anc.is_registered {
        return Err(ErrorCode::SlotNotRegistered);
    }
    if anc.chain.filled_slots >= 3 {
        return Err(ErrorCode::ChainFull);
    }
    let slot = anc.chain.filled_slots;
    if slot == 2 {
        if !(tok.owner_program == cfg.spl_token_program) {
            return Err(ErrorCode::TokenAccountInvalid);
        }
        match crate::token::verify_token_account(tok, &wallet.key, token_mint_key, cfg) {
            Err(_) => {
                return Err(ErrorCode::TokenAccountInvalid);
            },
            Ok(_) => {},
        }
    }
    let event = SlotFilled {
        slot_idx: slot,
        chain_id: anc.chain.id,
        user: cur.current_user,
        owner: info.key,
    };
    let mut actions: Vec<FinancialAction> = Vec::new();
    if slot == 0 {
        match crate::token::verify_wsol_account(wsol, user_wallet, wsol_mint_key, cfg) {
            Err(e) => {
                return Err(e);
            },
            Ok(_) => {},
        }
        actions.push(FinancialAction::DepositToPool { amount: cur.current_deposit });
        anc.chain.slots.set(0, Some(cur.current_user));
        anc.chain.filled_slots = 1;
        proof {
            let s = spec_upline_step(*info, *wallet, *tok, cur, *user_wallet, *token_mint_key,
                *wsol_mint_key, *wsol, *a_vault_lp, *a_vault_lp_mint, *a_token_vault,
                *b_vault_lp, *b_vault_lp_mint, *b_token_vault, *cfg).unwrap();
            assert(actions@ =~= s.3);
        }
        Ok((anc, PropCursor { current_deposit: 0, ..cur }, event, actions))
    } else if slot == 1 {
        let quote = crate::token::quote_donut_tokens(a_vault_lp, b_vault_lp, a_vault_lp_mint,
            b_vault_lp_mint, a_token_vault, b_token_vault, cur.current_deposit);
        let adjusted = crate::throttle::throttle_value(cur.last_mint_amount, quote);
        actions.push(FinancialAction::ReserveSol { amount: cur.current_deposit });
        actions.push(FinancialAction::MintTokens { amount: adjusted });
        anc.chain.slots.set(1, Some(cur.current_user));
        anc.chain.filled_slots = 2;
        anc.reserved_sol = cur.current_deposit;
        anc.reserved_tokens = adjusted;
        proof {
            let s = spec_upline_step(*info, *wallet, *tok, cur, *user_wallet, *token_mint_key,
                *wsol_mint_key, *wsol, *a_vault_lp, *a_vault_lp_mint, *a_token_vault,
                *b_vault_lp, *b_vault_lp_mint, *b_token_vault, *cfg).unwrap();
            assert(actions@ =~= s.3);
        }
        Ok((anc, PropCursor { last_mint_amount: adjusted, current_deposit: 0, ..cur }, event, actions))
    } else {
        if anc.reserved_sol > 0 {
            actions.push(FinancialAction::PayWallet { wallet: wallet.key, amount: anc.reserved_sol });
        }
        if anc.reserved_tokens > 0 {
            actions.push(FinancialAction::TransferTokens { destination: tok.key, amount: anc.reserved_tokens });
        }
        anc.chain.id = cur.next_chain_id;
        let mut fresh: Vec<Option<Key>> = Vec::new();
        fresh.push(None);
        fresh.push(None);
        fresh.push(None);
        anc.chain.slots = fresh;
        anc.chain.filled_slots = 0;
        anc.reserved_sol = 0;
        anc.reserved_tokens = 0;
        proof {
            let s = spec_upline_step(*info, *wallet, *tok, cur, *user_wallet, *token_mint_key,
                *wsol_mint_key, *wsol, *a_vault_lp, *a_vault_lp_mint, *a_token_vault,
                *b_vault_lp, *b_vault_lp_mint, *b_token_vault, *cfg).unwrap();
            assert(anc@.slots =~= s.0.slots);
            assert(actions@ =~= s.3);
        }
        Ok((anc, PropCursor { next_chain_id: cur.next_chain_id + 1, current_user: info.key, ..cur }, event, actions))
    }
}

/// The full registration under a sponsor, end to end: the sponsor and
/// supplied addresses are validated in call order, the oracle-backed minimum
/// is enforced, both counters advance, the new user's record is built with
/// its bounded ancestry window, the sponsor's current slot is settled and
/// filled, and — when that completes the sponsor's chain — the propagation
/// replays settlement up the supplied ancestor triples. Any failure leaves
/// every input untouched and reports exactly one code.
pub open spec fn spec_register(
    st: ProgramState,
    referrer: UserAccountModel,
    referrer_key: Key,
    referrer_wallet_key: Key,
    referrer_wallet_owner: Key,
    referrer_token: AccountRecord,
    user_wallet: Key,
    deposit_amount: u64,
    oracle: Option<OracleReading>,
    pool_key: Key,
    token_mint_key: Key,
    wsol_mint_key: Key,
    b_vault_lp: AccountRecord,
    b_vault_lp_mint: AccountRecord,
    b_token_vault: AccountRecord,
    remaining: Seq<AccountRecord>,
    cfg: VerifiedAddresses,
) -> Result<RegistrationModel, ErrorCode> {
    if !referrer.is_registered {
        Err(ErrorCode::ReferrerNotRegistered)
    } else if remaining.len() < 5 {
        Err(ErrorCode::MissingVaultAAccounts)
    } else {
        match spec_verify_vault_a(remaining[0].key, remaining[1].key, remaining[2].key, cfg) {
            Err(e) => Err(e),
            Ok(_) => match spec_verify_all_fixed(pool_key, b_vault_lp.key, token_mint_key, wsol_mint_key, cfg) {
                Err(e) => Err(e),
                Ok(_) => match spec_verify_chainlink(remaining[4].key, remaining[3].key, cfg) {
                    Err(e) => Err(e),
                    Ok(_) => match oracle {
                        None => Err(ErrorCode::PriceFeedReadFailed),
                        Some(reading) => {
                            if deposit_amount < spec_minimum_sol_deposit(reading) {
                                Err(ErrorCode::InsufficientDeposit)
                            } else {
                                match spec_verify_ata(referrer_token.owner_program, referrer_token.data@,
                                    referrer_wallet_key, token_mint_key, cfg) {
                                    Err(e) => Err(e),
                                    Ok(_) => spec_register_settle(st, referrer, referrer_key,
                                        referrer_wallet_key, referrer_wallet_owner, referrer_token,
                                        user_wallet, deposit_amount, token_mint_key, wsol_mint_key,
                                        b_vault_lp, b_vault_lp_mint, b_token_vault, remaining, cfg),
                                }
                            }
                        },
                    },
                },
            },
        }
    }
}

/// The settlement half of a registration, after all up-front validation has
/// passed: counters, the new user's record, the sponsor's slot action and
/// fill, and the propagation when the sponsor's chain completes.
pub open spec fn spec_register_settle(
    st: ProgramState,
    referrer: UserAccountModel,
    referrer_key: Key,
    referrer_wallet_key: Key,
    referrer_wallet_owner: Key,
    referrer_token: AccountRecord,
    user_wallet: Key,
    deposit_amount: u64,
    token_mint_key: Key,
    wsol_mint_key: Key,
    b_vault_lp: AccountRecord,
    b_vault_lp_mint: AccountRecord,
    b_token_vault: AccountRecord,
    remaining: Seq<AccountRecord>,
    cfg: VerifiedAddresses,
) -> Result<RegistrationModel, ErrorCode> {
    let st1 = ProgramState {
        next_upline_id: (st.next_upline_id + 1) as u32,
        next_chain_id: (st.next_chain_id + 1) as u32,
        ..st
    };
    let new_user = UserAccountModel {
        is_registered: true,
        referrer: Some(referrer_key),
        owner_wallet: user_wallet,
        upline_id: st.next_upline_id,
        upline_depth: (referrer.upline_depth + 1) as u32,
        upline: spec_upline_window(referrer.upline,
            UplineEntry { pda: referrer_key, wallet: referrer_wallet_key }),
        chain_id: st.next_chain_id,
        slots: seq![None, None, None],
        filled_slots: 0,
        reserved_sol: 0,
        reserved_tokens: 0,
    };
    match spec_slot_action(referrer, st1.last_mint_amount, deposit_amount, user_wallet,
        referrer_wallet_key, referrer_wallet_owner, referrer_token, token_mint_key, wsol_mint_key,
        remaining, b_vault_lp, b_vault_lp_mint, b_token_vault, cfg) {
        Err(e) => Err(e),
        Ok(sa) => {
            let referrer1 = sa.0;
            let fill = spec_fill_slot(referrer1, user_wallet, st1.next_chain_id);
            let referrer2 = fill.0;
            let completed = fill.1;
            let events0: Seq<SlotFilled> = if referrer.filled_slots < 3 {
                seq![SlotFilled {
                    slot_idx: referrer.filled_slots,
                    chain_id: referrer.chain_id,
                    user: user_wallet,
                    owner: referrer_key,
                }]
            } else {
                Seq::empty()
            };
            let st2 = ProgramState {
                last_mint_amount: sa.1,
                next_chain_id: if completed {
                    (st1.next_chain_id + 1) as u32
                } else {
                    st1.next_chain_id
                },
                ..st1
            };
            if completed && remaining.len() > 6 && deposit_amount > 0 {
                let trios = remaining.skip(6);
                if trios.len() % 3 != 0 {
                    Err(ErrorCode::MissingUplineAccount)
                } else {
                    let cur0 = PropCursor {
                        next_chain_id: st2.next_chain_id,
                        last_mint_amount: st2.last_mint_amount,
                        current_user: referrer_key,
                        current_deposit: deposit_amount,
                    };
                    match spec_propagate(trios, 0, cur0, user_wallet, token_mint_key, wsol_mint_key,
                        remaining[5], remaining[0], remaining[1], remaining[2],
                        b_vault_lp, b_vault_lp_mint, b_token_vault, cfg) {
                        Err(e) => Err(e),
                        Ok(pr) => Ok(RegistrationModel {
                            state: ProgramState {
                                next_chain_id: pr.cursor.next_chain_id,
                                last_mint_amount: pr.cursor.last_mint_amount,
                                ..st2
                            },
                            referrer: referrer2,
                            new_user,
                            actions: sa.2 + pr.actions,
                            events: events0 + pr.events,
                            upline_writes: pr.writes,
                        }),
                    }
                }
            } else {
                Ok(RegistrationModel {
                    state: st2,
                    referrer: referrer2,
                    new_user,
                    actions: sa.2,
                    events: events0,
                    upline_writes: Seq::empty(),
                })
            }
        },
    }
}

/// The executable propagation over the supplied ancestor triples, exactly
/// as [`spec_propagate`] from the first trio describes: hop by hop until the
/// deposit is consumed, the list ends or the depth bound is reached, with
/// the final catch-all pool deposit for an unconsumed remainder.
#[verifier::loop_isolation(false)]
#[verifier::rlimit(100)]
fn run_propagation(
    cur0: PropCursor,
    user_wallet_key: &Key,
    token_mint_key: &Key,
    wsol_mint_key: &Key,
    b_vault_lp: &AccountRecord,
    b_vault_lp_mint: &AccountRecord,
    b_token_vault: &AccountRecord,
    remaining_accounts: &Vec<AccountRecord>,
    cfg: &VerifiedAddresses,
) -> (r: Result<(PropCursor, Vec<UplineWrite>, Vec<SlotFilled>, Vec<FinancialAction>), ErrorCode>)
    requires
        remaining_accounts@.len() > 6,
        (remaining_accounts@.len() - 6) % 3 == 0,
        cur0.next_chain_id + 6 <= u32::MAX,
    ensures
        ({
            let spec = spec_propagate(remaining_accounts@.skip(6), 0, cur0, *user_wallet_key,
                *token_mint_key, *wsol_mint_key, remaining_accounts@[5], remaining_accounts@[0],
                remaining_accounts@[1], remaining_accounts@[2], *b_vault_lp, *b_vault_lp_mint,
                *b_token_vault, *cfg);
            match r {
                Ok(out) => (spec matches Ok(full)
                    && out.0 == full.cursor
                    && writes_model(out.1@) == full.writes
                    && out.2@ == full.events
                    && out.3@ == full.actions),
                Err(e) => spec == Err::<PropResult, ErrorCode>(e),
            }
        }),
{
    proof {
        vstd::std_specs::vec::axiom_spec_len(remaining_accounts);
    }
    let upline_len = remaining_accounts.len() - 6;
    let trio_count = upline_len / 3;
    let mut cur = cur0;
    let ghost trios = remaining_accounts@.skip(6);
    let ghost spec0 = spec_propagate(trios, 0, cur0, *user_wallet_key, *token_mint_key,
        *wsol_mint_key, remaining_accounts@[5], remaining_accounts@[0],
        remaining_accounts@[1], remaining_accounts@[2], *b_vault_lp, *b_vault_lp_mint,
        *b_token_vault, *cfg);
    let mut upline_writes: Vec<UplineWrite> = Vec::new();
    let mut p_events: Vec<SlotFilled> = Vec::new();
    let mut p_actions: Vec<FinancialAction> = Vec::new();
    let mut idx: usize = 0;
    proof {
        assert(trios.len() == 3 * trio_count);
        if spec0 is Ok {
            let full = spec0.unwrap();
            crate::records::lemma_seq_empty_identity(full.writes);
            crate::records::lemma_seq_empty_identity(full.events);
            crate::records::lemma_seq_empty_identity(full.actions);
            assert(writes_model(upline_writes@) =~= Seq::<(Key, UserAccountModel)>::empty());
        }
    }
    while cur.current_deposit > 0 && idx < trio_count && idx < 6
        invariant
            idx <= trio_count,
            idx <= 6,
            cur.next_chain_id <= cur0.next_chain_id + idx,
            (match spec_propagate(trios, idx as nat, cur, *user_wallet_key, *token_mint_key,
                *wsol_mint_key, remaining_accounts@[5], remaining_accounts@[0],
                remaining_accounts@[1], remaining_accounts@[2], *b_vault_lp, *b_vault_lp_mint,
                *b_token_vault, *cfg) {
                Ok(rest) => (spec0 matches Ok(full)
                    && full.cursor == rest.cursor
                    && full.writes == writes_model(upline_writes@) + rest.writes
                    && full.events == p_events@ + rest.events
                    && full.actions == p_actions@ + rest.actions),
                Err(e) => spec0 == Err::<PropResult, ErrorCode>(e),
            }),
        decreases 6 - idx,
    {
        let base: usize = 6 + 3 * idx;
        proof {
            assert(trios[3 * idx as int] == remaining_accounts@[base as int]);
            assert(trios[3 * idx as int + 1] == remaining_accounts@[base as int + 1]);
            assert(trios[3 * idx as int + 2] == remaining_accounts@[base as int + 2]);
        }
        let step = match apply_upline_step(&remaining_accounts[base],
            &remaining_accounts[base + 1], &remaining_accounts[base + 2], cur,
            user_wallet_key, token_mint_key, wsol_mint_key, &remaining_accounts[5],
            &remaining_accounts[0], &remaining_accounts[1], &remaining_accounts[2],
            b_vault_lp, b_vault_lp_mint, b_token_vault, cfg) {
            Ok(s) => s,
            Err(e) => {
                return Err(e);
            },
        };
        let ghost rest_next = spec_propagate(trios, idx as nat + 1, step.1, *user_wallet_key,
            *token_mint_key, *wsol_mint_key, remaining_accounts@[5], remaining_accounts@[0],
            remaining_accounts@[1], remaining_accounts@[2], *b_vault_lp, *b_vault_lp_mint,
            *b_token_vault, *cfg);
        let ghost old_writes = upline_writes@;
        let ghost old_events = p_events@;
        let ghost old_actions = p_actions@;
        upline_writes.push(UplineWrite { pda: remaining_accounts[base].key, account: step.0 });
        p_events.push(step.2);
        let mut step_actions = step.3;
        let ghost step_actions_seq = step_actions@;
        p_actions.append(&mut step_actions);
        cur = step.1;
        idx = idx + 1;
        proof {
            if rest_next is Ok {
                let rest = rest_next.unwrap();
                let w = (remaining_accounts@[base as int].key, step.0@);
                assert(writes_model(upline_writes@) =~= writes_model(old_writes).push(w));
                crate::records::lemma_push_is_concat(writes_model(old_writes), w);
                crate::records::lemma_seq_assoc(writes_model(old_writes), seq![w], rest.writes);
                crate::records::lemma_push_is_concat(old_events, step.2);
                crate::records::lemma_seq_assoc(old_events, seq![step.2], rest.events);
                crate::records::lemma_seq_assoc(old_actions, step_actions_seq, rest.actions);
            }
        }
    }
    if cur.current_deposit > 0 {
        match crate::token::verify_wsol_account(&remaining_accounts[5], user_wallet_key,
            wsol_mint_key, cfg) {
            Err(e) => {
                return Err(e);
            },
            Ok(_) => {},
        }
        let ghost before = p_actions@;
        p_actions.push(FinancialAction::DepositToPool { amount: cur.current_deposit });
        proof {
            crate::records::lemma_push_is_concat(before,
                FinancialAction::DepositToPool { amount: cur.current_deposit });
        }
    }
    proof {
        let full = spec0.unwrap();
        crate::records::lemma_seq_empty_identity(writes_model(upline_writes@));
        crate::records::lemma_seq_empty_identity(p_events@);
        crate::records::lemma_seq_empty_identity(p_actions@);
        assert(full.writes =~= writes_model(upline_writes@));
        assert(full.events =~= p_events@);
        assert(full.actions =~= p_actions@);
    }
    Ok((cur, upline_writes, p_events, p_actions))
}

/// Register a user under a registered sponsor, as [`spec_register`]
/// describes, settling the sponsor's current slot and propagating completed
/// chains up the supplied ancestor triples.
///
/// On success the global counters and throttle state, the sponsor's record,
/// the new user's record, the fund movements, the slot notifications and the
/// ancestor write-backs are exactly the model's; on failure the state and the
/// sponsor are untouched and the single failing code is reported.
#[verifier::loop_isolation(false)]
#[verifier::rlimit(100)]
pub fn register_with_sol_deposit(
    state: &mut ProgramState,
    referrer: &mut UserAccount,
    referrer_key: &Key,
    referrer_wallet_key: &Key,
    referrer_wallet_owner: &Key,
    referrer_token_account: &AccountRecord,
    user_wallet_key: &Key,
    deposit_amount: u64,
    oracle: &Option<OracleReading>,
    pool_key: &Key,
    token_mint_key: &Key,
    wsol_mint_key: &Key,
    b_vault_lp: &AccountRecord,
    b_vault_lp_mint: &AccountRecord,
    b_token_vault: &AccountRecord,
    remaining_accounts: &Vec<AccountRecord>,
    cfg: &VerifiedAddresses,
) -> (r: Result<RegistrationOutcome, ErrorCode>)
    requires
        old(referrer).wf(),
        old(state).next_upline_id < u32::MAX,
        old(state).next_chain_id + 8 <= u32::MAX,
        old(referrer).upline.depth < u32::MAX,
    ensures
        ({
            let spec = spec_register(*old(state), old(referrer)@, *referrer_key,
                *referrer_wallet_key, *referrer_wallet_owner, *referrer_token_account,
                *user_wallet_key, deposit_amount, *oracle, *pool_key, *token_mint_key,
                *wsol_mint_key, *b_vault_lp, *b_vault_lp_mint, *b_token_vault,
                remaining_accounts@, *cfg);
            match r {
                Ok(out) => (spec matches Ok(m)
                    && *final(state) == m.state
                    && final(referrer)@ == m.referrer
                    && out.new_user@ == m.new_user
                    && out.actions@ == m.actions
                    && out.events@ == m.events
                    && writes_model(out.upline_writes@) == m.upline_writes),
                Err(e) => (spec == Err::<RegistrationModel, ErrorCode>(e)
                    && *final(state) == *old(state)
                    && final(referrer)@ == old(referrer)@),
            }
        }),
{
    proof {
        vstd::std_specs::vec::axiom_spec_len(remaining_accounts);
    }

    if !referrer.is_registered {
        return Err(ErrorCode::ReferrerNotRegistered);
    }
    if remaining_accounts.len() < 5 {
        return Err(ErrorCode::MissingVaultAAccounts);
    }
    match crate::verify::verify_vault_a_addresses(&remaining_accounts[0].key,
        &remaining_accounts[1].key, &remaining_accounts[2].key, cfg) {
        Err(e) => {
            return Err(e);
        },
        Ok(_) => {},
    }
    match crate::verify::verify_all_fixed_addresses(pool_key, &b_vault_lp.key, token_mint_key,
        wsol_mint_key, cfg) {
        Err(e) => {
            return Err(e);
        },
        Ok(_) => {},
    }
    match crate::verify::verify_chainlink_addresses(&remaining_accounts[4].key,
        &remaining_accounts[3].key, cfg) {
        Err(e) => {
            return Err(e);
        },
        Ok(_) => {},
    }
    let reading = match oracle {
        Some(rd) => *rd,
        None => {
            return Err(ErrorCode::PriceFeedReadFailed);
        },
    };
    let minimum = crate::oracle::calculate_minimum_sol_deposit(&reading);
    if deposit_amount < minimum {
        return Err(ErrorCode::InsufficientDeposit);
    }
    match crate::token::verify_ata_strict(referrer_token_account, referrer_wallet_key,
        token_mint_key, cfg) {
        Err(e) => {
            return Err(e);
        },
        Ok(_) => {},
    }

    // Settlement: everything fallible is decided before any commit, so a
    // failure anywhere leaves both accounts exactly as they were.
    let upline_id = state.next_upline_id;
    let chain_id = state.next_chain_id;
    let window = crate::chain::build_upline_window(&referrer.upline.upline,
        UplineEntry { pda: *referrer_key, wallet: *referrer_wallet_key });
    let new_user = UserAccount {
        is_registered: true,
        referrer: Some(*referrer_key),
        owner_wallet: *user_wallet_key,
        upline: ReferralUpline { id: upline_id, depth: referrer.upline.depth + 1, upline: window },
        chain: ReferralChain::new_fresh(chain_id),
        reserved_sol: 0,
        reserved_tokens: 0,
    };

    let slot = referrer.chain.filled_slots;
    let sa = match apply_referrer_slot_action(referrer, state.last_mint_amount, deposit_amount,
        user_wallet_key, referrer_wallet_key, referrer_wallet_owner, referrer_token_account,
        token_mint_key, wsol_mint_key, remaining_accounts, b_vault_lp, b_vault_lp_mint,
        b_token_vault, cfg) {
        Ok(out) => out,
        Err(e) => {
            return Err(e);
        },
    };
    let new_reserved_sol = sa.0;
    let new_reserved_tokens = sa.1;
    let mut actions = sa.3;
    let mut events: Vec<SlotFilled> = Vec::new();
    if slot < 3 {
        events.push(SlotFilled {
            slot_idx: slot,
            chain_id: referrer.chain.id,
            user: *user_wallet_key,
            owner: *referrer_key,
        });
    }

    let completed = slot == 2;
    let st1_next_chain: u32 = chain_id + 1;
    let mut final_next_chain: u32 = if completed { st1_next_chain + 1 } else { st1_next_chain };
    let mut final_last_mint: u64 = sa.2;
    let mut upline_writes: Vec<UplineWrite> = Vec::new();

    if completed && remaining_accounts.len() > 6 && deposit_amount > 0 {
        let upline_len = remaining_accounts.len() - 6;
        if upline_len % 3 != 0 {
            return Err(ErrorCode::MissingUplineAccount);
        }
        let cur0 = PropCursor {
            next_chain_id: final_next_chain,
            last_mint_amount: final_last_mint,
            current_user: *referrer_key,
            current_deposit: deposit_amount,
        };
        let prop = match run_propagation(cur0, user_wallet_key, token_mint_key, wsol_mint_key,
            b_vault_lp, b_vault_lp_mint, b_token_vault, remaining_accounts, cfg) {
            Ok(p) => p,
            Err(e) => {
                return Err(e);
            },
        };
        let mut p_events = prop.2;
        let mut p_actions = prop.3;
        final_next_chain = prop.0.next_chain_id;
        final_last_mint = prop.0.last_mint_amount;
        upline_writes = prop.1;
        events.append(&mut p_events);
        actions.append(&mut p_actions);
    }

    // Commit: every fallible step is behind us.
    state.next_upline_id = upline_id + 1;
    state.next_chain_id = final_next_chain;
    state.last_mint_amount = final_last_mint;
    referrer.reserved_sol = new_reserved_sol;
    referrer.reserved_tokens = new_reserved_tokens;
    crate::chain::process_referrer_chain(user_wallet_key, referrer, st1_next_chain);
    proof {
        let m = spec_register(*old(state), old(referrer)@, *referrer_key, *referrer_wallet_key,
            *referrer_wallet_owner, *referrer_token_account, *user_wallet_key, deposit_amount,
            *oracle, *pool_key, *token_mint_key, *wsol_mint_key, *b_vault_lp, *b_vault_lp_mint,
            *b_token_vault, remaining_accounts@, *cfg).unwrap();
        assert(new_user@.slots =~= m.new_user.slots);
        assert(events@ =~= m.events);
        assert(actions@ =~= m.actions);
        assert(writes_model(upline_writes@) =~= m.upline_writes);
    }
    Ok(RegistrationOutcome { new_user, actions, events, upline_writes })
}

/// Propagation only ever moves the fresh-chain counter forward, by at most
/// one per hop it can still take.
proof fn lemma_propagate_counter_monotonic(
    trios: Seq<AccountRecord>,
    idx: nat,
    cur: PropCursor,
    user_wallet: Key,
    token_mint_key: Key,
    wsol_mint_key: Key,
    wsol: AccountRecord,
    a_vault_lp: AccountRecord,
    a_vault_lp_mint: AccountRecord,
    a_token_vault: AccountRecord,
    b_vault_lp: AccountRecord,
    b_vault_lp_mint: AccountRecord,
    b_token_vault: AccountRecord,
    cfg: VerifiedAddresses,
)
    requires
        idx <= 6,
        cur.next_chain_id + 6 - idx <= u32::MAX,
    ensures
        (spec_propagate(trios, idx, cur, user_wallet, token_mint_key, wsol_mint_key, wsol,
            a_vault_lp, a_vault_lp_mint, a_token_vault, b_vault_lp, b_vault_lp_mint,
            b_token_vault, cfg) matches Ok(pr)
            ==> cur.next_chain_id <= pr.cursor.next_chain_id <= cur.next_chain_id + 6 - idx),
    decreases 6 - idx,
{
    if cur.current_deposit != 0 && idx < trios.len() / 3 && idx < 6 {
        match spec_upline_step(trios[3 * idx as int], trios[3 * idx as int + 1],
            trios[3 * idx as int + 2], cur, user_wallet, token_mint_key, wsol_mint_key, wsol,
            a_vault_lp, a_vault_lp_mint, a_token_vault, b_vault_lp, b_vault_lp_mint,
            b_token_vault, cfg) {
            Err(_) => {},
            Ok(step) => {
                lemma_propagate_counter_monotonic(trios, idx + 1, step.1, user_wallet,
                    token_mint_key, wsol_mint_key, wsol, a_vault_lp, a_vault_lp_mint,
                    a_token_vault, b_vault_lp, b_vault_lp_mint, b_token_vault, cfg);
            },
        }
    }
}

/// The global counters strictly increase and are never reused: a successful
/// registration advances the window counter by exactly one and the chain
/// counter by at least one — one for the new user's chain, one more for each
/// chain that completed — and by at most eight.
pub proof fn lemma_counters_strictly_increase(
    st: ProgramState,
    referrer: UserAccountModel,
    referrer_key: Key,
    referrer_wallet_key: Key,
    referrer_wallet_owner: Key,
    referrer_token: AccountRecord,
    user_wallet: Key,
    deposit_amount: u64,
    oracle: Option<OracleReading>,
    pool_key: Key,
    token_mint_key: Key,
    wsol_mint_key: Key,
    b_vault_lp: AccountRecord,
    b_vault_lp_mint: AccountRecord,
    b_token_vault: AccountRecord,
    remaining: Seq<AccountRecord>,
    cfg: VerifiedAddresses,
)
    requires
        st.next_upline_id < u32::MAX,
        st.next_chain_id + 8 <= u32::MAX,
    ensures
        (spec_register(st, referrer, referrer_key, referrer_wallet_key, referrer_wallet_owner,
            referrer_token, user_wallet, deposit_amount, oracle, pool_key, token_mint_key,
            wsol_mint_key, b_vault_lp, b_vault_lp_mint, b_token_vault, remaining, cfg)
            matches Ok(m)
            ==> m.state.next_upline_id == st.next_upline_id + 1
                && st.next_chain_id < m.state.next_chain_id <= st.next_chain_id + 8),
{
    let r = spec_register(st, referrer, referrer_key, referrer_wallet_key, referrer_wallet_owner,
        referrer_token, user_wallet, deposit_amount, oracle, pool_key, token_mint_key,
        wsol_mint_key, b_vault_lp, b_vault_lp_mint, b_token_vault, remaining, cfg);
    if r is Ok && remaining.len() >= 5 {
        let st2_chain_low = st.next_chain_id + 1;
        if remaining.len() > 6 && deposit_amount > 0 {
            let trios = remaining.skip(6);
            if trios.len() % 3 == 0 {
                let cur0a = PropCursor {
                    next_chain_id: (st.next_chain_id + 2) as u32,
                    last_mint_amount: st.last_mint_amount,
                    current_user: referrer_key,
                    current_deposit: deposit_amount,
                };
                lemma_propagate_counter_monotonic(trios, 0, cur0a, user_wallet, token_mint_key,
                    wsol_mint_key, remaining[5], remaining[0], remaining[1], remaining[2],
                    b_vault_lp, b_vault_lp_mint, b_token_vault, cfg);
                let cur0b = PropCursor {
                    last_mint_amount: throttled_amount(st.last_mint_amount,
                        spec_quote_records(remaining[0].data@, b_vault_lp.data@,
                            remaining[1].data@, b_vault_lp_mint.data@,
                            remaining[2].data@, b_token_vault.data@, deposit_amount)),
                    ..cur0a
                };
                lemma_propagate_counter_monotonic(trios, 0, cur0b, user_wallet, token_mint_key,
                    wsol_mint_key, remaining[5], remaining[0], remaining[1], remaining[2],
                    b_vault_lp, b_vault_lp_mint, b_token_vault, cfg);
            }
        }
        assert(st2_chain_low >= st.next_chain_id + 1);
    }
}

/// The escrow lifecycle on the direct sponsor: its two escrow fields are
/// written only by the slot-1 settlement (which fills both) and the slot-2
/// settlement (which zeroes both); the slot-0 action and a full chain leave
/// them untouched, and the slot fill itself never changes them. A newly
/// registered account starts with both at zero.
pub proof fn lemma_escrow_lifecycle(
    referrer: UserAccountModel,
    last_mint: u64,
    deposit_amount: u64,
    user_wallet: Key,
    referrer_wallet_key: Key,
    referrer_wallet_owner: Key,
    referrer_token: AccountRecord,
    token_mint_key: Key,
    wsol_mint_key: Key,
    remaining: Seq<AccountRecord>,
    b_vault_lp: AccountRecord,
    b_vault_lp_mint: AccountRecord,
    b_token_vault: AccountRecord,
    cfg: VerifiedAddresses,
    fill_user: Key,
    fill_chain_id: u32,
)
    ensures
        (spec_slot_action(referrer, last_mint, deposit_amount, user_wallet, referrer_wallet_key,
            referrer_wallet_owner, referrer_token, token_mint_key, wsol_mint_key, remaining,
            b_vault_lp, b_vault_lp_mint, b_token_vault, cfg) matches Ok(s) ==> (
            (referrer.filled_slots == 1 ==> s.0.reserved_sol == deposit_amount)
            && (referrer.filled_slots == 2 ==> s.0.reserved_sol == 0 && s.0.reserved_tokens == 0)
            && (referrer.filled_slots != 1 && referrer.filled_slots != 2
                ==> s.0.reserved_sol == referrer.reserved_sol
                    && s.0.reserved_tokens == referrer.reserved_tokens))),
        spec_fill_slot(referrer, fill_user, fill_chain_id).0.reserved_sol == referrer.reserved_sol,
        spec_fill_slot(referrer, fill_user, fill_chain_id).0.reserved_tokens == referrer.reserved_tokens,
{
}

/// The escrow lifecycle on an ancestor during propagation: the hop writes
/// the escrow fields only in its slot-1 action (which fills both from the
/// carried deposit and the throttled quote) and its slot-2 action (which
/// zeroes both after paying them out); a slot-0 hop leaves them as the
/// record held them.
pub proof fn lemma_upline_escrow_lifecycle(
    info: AccountRecord,
    wallet: AccountRecord,
    tok: AccountRecord,
    cur: PropCursor,
    user_wallet: Key,
    token_mint_key: Key,
    wsol_mint_key: Key,
    wsol: AccountRecord,
    a_vault_lp: AccountRecord,
    a_vault_lp_mint: AccountRecord,
    a_token_vault: AccountRecord,
    b_vault_lp: AccountRecord,
    b_vault_lp_mint: AccountRecord,
    b_token_vault: AccountRecord,
    cfg: VerifiedAddresses,
)
    ensures
        (spec_upline_step(info, wallet, tok, cur, user_wallet, token_mint_key, wsol_mint_key,
            wsol, a_vault_lp, a_vault_lp_mint, a_token_vault, b_vault_lp, b_vault_lp_mint,
            b_token_vault, cfg) matches Ok(s) ==> (
            spec_parse_user_account(info.data@, 8) matches Some(anc) && (
                (anc.filled_slots == 0 ==> s.0.reserved_sol == anc.reserved_sol
                    && s.0.reserved_tokens == anc.reserved_tokens)
                && (anc.filled_slots == 1 ==> s.0.reserved_sol == cur.current_deposit)
                && (anc.filled_slots == 2 ==> s.0.reserved_sol == 0 && s.0.reserved_tokens == 0)))),
{
}

/// What the engine initializes the global state to, for an authorized
/// caller.
pub open spec fn spec_initialize(owner: Key, cfg: VerifiedAddresses) -> Result<ProgramState, ErrorCode> {
    if owner != cfg.authorized_initializer {
        Err(ErrorCode::NotAuthorized)
    } else {
        Ok(ProgramState {
            owner,
            multisig_treasury: cfg.multisig_treasury,
            next_upline_id: 1,
            next_chain_id: 1,
            last_mint_amount: 0,
        })
    }
}

/// Create the global counter state. Only the configured initializer may do
/// so; both counters start at one and the throttle at zero.
pub fn initialize(owner_key: &Key, cfg: &VerifiedAddresses) -> (r: Result<ProgramState, ErrorCode>)
    ensures
        r == spec_initialize(*owner_key, *cfg),
{
    if !(owner_key == &cfg.authorized_initializer) {
        return Err(ErrorCode::NotAuthorized);
    }
    Ok(ProgramState {
        owner: *owner_key,
        multisig_treasury: cfg.multisig_treasury,
        next_upline_id: 1,
        next_chain_id: 1,
        last_mint_amount: 0,
    })
}

/// The root registration: for the treasury caller and verified fixed
/// addresses, both counters advance, a root account (depth one, no sponsor,
/// empty window, fresh chain) is created, and the whole deposit goes to the
/// pool after a wrap of the payer's native balance.
pub open spec fn spec_register_root(
    st: ProgramState,
    owner: Key,
    user_wallet: Key,
    pool_key: Key,
    b_vault_lp_key: Key,
    token_mint_key: Key,
    deposit_amount: u64,
    cfg: VerifiedAddresses,
) -> Result<(ProgramState, UserAccountModel, Seq<FinancialAction>), ErrorCode> {
    if owner != st.multisig_treasury {
        Err(ErrorCode::NotAuthorized)
    } else {
        match crate::verify::spec_verify_all_fixed(pool_key, b_vault_lp_key, token_mint_key, cfg.wsol_mint, cfg) {
            Err(e) => Err(e),
            Ok(_) => Ok((
                (ProgramState {
                    next_upline_id: (st.next_upline_id + 1) as u32,
                    next_chain_id: (st.next_chain_id + 1) as u32,
                    ..st
                }),
                (UserAccountModel {
                    is_registered: true,
                    referrer: None,
                    owner_wallet: user_wallet,
                    upline_id: st.next_upline_id,
                    upline_depth: 1,
                    upline: Seq::empty(),
                    chain_id: st.next_chain_id,
                    slots: seq![None, None, None],
                    filled_slots: 0,
                    reserved_sol: 0,
                    reserved_tokens: 0,
                }),
                seq![FinancialAction::SyncNative, FinancialAction::DepositToPool { amount: deposit_amount }],
            )),
        }
    }
}

/// Register the root account, which has no sponsor.
///
/// Only the treasury may call this; the pool-side addresses are verified
/// first. On success both counters have advanced, the returned account is
/// the fresh root record, and the action list wraps the payer's native
/// balance and deposits the full amount into the pool. On failure nothing
/// changes.
pub fn register_without_referrer(
    state: &mut ProgramState,
    owner_key: &Key,
    user_wallet_key: &Key,
    pool_key: &Key,
    b_vault_lp_key: &Key,
    token_mint_key: &Key,
    deposit_amount: u64,
    cfg: &VerifiedAddresses,
) -> (r: Result<(UserAccount, Vec<FinancialAction>), ErrorCode>)
    requires
        old(state).next_upline_id < u32::MAX,
        old(state).next_chain_id < u32::MAX,
    ensures
        ({
            let spec = spec_register_root(*old(state), *owner_key, *user_wallet_key, *pool_key,
                *b_vault_lp_key, *token_mint_key, deposit_amount, *cfg);
            match r {
                Ok(out) => (spec matches Ok(m) && *final(state) == m.0 && out.0@ == m.1
                    && out.0.wf() && out.1@ == m.2),
                Err(e) => spec == Err::<(ProgramState, UserAccountModel, Seq<FinancialAction>), ErrorCode>(e)
                    && *final(state) == *old(state),
            }
        }),
{
    if !(owner_key == &state.multisig_treasury) {
        return Err(ErrorCode::NotAuthorized);
    }
    match crate::verify::verify_all_fixed_addresses(pool_key, b_vault_lp_key, token_mint_key, &cfg.wsol_mint, cfg) {
        Err(e) => {
            return Err(e);
        },
        Ok(_) => {},
    }

    let upline_id = state.next_upline_id;
    let chain_id = state.next_chain_id;
    state.next_upline_id = state.next_upline_id + 1;
    state.next_chain_id = state.next_chain_id + 1;

    let user = UserAccount {
        is_registered: true,
        referrer: None,
        owner_wallet: *user_wallet_key,
        upline: ReferralUpline { id: upline_id, depth: 1, upline: Vec::new() },
        chain: ReferralChain::new_fresh(chain_id),
        reserved_sol: 0,
        reserved_tokens: 0,
    };

    let mut actions: Vec<FinancialAction> = Vec::new();
    actions.push(FinancialAction::SyncNative);
    actions.push(FinancialAction::DepositToPool { amount: deposit_amount });

    proof {
        let m = spec_register_root(*old(state), *owner_key, *user_wallet_key, *pool_key,
            *b_vault_lp_key, *token_mint_key, deposit_amount, *cfg).unwrap();
        assert(user@.upline =~= m.1.upline);
        assert(user@.slots =~= m.1.slots);
        assert(actions@ =~= m.2);
    }
    Ok((user, actions))
}

} // verus!
