use zkdpos_core::account::{Account, AccountUpdate, CollectedFee};
use zkdpos_core::basic::{AccountId, Address, Nonce, PubKeyHash, TokenId};
use zkdpos_core::handler::TxError;
use zkdpos_core::operations::{CloseOp, NoopOp, TransferOp};
use zkdpos_core::state::ZkDposState;
use zkdpos_core::tx::{
    AddLiquidity, ChangePubKey, ChangePubKeyAuth, Close, Exchange, ForcedExit, RemoveLiquidity, Transfer, Withdraw,
};
use zkdpos_core::zkdpos_op::ZkDposOp;

const A: u8 = 1;
const B: u8 = 2;

fn key(b: u8) -> PubKeyHash {
    PubKeyHash([b; 20])
}

/// Ledger with account 0 (address 1, key 1, 1000 of token 0) and account 1
/// (address 2, key 2, empty).
fn ledger() -> ZkDposState {
    let mut state = ZkDposState::new();
    let mut a = Account::default_with_address(&Address([A; 20]));
    a.pub_key_hash = key(A);
    a.set_balance(TokenId(0), 1000);
    state.insert_account(AccountId(0), a);
    let mut b = Account::default_with_address(&Address([B; 20]));
    b.pub_key_hash = key(B);
    state.insert_account(AccountId(1), b);
    state
}

fn balance(state: &ZkDposState, id: u32, token: u16) -> u128 {
    state.get_account(AccountId(id)).unwrap().get_balance(TokenId(token))
}

fn nonce(state: &ZkDposState, id: u32) -> u32 {
    state.get_account(AccountId(id)).unwrap().nonce.0
}

fn transfer(to: u8, amount: u128, fee: u128, nonce: u32) -> Transfer {
    Transfer {
        account_id: AccountId(0),
        from: Address([A; 20]),
        to: Address([to; 20]),
        token: TokenId(0),
        amount,
        fee,
        nonce: Nonce(nonce),
        time_range: None,
    }
}

fn delta(updates: &[(AccountId, AccountUpdate)], token: u16) -> i128 {
    updates
        .iter()
        .map(|(_, u)| match u {
            AccountUpdate::UpdateBalance { balance_update: (t, old, new), .. } if t.0 == token => {
                *new as i128 - *old as i128
            }
            _ => 0,
        })
        .sum()
}

#[test]
fn transfer_moves_amount_and_takes_fee() {
    let mut state = ledger();
    let success = state.apply_transfer_tx(&transfer(B, 100, 10, 0), &Some(key(A))).unwrap();
    assert!(matches!(success.executed_op, ZkDposOp::Transfer(_)));
    assert_eq!(success.fee, Some(CollectedFee { token: TokenId(0), amount: 10 }));
    assert_eq!(
        success.updates,
        vec![
            (
                AccountId(0),
                AccountUpdate::UpdateBalance {
                    old_nonce: Nonce(0),
                    new_nonce: Nonce(1),
                    balance_update: (TokenId(0), 1000, 890)
                }
            ),
            (
                AccountId(1),
                AccountUpdate::UpdateBalance {
                    old_nonce: Nonce(0),
                    new_nonce: Nonce(0),
                    balance_update: (TokenId(0), 0, 100)
                }
            ),
        ]
    );
    assert_eq!(delta(&success.updates, 0), -10);
    assert_eq!((nonce(&state, 0), nonce(&state, 1)), (1, 0));
    assert_eq!((balance(&state, 0, 0), balance(&state, 1, 0)), (890, 100));
}

#[test]
fn transfer_to_unknown_address_creates_account() {
    let mut state = ledger();
    let success = state.apply_transfer_tx(&transfer(9, 50, 5, 0), &Some(key(A))).unwrap();
    assert!(matches!(success.executed_op, ZkDposOp::TransferToNew(_)));
    assert_eq!(success.updates[0], (AccountId(2), AccountUpdate::Create { address: Address([9; 20]), nonce: Nonce(0) }));
    assert_eq!(success.updates.len(), 3);
    assert_eq!(delta(&success.updates, 0), -5);
    assert_eq!(balance(&state, 2, 0), 50);
    assert_eq!(nonce(&state, 0), 1);
}

#[test]
fn self_transfer_only_takes_fee() {
    let mut state = ledger();
    let success = state.apply_transfer_tx(&transfer(A, 300, 7, 0), &Some(key(A))).unwrap();
    assert_eq!(delta(&success.updates, 0), -7);
    assert_eq!(balance(&state, 0, 0), 993);
    assert_eq!(nonce(&state, 0), 1);
}

#[test]
fn transfer_rejections_leave_ledger_unchanged() {
    let cases = vec![
        (transfer(B, 100, 10, 0), Some(key(B)), TxError::WrongSignature),
        (transfer(B, 100, 10, 0), None, TxError::WrongSignature),
        (transfer(0, 100, 10, 0), Some(key(A)), TxError::ZeroRecipient),
        (transfer(B, 100, 10, 1), Some(key(A)), TxError::NonceMismatch),
        (transfer(B, 995, 10, 0), Some(key(A)), TxError::InsufficientBalance),
        (transfer(B, u128::MAX, 10, 0), Some(key(A)), TxError::InsufficientBalance),
    ];
    for (tx, signer, expected) in cases {
        let mut state = ledger();
        assert_eq!(state.apply_transfer_tx(&tx, &signer).unwrap_err(), expected);
        assert_eq!((balance(&state, 0, 0), balance(&state, 1, 0)), (1000, 0));
        assert_eq!((nonce(&state, 0), nonce(&state, 1)), (0, 0));
    }
    let mut wrong_id = transfer(B, 1, 1, 0);
    wrong_id.account_id = AccountId(1);
    assert_eq!(ledger().apply_transfer_tx(&wrong_id, &Some(key(A))).unwrap_err(), TxError::WrongAccountId);
    let mut unsupported = transfer(B, 1, 1, 0);
    unsupported.token = TokenId(4000);
    assert_eq!(ledger().apply_transfer_tx(&unsupported, &Some(key(A))).unwrap_err(), TxError::TokenNotSupported);
    let mut stranger = transfer(B, 1, 1, 0);
    stranger.from = Address([77; 20]);
    assert_eq!(ledger().apply_transfer_tx(&stranger, &Some(key(A))).unwrap_err(), TxError::AccountNotFound);
}

#[test]
fn locked_account_cannot_send() {
    let mut state = ledger();
    let mut locked = Account::default_with_address(&Address([5; 20]));
    locked.set_balance(TokenId(0), 10);
    state.insert_account(AccountId(2), locked);
    let mut tx = transfer(B, 1, 1, 0);
    tx.from = Address([5; 20]);
    tx.account_id = AccountId(2);
    assert_eq!(state.apply_transfer_tx(&tx, &None).unwrap_err(), TxError::AccountLocked);
}

fn exchange(amount_a: u128, fee: u128) -> Exchange {
    Exchange {
        account_id: AccountId(0),
        from: Address([A; 20]),
        token_a: TokenId(0),
        token_b: TokenId(1),
        amount_a,
        amount_b: 50,
        price: 2,
        fee,
        nonce: Nonce(0),
        time_range: None,
    }
}

fn add_liquidity(a_desired: u128, fee_a: u128) -> AddLiquidity {
    AddLiquidity {
        account_id: AccountId(0),
        liquidity_id: 1,
        to: Address([B; 20]),
        amount_a_desired: a_desired,
        amount_b_desired: 40,
        amount_a_min: 0,
        amount_b_min: 0,
        token: TokenId(0),
        fee_a,
        fee_b: 0,
        nonce: Nonce(0),
        time_range: None,
    }
}

fn remove_liquidity(a_desired: u128, fee_a: u128) -> RemoveLiquidity {
    RemoveLiquidity {
        account_id: AccountId(0),
        liquidity_id: 1,
        to: Address([B; 20]),
        amount_a_desired: a_desired,
        amount_b_desired: 40,
        amount_a_min: 0,
        amount_b_min: 0,
        token: TokenId(0),
        fee_a,
        fee_b: 0,
        nonce: Nonce(0),
        time_range: None,
    }
}

#[test]
fn exchange_debits_one_token_and_credits_another() {
    let mut state = ledger();
    let success = state.apply_exchange_tx(&exchange(100, 5), &Some(key(A))).unwrap();
    assert_eq!(success.fee, Some(CollectedFee { token: TokenId(0), amount: 5 }));
    assert_eq!((balance(&state, 0, 0), balance(&state, 0, 1)), (895, 50));
    assert_eq!(nonce(&state, 0), 1);
    assert_eq!(delta(&success.updates, 0), -105);
    assert_eq!(delta(&success.updates, 1), 50);
}

#[test]
fn liquidity_moves_on_the_sender_account() {
    let mut state = ledger();
    let success = state.apply_add_liquidity_tx(&add_liquidity(100, 5), &Some(key(A))).unwrap();
    assert_eq!(success.fee, Some(CollectedFee { token: TokenId(0), amount: 5 }));
    assert_eq!(balance(&state, 0, 0), 935);
    assert_eq!(nonce(&state, 0), 1);
    assert_eq!(delta(&success.updates, 0), -65);
    let mut tx = remove_liquidity(35, 0);
    tx.nonce = Nonce(1);
    let success = state.apply_remove_liquidity_tx(&tx, &Some(key(A))).unwrap();
    assert_eq!(balance(&state, 0, 0), 940);
    assert_eq!(delta(&success.updates, 0), 5);
    assert_eq!(nonce(&state, 0), 2);
}

#[test]
fn exchange_and_liquidity_need_amount_plus_fee() {
    let mut state = ledger();
    assert_eq!(state.apply_exchange_tx(&exchange(995, 10), &Some(key(A))).unwrap_err(), TxError::InsufficientBalance);
    assert_eq!(
        state.apply_add_liquidity_tx(&add_liquidity(991, 10), &Some(key(A))).unwrap_err(),
        TxError::InsufficientBalance
    );
    assert_eq!(
        state.apply_remove_liquidity_tx(&remove_liquidity(1000, 1), &Some(key(A))).unwrap_err(),
        TxError::InsufficientBalance
    );
    assert_eq!((balance(&state, 0, 0), balance(&state, 0, 1)), (1000, 0));
    assert_eq!(nonce(&state, 0), 0);
}

#[test]
fn liquidity_needs_a_recipient() {
    let mut tx = add_liquidity(1, 1);
    tx.to = Address([0; 20]);
    assert_eq!(ledger().apply_add_liquidity_tx(&tx, &Some(key(A))).unwrap_err(), TxError::ZeroRecipient);
}

#[test]
fn withdraw_debits_amount_and_fee() {
    let mut state = ledger();
    let tx = Withdraw {
        account_id: AccountId(0),
        from: Address([A; 20]),
        to: Address([9; 20]),
        token: TokenId(0),
        amount: 100,
        fee: 10,
        nonce: Nonce(0),
        fast: false,
        time_range: None,
    };
    let success = state.apply_withdraw_tx(&tx, &Some(key(A))).unwrap();
    assert_eq!(balance(&state, 0, 0), 890);
    assert_eq!(nonce(&state, 0), 1);
    assert_eq!(
        success.updates,
        vec![(
            AccountId(0),
            AccountUpdate::UpdateBalance { old_nonce: Nonce(0), new_nonce: Nonce(1), balance_update: (TokenId(0), 1000, 890) }
        )]
    );
    assert!(success.executed_op.withdrawal_data().is_some());
}

#[test]
fn forced_exit_empties_locked_target() {
    let mut state = ledger();
    let mut target = Account::default_with_address(&Address([5; 20]));
    target.set_balance(TokenId(0), 70);
    state.insert_account(AccountId(2), target);
    let tx = ForcedExit {
        initiator_account_id: AccountId(0),
        target: Address([5; 20]),
        token: TokenId(0),
        fee: 10,
        nonce: Nonce(0),
        time_range: None,
    };
    let success = state.apply_forced_exit_tx(&tx, &Some(key(A))).unwrap();
    assert_eq!((balance(&state, 0, 0), balance(&state, 2, 0)), (990, 0));
    assert_eq!((nonce(&state, 0), nonce(&state, 2)), (1, 0));
    assert_eq!(success.updates.len(), 2);
    let unlocked_target = ForcedExit { target: Address([B; 20]), nonce: Nonce(1), ..tx };
    assert_eq!(state.apply_forced_exit_tx(&unlocked_target, &Some(key(A))).unwrap_err(), TxError::TargetNotLocked);
}

#[test]
fn change_pubkey_sets_key_and_takes_fee() {
    let mut state = ledger();
    let tx = ChangePubKey {
        account_id: AccountId(0),
        account: Address([A; 20]),
        new_pk_hash: key(9),
        fee_token: TokenId(0),
        fee: 10,
        nonce: Nonce(0),
        auth: ChangePubKeyAuth::ECDSA,
        time_range: None,
    };
    assert_eq!(state.apply_change_pubkey_tx(&tx, &Some(key(9)), false).unwrap_err(), TxError::AuthorizationInvalid);
    assert_eq!(state.apply_change_pubkey_tx(&tx, &Some(key(A)), true).unwrap_err(), TxError::WrongSignature);
    let success = state.apply_change_pubkey_tx(&tx, &Some(key(9)), true).unwrap();
    assert_eq!(
        success.updates,
        vec![
            (
                AccountId(0),
                AccountUpdate::ChangePubKeyHash {
                    old_pub_key_hash: key(A),
                    new_pub_key_hash: key(9),
                    old_nonce: Nonce(0),
                    new_nonce: Nonce(1)
                }
            ),
            (
                AccountId(0),
                AccountUpdate::UpdateBalance { old_nonce: Nonce(1), new_nonce: Nonce(1), balance_update: (TokenId(0), 1000, 990) }
            ),
        ]
    );
    assert_eq!(state.get_account(AccountId(0)).unwrap().pub_key_hash, key(9));
}

#[test]
fn close_is_disabled_but_replays() {
    let mut state = ledger();
    let close = Close { account: Address([B; 20]), nonce: Nonce(0), time_range: None };
    assert_eq!(state.apply_close_tx(&close).unwrap_err(), TxError::CloseDisabled);
    let full = CloseOp { tx: close, account_id: AccountId(0) };
    assert_eq!(state.apply_close_op(&full).unwrap_err(), TxError::AccountNotEmpty);
    let empty = CloseOp { tx: close, account_id: AccountId(1) };
    let (fee, updates) = state.apply_close_op(&empty).unwrap();
    assert_eq!(fee, Some(CollectedFee { token: TokenId(0), amount: 0 }));
    assert_eq!(updates, vec![(AccountId(1), AccountUpdate::Delete { address: Address([B; 20]), nonce: Nonce(0) })]);
    assert!(state.get_account(AccountId(1)).is_none());
}

#[test]
fn ledger_lookup_by_address() {
    let state = ledger();
    let (id, account) = state.get_account_by_address(&Address([B; 20])).unwrap();
    assert_eq!(id, AccountId(1));
    assert_eq!(account.pub_key_hash, key(B));
    assert!(state.get_account_by_address(&Address([3; 20])).is_none());
    assert_eq!(state.get_free_account_id(), AccountId(2));
}

#[test]
fn replaying_executed_operations() {
    let mut state = ledger();
    let (fee, updates) = state.apply_op(&ZkDposOp::Noop(NoopOp {})).unwrap();
    assert!(fee.is_none() && updates.is_empty());
    let op = ZkDposOp::Transfer(TransferOp { tx: transfer(B, 100, 10, 0), from: AccountId(0), to: AccountId(1) });
    let decoded = ZkDposOp::from_public_data(&op.public_data()).unwrap();
    let (fee, updates) = state.apply_op(&decoded).unwrap();
    assert_eq!(fee, Some(CollectedFee { token: TokenId(0), amount: 10 }));
    assert_eq!(updates.len(), 2);
    assert_eq!((balance(&state, 0, 0), balance(&state, 1, 0)), (890, 100));
    assert_eq!(state.apply_op(&decoded).unwrap_err(), TxError::NonceMismatch);
}

#[test]
fn deposit_op_refuses_a_second_account_at_an_address() {
    let mut state = ledger();
    let op = ZkDposOp::Deposit(zkdpos_core::operations::DepositOp {
        priority_op: zkdpos_core::priority_ops::Deposit {
            from: Address([A; 20]),
            token: TokenId(0),
            amount: 5,
            to: Address([A; 20]),
        },
        account_id: AccountId(7),
    });
    assert_eq!(state.apply_op(&op).unwrap_err(), TxError::AccountExists);
    assert!(state.get_account(AccountId(7)).is_none());
    assert_eq!(balance(&state, 0, 0), 1000);
}
