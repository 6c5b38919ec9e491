use zkdpos_core::account::{Account, AccountUpdate};
use zkdpos_core::basic::{AccountId, Address, Nonce, PubKeyHash, TokenId};
use zkdpos_core::priority_ops::{Deposit, FullExit};
use zkdpos_core::state::ZkDposState;

fn address(b: u8) -> Address {
    Address([b; 20])
}

/// A ledger holding one account with no signing key.
fn ledger_with_locked_account(addr: Address) -> (ZkDposState, AccountId, Account) {
    let mut state = ZkDposState::new();
    let id = state.get_free_account_id();
    let mut account = Account::default_with_address(&addr);
    account.nonce = Nonce(3);
    account.pub_key_hash = PubKeyHash([0u8; 20]);
    state.insert_account(id, account.clone());
    (state, id, account)
}

#[test]
fn deposit_to_existing() {
    let token = TokenId(0);
    let (mut state, account_id, account) = ledger_with_locked_account(address(7));
    let deposit = Deposit { from: account.address, to: account.address, amount: 100, token };
    let success = state.apply_deposit(&deposit).expect("deposit failed");
    assert_eq!(
        success.updates,
        vec![(
            account_id,
            AccountUpdate::UpdateBalance {
                old_nonce: account.nonce,
                new_nonce: account.nonce,
                balance_update: (token, 0, 100),
            },
        )]
    );
    assert_eq!(state.get_account(account_id).unwrap().get_balance(token), 100);
}

#[test]
fn deposit_to_new() {
    let token = TokenId(0);
    let mut state = ZkDposState::new();
    let addr = address(9);
    let account_id = state.get_free_account_id();
    let deposit = Deposit { from: addr, to: addr, amount: 100, token };
    let success = state.apply_deposit(&deposit).expect("deposit failed");
    assert_eq!(
        success.updates,
        vec![
            (account_id, AccountUpdate::Create { address: addr, nonce: Nonce(0) }),
            (
                account_id,
                AccountUpdate::UpdateBalance {
                    old_nonce: Nonce(0),
                    new_nonce: Nonce(0),
                    balance_update: (token, 0, 100),
                },
            ),
        ]
    );
    assert!(success.fee.is_none());
}

#[test]
fn full_exit_non_existent() {
    let token = TokenId(0);
    let mut state = ZkDposState::new();
    let full_exit = FullExit { token, atp_address: address(5), account_id: AccountId(145) };
    let success = state.apply_full_exit(&full_exit).expect("full exit failed");
    assert_eq!(success.updates, vec![]);
    assert!(state.get_account(AccountId(145)).is_none());
}

#[test]
fn full_exit_success() {
    let token = TokenId(0);
    let (mut state, account_id, account) = ledger_with_locked_account(address(4));
    let mut funded = state.get_account(account_id).unwrap();
    funded.set_balance(token, 145);
    state.insert_account(account_id, funded);
    let full_exit = FullExit { token, atp_address: account.address, account_id };
    let success = state.apply_full_exit(&full_exit).expect("full exit failed");
    assert_eq!(
        success.updates,
        vec![(
            account_id,
            AccountUpdate::UpdateBalance {
                old_nonce: account.nonce,
                new_nonce: account.nonce,
                balance_update: (token, 145, 0),
            },
        )]
    );
    assert_eq!(state.get_account(account_id).unwrap().get_balance(token), 0);
}

#[test]
fn full_exit_of_another_owner_withdraws_nothing() {
    let token = TokenId(0);
    let (mut state, account_id, _) = ledger_with_locked_account(address(4));
    let mut funded = state.get_account(account_id).unwrap();
    funded.set_balance(token, 145);
    state.insert_account(account_id, funded);
    let full_exit = FullExit { token, atp_address: address(6), account_id };
    let success = state.apply_full_exit(&full_exit).expect("full exit failed");
    assert!(success.updates.is_empty());
    assert_eq!(state.get_account(account_id).unwrap().get_balance(token), 145);
}

#[test]
fn deposit_overflow_is_rejected_without_change() {
    let token = TokenId(2);
    let (mut state, account_id, account) = ledger_with_locked_account(address(8));
    let deposit = Deposit { from: account.address, to: account.address, amount: u128::MAX, token };
    state.apply_deposit(&deposit).unwrap();
    let again = Deposit { from: account.address, to: account.address, amount: 1, token };
    assert!(state.apply_deposit(&again).is_err());
    assert_eq!(state.get_account(account_id).unwrap().get_balance(token), u128::MAX);
}

#[test]
fn deposit_of_unsupported_token_is_rejected() {
    let mut state = ZkDposState::new();
    let deposit = Deposit { from: address(1), to: address(1), amount: 5, token: TokenId(5000) };
    assert!(state.apply_deposit(&deposit).is_err());
    assert!(state.get_account(AccountId(0)).is_none());
}
