use zkdpos_core::basic::{AccountId, Address, Nonce, PubKeyHash, TokenId};
use zkdpos_core::gas_counter::{CommitCost, GasCounter, VerifyCost, TX_GAS_LIMIT};
use zkdpos_core::operations::{
    ChangePubKeyOp, DepositOp, ForcedExitOp, FullExitOp, NoopOp, TransferOp, TransferToNewOp, WithdrawOp,
};
use zkdpos_core::priority_ops::{Deposit, FullExit};
use zkdpos_core::tx::{ChangePubKey, ChangePubKeyAuth, ForcedExit, Transfer, Withdraw};
use zkdpos_core::zkdpos_op::ZkDposOp;

fn zero() -> Address {
    Address([0u8; 20])
}

fn change_pubkey_op(auth: ChangePubKeyAuth) -> ChangePubKeyOp {
    ChangePubKeyOp {
        tx: ChangePubKey {
            account_id: AccountId(1),
            account: zero(),
            new_pk_hash: PubKeyHash([0u8; 20]),
            fee_token: TokenId(0),
            fee: 0,
            nonce: Nonce(0),
            auth,
            time_range: None,
        },
        account_id: AccountId(1),
    }
}

fn transfer() -> Transfer {
    Transfer {
        account_id: AccountId(1),
        from: zero(),
        to: zero(),
        token: TokenId(0),
        amount: 0,
        fee: 0,
        nonce: Nonce(0),
        time_range: None,
    }
}

fn scale_up(v: u128) -> u128 {
    v * 130 / 100
}

#[test]
fn commit_and_verify_cost() {
    let change_pubkey_op = ZkDposOp::ChangePubKeyOffchain(change_pubkey_op(ChangePubKeyAuth::Onchain));
    let deposit_op = ZkDposOp::Deposit(DepositOp {
        priority_op: Deposit { from: zero(), token: TokenId(0), amount: 0, to: zero() },
        account_id: AccountId(1),
    });
    let transfer_op = ZkDposOp::Transfer(TransferOp { tx: transfer(), from: AccountId(1), to: AccountId(1) });
    let transfer_to_new_op =
        ZkDposOp::TransferToNew(TransferToNewOp { tx: transfer(), from: AccountId(1), to: AccountId(1) });
    let noop_op = ZkDposOp::Noop(NoopOp {});
    let full_exit_op = ZkDposOp::FullExit(FullExitOp {
        priority_op: FullExit { account_id: AccountId(0), atp_address: zero(), token: TokenId(0) },
        withdraw_amount: None,
    });
    let forced_exit_op = ZkDposOp::ForcedExit(ForcedExitOp {
        tx: ForcedExit {
            initiator_account_id: AccountId(1),
            target: zero(),
            token: TokenId(0),
            fee: 0,
            nonce: Nonce(0),
            time_range: None,
        },
        target_account_id: AccountId(1),
        withdraw_amount: None,
    });
    let withdraw_op = ZkDposOp::Withdraw(WithdrawOp {
        tx: Withdraw {
            account_id: AccountId(1),
            from: zero(),
            to: zero(),
            token: TokenId(0),
            amount: 0,
            fee: 0,
            nonce: Nonce(0),
            fast: false,
            time_range: None,
        },
        account_id: AccountId(1),
    });

    let test_vector_commit = vec![
        (change_pubkey_op, CommitCost::CHANGE_PUBKEY_COST_ONCHAIN),
        (deposit_op, CommitCost::DEPOSIT_COST),
        (transfer_op, CommitCost::TRANSFER_COST),
        (transfer_to_new_op, CommitCost::TRANSFER_TO_NEW_COST),
        (noop_op, 0),
        (full_exit_op, CommitCost::FULL_EXIT_COST),
        (forced_exit_op, CommitCost::FORCED_EXIT_COST),
        (withdraw_op, CommitCost::WITHDRAW_COST),
    ];
    let test_vector_verify = vec![
        (change_pubkey_op, VerifyCost::CHANGE_PUBKEY_COST),
        (deposit_op, VerifyCost::DEPOSIT_COST),
        (transfer_op, VerifyCost::TRANSFER_COST),
        (transfer_to_new_op, VerifyCost::TRANSFER_TO_NEW_COST),
        (noop_op, 0),
        (full_exit_op, VerifyCost::FULL_EXIT_COST),
        (forced_exit_op, VerifyCost::FORCED_EXIT_COST),
        (withdraw_op, VerifyCost::WITHDRAW_COST),
    ];

    for (op, expected_cost) in test_vector_commit {
        assert_eq!(CommitCost::op_cost(&op), expected_cost);
    }
    for (op, expected_cost) in test_vector_verify {
        assert_eq!(VerifyCost::op_cost(&op), expected_cost);
    }
}

#[test]
fn gas_counter() {
    let zkdpos_op = ZkDposOp::ChangePubKeyOffchain(change_pubkey_op(ChangePubKeyAuth::Onchain));

    let mut gas_counter = GasCounter::new();

    assert_eq!(gas_counter.commit_cost, CommitCost::BASE_COST);
    assert_eq!(gas_counter.verify_cost, VerifyCost::BASE_COST);

    // Verify cost is 0, thus amount of operations is determined by the commit cost.
    let amount_ops_in_block = (TX_GAS_LIMIT as u128 - scale_up(gas_counter.commit_cost as u128))
        / scale_up(CommitCost::CHANGE_PUBKEY_COST_ONCHAIN as u128);

    for _ in 0..amount_ops_in_block {
        gas_counter.add_op(&zkdpos_op).expect("Gas limit was not reached, but op adding failed");
    }

    // Expected gas limit is (base_cost + n_ops * op_cost) * 1.3
    let expected_commit_limit = (CommitCost::BASE_COST as u128
        + amount_ops_in_block * CommitCost::CHANGE_PUBKEY_COST_ONCHAIN as u128)
        * 130
        / 100;
    let expected_verify_limit = (VerifyCost::BASE_COST as u128
        + amount_ops_in_block * VerifyCost::CHANGE_PUBKEY_COST as u128)
        * 130
        / 100;
    assert_eq!(gas_counter.commit_gas_limit(), expected_commit_limit);
    assert_eq!(gas_counter.verify_gas_limit(), expected_verify_limit);

    // Attempt to add one more operation (it should fail).
    gas_counter.add_op(&zkdpos_op).expect_err("Able to add operation beyond the gas limit");

    // Check again that limit has not changed.
    assert_eq!(gas_counter.commit_gas_limit(), expected_commit_limit);
    assert_eq!(gas_counter.verify_gas_limit(), expected_verify_limit);
}

#[test]
fn gas_counter_exact_limits() {
    let op = ZkDposOp::ChangePubKeyOffchain(change_pubkey_op(ChangePubKeyAuth::Onchain));
    let mut counter = GasCounter::new();
    let mut added = 0u32;
    while counter.add_op(&op).is_ok() {
        added += 1;
    }
    assert_eq!(added, 759);
    assert_eq!(counter.commit_cost, 3_076_000);
    assert_eq!(counter.commit_gas_limit(), 3_998_800);
    assert_eq!(counter.verify_gas_limit(), 13_000);
}

#[test]
fn gas_rejection_keeps_both_totals() {
    let withdraw = ZkDposOp::Withdraw(WithdrawOp {
        tx: Withdraw {
            account_id: AccountId(1),
            from: zero(),
            to: zero(),
            token: TokenId(0),
            amount: 0,
            fee: 0,
            nonce: Nonce(0),
            fast: false,
            time_range: None,
        },
        account_id: AccountId(1),
    });
    let mut counter = GasCounter { commit_cost: 100_000, verify_cost: 3_050_000 };
    assert!(counter.add_op(&withdraw).is_err());
    assert_eq!(counter.commit_cost, 100_000);
    assert_eq!(counter.verify_cost, 3_050_000);
}

#[test]
fn ecdsa_key_change_costs_more_to_commit() {
    let op = ZkDposOp::ChangePubKeyOffchain(change_pubkey_op(ChangePubKeyAuth::ECDSA));
    assert_eq!(CommitCost::op_cost(&op), 11_050);
    assert_eq!(VerifyCost::op_cost(&op), 0);
}

#[test]
fn aggregated_and_withdrawal_limits() {
    assert_eq!(GasCounter::commit_gas_limit_aggregated(&[100, 200]), 450_300);
    assert_eq!(GasCounter::execute_gas_limit_aggregated(&[]), 450_000);
    assert_eq!(GasCounter::complete_withdrawals_gas_limit(), (30_307 + 20 * 200_000) * 130 / 100);
    assert_eq!(CommitCost::base_cost(), 40_000);
    assert_eq!(VerifyCost::base_cost(), 10_000);
}
