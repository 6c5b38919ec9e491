use zkdpos_core::basic::{AccountId, Address, Nonce, PubKeyHash, TokenId, CHUNK_BYTES};
use zkdpos_core::operations::{
    AddLiquidityOp, ChangePubKeyOp, CloseOp, CodecError, DepositOp, ExchangeOp, ForcedExitOp, FullExitOp, NoopOp,
    RemoveLiquidityOp, TransferOp, TransferToNewOp, WithdrawOp,
};
use zkdpos_core::priority_ops::{Deposit, FullExit};
use zkdpos_core::tx::{
    AddLiquidity, ChangePubKey, ChangePubKeyAuth, Close, Exchange, ForcedExit, RemoveLiquidity, Transfer, Withdraw,
};
use zkdpos_core::zkdpos_op::ZkDposOp;

fn transfer(amount: u128, fee: u128) -> Transfer {
    Transfer {
        account_id: AccountId(7),
        from: Address([1; 20]),
        to: Address([2; 20]),
        token: TokenId(3),
        amount,
        fee,
        nonce: Nonce(12),
        time_range: None,
    }
}

fn withdraw() -> Withdraw {
    Withdraw {
        account_id: AccountId(4),
        from: Address([1; 20]),
        to: Address([9; 20]),
        token: TokenId(2),
        amount: 123_456_789,
        fee: 500,
        nonce: Nonce(1),
        fast: false,
        time_range: None,
    }
}

fn all_ops() -> Vec<ZkDposOp> {
    vec![
        ZkDposOp::Noop(NoopOp {}),
        ZkDposOp::Deposit(DepositOp {
            priority_op: Deposit { from: Address([0; 20]), token: TokenId(1), amount: 777, to: Address([5; 20]) },
            account_id: AccountId(11),
        }),
        ZkDposOp::TransferToNew(TransferToNewOp { tx: transfer(1000, 20), from: AccountId(7), to: AccountId(8) }),
        ZkDposOp::Withdraw(WithdrawOp { tx: withdraw(), account_id: AccountId(4) }),
        ZkDposOp::Close(CloseOp {
            tx: Close { account: Address([0; 20]), nonce: Nonce(0), time_range: None },
            account_id: AccountId(99),
        }),
        ZkDposOp::Transfer(TransferOp { tx: transfer(1000, 20), from: AccountId(7), to: AccountId(8) }),
        ZkDposOp::FullExit(FullExitOp {
            priority_op: FullExit { account_id: AccountId(6), atp_address: Address([4; 20]), token: TokenId(1) },
            withdraw_amount: Some(145),
        }),
        ZkDposOp::ChangePubKeyOffchain(ChangePubKeyOp {
            tx: ChangePubKey {
                account_id: AccountId(3),
                account: Address([6; 20]),
                new_pk_hash: PubKeyHash([8; 20]),
                fee_token: TokenId(0),
                fee: 30,
                nonce: Nonce(5),
                auth: ChangePubKeyAuth::Onchain,
                time_range: None,
            },
            account_id: AccountId(3),
        }),
        ZkDposOp::ForcedExit(ForcedExitOp {
            tx: ForcedExit {
                initiator_account_id: AccountId(1),
                target: Address([7; 20]),
                token: TokenId(2),
                fee: 40,
                nonce: Nonce(0),
                time_range: None,
            },
            target_account_id: AccountId(2),
            withdraw_amount: Some(60),
        }),
    ]
}

#[test]
fn public_data_has_chunk_length() {
    for op in all_ops() {
        assert_eq!(op.public_data().len(), op.chunks() * CHUNK_BYTES);
        assert_eq!(ZkDposOp::public_data_length(op.public_data()[0]), Ok(op.chunks() * CHUNK_BYTES));
    }
}

#[test]
fn public_data_round_trips_through_dispatch() {
    for op in all_ops() {
        let data = op.public_data();
        let back = ZkDposOp::from_public_data(&data).expect("decodes");
        assert_eq!(back.chunks(), op.chunks());
        assert_eq!(back.public_data(), data);
        assert_eq!(back.get_updated_account_ids(), op.get_updated_account_ids());
    }
}

#[test]
fn transfer_decodes_fields_and_defaults_the_rest() {
    let op = TransferOp { tx: transfer(1000, 20), from: AccountId(7), to: AccountId(8) };
    let data = op.get_public_data();
    assert_eq!(data.len(), 18);
    assert_eq!(data[..11], [5, 0, 0, 0, 7, 0, 3, 0, 0, 0, 8]);
    let back = TransferOp::from_public_data(&data).unwrap();
    assert_eq!(back.from, AccountId(7));
    assert_eq!(back.to, AccountId(8));
    assert_eq!(back.tx.token, TokenId(3));
    assert_eq!(back.tx.amount, 1000);
    assert_eq!(back.tx.fee, 20);
    assert_eq!(back.tx.nonce, Nonce(0));
    assert_eq!(back.tx.from, Address([0; 20]));
    assert_eq!(back.tx.account_id, AccountId(7));
}

#[test]
fn deposit_public_data_layout() {
    let op = DepositOp {
        priority_op: Deposit { from: Address([0; 20]), token: TokenId(1), amount: 258, to: Address([5; 20]) },
        account_id: AccountId(5),
    };
    let data = op.get_public_data();
    let mut expected = vec![1, 0, 0, 0, 5, 0, 1];
    expected.extend_from_slice(&[0; 14]);
    expected.extend_from_slice(&[1, 2]);
    expected.extend_from_slice(&[5; 20]);
    expected.resize(54, 0);
    assert_eq!(data, expected);
}

#[test]
fn withdrawal_payout_records() {
    let op = ZkDposOp::Withdraw(WithdrawOp { tx: withdraw(), account_id: AccountId(4) });
    let data = op.withdrawal_data().unwrap();
    let mut expected = vec![1];
    expected.extend_from_slice(&[9; 20]);
    expected.extend_from_slice(&[0, 2]);
    expected.extend_from_slice(&123_456_789u128.to_be_bytes());
    assert_eq!(data, expected);
    assert!(ZkDposOp::Noop(NoopOp {}).withdrawal_data().is_none());
    let exit = ZkDposOp::FullExit(FullExitOp {
        priority_op: FullExit { account_id: AccountId(6), atp_address: Address([4; 20]), token: TokenId(1) },
        withdraw_amount: None,
    });
    let payout = exit.withdrawal_data().unwrap();
    assert_eq!(payout[0], 0);
    assert_eq!(payout[21..23], [0, 1]);
    assert_eq!(payout[23..], [0u8; 16][..]);
}

#[test]
fn decoding_errors() {
    assert_eq!(ZkDposOp::from_public_data(&[]).unwrap_err(), CodecError::Empty);
    assert_eq!(ZkDposOp::from_public_data(&[0x0c; 9]).unwrap_err(), CodecError::UnknownOpCode);
    assert_eq!(ZkDposOp::from_public_data(&[0x09; 18]).unwrap_err(), CodecError::WrongLength);
    assert_eq!(ZkDposOp::from_public_data(&[5; 17]).unwrap_err(), CodecError::WrongLength);
    assert_eq!(ZkDposOp::public_data_length(0x42), Err(CodecError::UnknownOpCode));
    let mut bad_amount = vec![5, 0, 0, 0, 1, 0, 0, 0, 0, 0, 2];
    bad_amount.extend_from_slice(&[0xff; 5]);
    bad_amount.extend_from_slice(&[0, 0]);
    assert_eq!(TransferOp::from_public_data(&bad_amount).unwrap_err(), CodecError::BadAmount);
}

#[test]
fn exchange_round_trip() {
    let op = ExchangeOp {
        tx: Exchange {
            account_id: AccountId(3),
            from: Address([1; 20]),
            token_a: TokenId(1),
            token_b: TokenId(2),
            amount_a: 5000,
            amount_b: 7000,
            price: 15,
            fee: 3,
            nonce: Nonce(9),
            time_range: None,
        },
        from: AccountId(3),
        to: AccountId(3),
    };
    let data = op.get_public_data();
    assert_eq!(data.len(), ExchangeOp::CHUNKS * CHUNK_BYTES);
    let back = ExchangeOp::from_public_data(&data).unwrap();
    assert_eq!((back.from, back.to), (AccountId(3), AccountId(3)));
    assert_eq!((back.tx.token_a, back.tx.token_b), (TokenId(1), TokenId(2)));
    assert_eq!((back.tx.amount_a, back.tx.amount_b, back.tx.price, back.tx.fee), (5000, 7000, 15, 3));
    assert_eq!(back.tx.nonce, Nonce(0));
}

#[test]
fn liquidity_round_trip() {
    let add = AddLiquidity {
        account_id: AccountId(2),
        liquidity_id: 4,
        to: Address([3; 20]),
        amount_a_desired: 100,
        amount_b_desired: 200,
        amount_a_min: 90,
        amount_b_min: 180,
        token: TokenId(1),
        fee_a: 1,
        fee_b: 2,
        nonce: Nonce(1),
        time_range: None,
    };
    let op = AddLiquidityOp { tx: add, from: AccountId(2), to: AccountId(2) };
    let back = AddLiquidityOp::from_public_data(&op.get_public_data()).unwrap();
    assert_eq!(
        (back.tx.amount_a_desired, back.tx.amount_b_desired, back.tx.amount_a_min, back.tx.amount_b_min),
        (100, 200, 90, 180)
    );
    assert_eq!((back.tx.fee_a, back.tx.fee_b), (1, 2));
    assert_eq!(back.tx.token, TokenId(0));
    let remove = RemoveLiquidity {
        account_id: AccountId(2),
        liquidity_id: 4,
        to: Address([3; 20]),
        amount_a_desired: 300,
        amount_b_desired: 400,
        amount_a_min: 0,
        amount_b_min: 10,
        token: TokenId(1),
        fee_a: 5,
        fee_b: 6,
        nonce: Nonce(1),
        time_range: None,
    };
    let op = RemoveLiquidityOp { tx: remove, from: AccountId(2), to: AccountId(9) };
    let back = RemoveLiquidityOp::from_public_data(&op.get_public_data()).unwrap();
    assert_eq!((back.from, back.to), (AccountId(2), AccountId(9)));
    assert_eq!((back.tx.amount_a_desired, back.tx.fee_b), (300, 6));
}

#[test]
fn operation_kind_predicates() {
    let ops = all_ops();
    let onchain: Vec<bool> = ops.iter().map(|op| op.is_onchain_operation()).collect();
    assert_eq!(onchain, vec![false, true, false, true, false, false, true, true, true]);
    let priority: Vec<bool> = ops.iter().map(|op| op.is_priority_op()).collect();
    assert_eq!(priority, vec![false, true, false, false, false, false, true, false, false]);
    assert!(ops[3].is_processable_onchain_operation());
    assert!(ops[1].try_get_priority_op().is_some());
    assert!(ops[0].try_get_tx().is_none());
    assert!(ops[5].try_get_tx().is_some());
}

#[test]
fn exchange_and_liquidity_dispatch_by_their_own_opcodes() {
    let exchange = ZkDposOp::Exchange(ExchangeOp {
        tx: Exchange {
            account_id: AccountId(3),
            from: Address([0; 20]),
            token_a: TokenId(1),
            token_b: TokenId(2),
            amount_a: 5000,
            amount_b: 7000,
            price: 15,
            fee: 3,
            nonce: Nonce(0),
            time_range: None,
        },
        from: AccountId(3),
        to: AccountId(3),
    });
    let add = AddLiquidity {
        account_id: AccountId(2),
        liquidity_id: 0,
        to: Address([0; 20]),
        amount_a_desired: 100,
        amount_b_desired: 200,
        amount_a_min: 90,
        amount_b_min: 180,
        token: TokenId(0),
        fee_a: 1,
        fee_b: 2,
        nonce: Nonce(0),
        time_range: None,
    };
    let remove = RemoveLiquidity {
        account_id: AccountId(2),
        liquidity_id: 0,
        to: Address([0; 20]),
        amount_a_desired: 300,
        amount_b_desired: 400,
        amount_a_min: 0,
        amount_b_min: 10,
        token: TokenId(0),
        fee_a: 5,
        fee_b: 6,
        nonce: Nonce(0),
        time_range: None,
    };
    let ops = vec![
        exchange,
        ZkDposOp::AddLiquidity(AddLiquidityOp { tx: add, from: AccountId(2), to: AccountId(2) }),
        ZkDposOp::RemoveLiquidity(RemoveLiquidityOp { tx: remove, from: AccountId(2), to: AccountId(2) }),
    ];
    let codes: Vec<u8> = ops.iter().map(|op| op.public_data()[0]).collect();
    assert_eq!(codes, vec![0x09, 0x0a, 0x0b]);
    for op in ops {
        let data = op.public_data();
        assert_eq!(ZkDposOp::public_data_length(data[0]), Ok(data.len()));
        let back = ZkDposOp::from_public_data(&data).unwrap();
        assert_eq!(std::mem::discriminant(&back), std::mem::discriminant(&op));
        assert_eq!(back.public_data(), data);
    }
}
