use zkdpos_core::basic::{Address, TokenId};
use zkdpos_core::network::Network;
use zkdpos_core::tokens::{ChangePubKeyFeeType, ChangePubKeyFeeTypeArg, Token, TokenLike, TxFeeTypes};
use zkdpos_core::basic::{AccountId, Nonce};
use zkdpos_core::tx::{ChangePubKey, ChangePubKeyAuth, TimeRange, Withdraw};
use zkdpos_core::zkdpos_tx::ZkDposTx;

#[test]
fn token_like_parsing() {
    assert_eq!(TokenLike::parse("12"), TokenLike::Id(TokenId(12)));
    assert_eq!(TokenLike::parse("+7"), TokenLike::Id(TokenId(7)));
    let hex = "0x0101010101010101010101010101010101010101";
    assert_eq!(TokenLike::parse(hex), TokenLike::Address(Address([1; 20])));
    assert_eq!(TokenLike::parse(&hex[2..]), TokenLike::Address(Address([1; 20])));
    assert_eq!(TokenLike::parse("ATP"), TokenLike::Symbol("ATP".to_string()));
    assert_eq!(TokenLike::parse("65536"), TokenLike::Symbol("65536".to_string()));
}

#[test]
fn native_coin_detection() {
    assert!(TokenLike::Symbol("ATP".to_string()).is_atp());
    assert!(!TokenLike::Symbol("USDC".to_string()).is_atp());
    assert!(TokenLike::Address(Address([0; 20])).is_atp());
    assert!(TokenLike::Id(TokenId(0)).is_atp());
    assert!(!TokenLike::Id(TokenId(1)).is_atp());
    let token = Token::new(TokenId(1), Address([2; 20]), "USDC", 6);
    assert_eq!(token.symbol, "USDC");
    assert_eq!(token.decimals, 6);
}

#[test]
fn network_names_and_chain_ids() {
    assert_eq!(Network::Mainnet.chain_id(), 201018);
    assert_eq!(Network::Testnet.chain_id(), 201030);
    assert_eq!(Network::Localhost.chain_id(), 9);
    assert_eq!(Network::from_name("ropsten"), Ok(Network::Ropsten));
    assert_eq!(Network::from_name("unknown"), Err("unknown".to_string()));
    assert_eq!(Network::Rinkeby.name(), "rinkeby");
}

#[test]
fn transaction_accessors() {
    let withdraw = Withdraw {
        account_id: AccountId(4),
        from: Address([1; 20]),
        to: Address([9; 20]),
        token: TokenId(2),
        amount: 100,
        fee: 3,
        nonce: Nonce(8),
        fast: true,
        time_range: Some(TimeRange { valid_from: 5, valid_until: 10 }),
    };
    let tx = ZkDposTx::Withdraw(withdraw);
    assert_eq!(tx.nonce(), Nonce(8));
    assert_eq!(tx.token_id(), TokenId(2));
    assert_eq!(tx.account_id(), Some(AccountId(4)));
    assert_eq!(tx.min_chunks(), 6);
    assert!(tx.is_withdraw());
    assert!(tx.check_correctness());
    assert_eq!(tx.valid_from(), 5);
    assert_eq!(tx.get_fee_info(), Some((TxFeeTypes::FastWithdraw, TokenLike::Id(TokenId(2)), Address([9; 20]), 3)));
    let bad = ZkDposTx::Withdraw(Withdraw { fee: 2049, ..withdraw });
    assert!(!bad.check_correctness());
    let change = ChangePubKey {
        account_id: AccountId(1),
        account: Address([1; 20]),
        new_pk_hash: zkdpos_core::basic::PubKeyHash([2; 20]),
        fee_token: TokenId(0),
        fee: 1,
        nonce: Nonce(0),
        auth: ChangePubKeyAuth::CREATE2,
        time_range: None,
    };
    assert_eq!(
        change.get_fee_type(),
        ChangePubKeyFeeTypeArg::ContractsV4Version(ChangePubKeyFeeType::CREATE2)
    );
}

#[test]
fn withdraw_signed_message_layout() {
    let withdraw = Withdraw {
        account_id: AccountId(4),
        from: Address([1; 20]),
        to: Address([9; 20]),
        token: TokenId(2),
        amount: 100,
        fee: 1000,
        nonce: Nonce(8),
        fast: false,
        time_range: Some(TimeRange { valid_from: 5, valid_until: 10 }),
    };
    let mut expected = vec![3, 0, 0, 0, 4];
    expected.extend_from_slice(&[1; 20]);
    expected.extend_from_slice(&[9; 20]);
    expected.extend_from_slice(&[0, 2]);
    expected.extend_from_slice(&100u128.to_be_bytes());
    expected.extend_from_slice(&[0x7d, 0x00]);
    expected.extend_from_slice(&[0, 0, 0, 8]);
    expected.extend_from_slice(&5u64.to_be_bytes());
    expected.extend_from_slice(&10u64.to_be_bytes());
    assert_eq!(withdraw.get_bytes(), expected);
    assert_eq!(ZkDposTx::Withdraw(withdraw).get_bytes(), expected);
    let untimed = Withdraw { time_range: None, ..withdraw };
    assert_eq!(untimed.get_bytes().len(), expected.len() - 16);
}
