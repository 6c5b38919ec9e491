use zkdpos_core::basic::{AccountId, Address, SerialId, TokenId};
use zkdpos_core::priority_ops::{PriorityOp, PriorityOpError, ZkDposPriorityOp};

fn deposit_payload(token: u16, amount: u128, to: [u8; 20]) -> Vec<u8> {
    let mut data = vec![1, 0, 0, 0, 0];
    data.extend_from_slice(&token.to_be_bytes());
    data.extend_from_slice(&amount.to_be_bytes());
    data.extend_from_slice(&to);
    data
}

fn full_exit_payload(account: u32, owner: [u8; 20], token: u16) -> Vec<u8> {
    let mut data = vec![6];
    data.extend_from_slice(&account.to_be_bytes());
    data.extend_from_slice(&owner);
    data.extend_from_slice(&token.to_be_bytes());
    data.extend_from_slice(&[0; 16]);
    data
}

fn word(v: u64) -> [u8; 32] {
    let mut w = [0u8; 32];
    w[24..].copy_from_slice(&v.to_be_bytes());
    w
}

/// ABI encoding of `(address, uint64, uint8, bytes, uint256)`.
fn event(sender: [u8; 20], serial: u64, op_type: u64, payload: &[u8], deadline: u64) -> Vec<u8> {
    let mut data = Vec::new();
    let mut address = [0u8; 32];
    address[12..].copy_from_slice(&sender);
    data.extend_from_slice(&address);
    data.extend_from_slice(&word(serial));
    data.extend_from_slice(&word(op_type));
    data.extend_from_slice(&word(160));
    data.extend_from_slice(&word(deadline));
    data.extend_from_slice(&word(payload.len() as u64));
    let mut padded = payload.to_vec();
    padded.resize((payload.len() + 31) / 32 * 32, 0);
    data.extend_from_slice(&padded);
    data
}

#[test]
fn parses_deposit_payload() {
    let sender = Address([3; 20]);
    let op = ZkDposPriorityOp::parse_from_priority_queue_logs(&deposit_payload(2, 500, [4; 20]), 1, sender).unwrap();
    match op {
        ZkDposPriorityOp::Deposit(d) => {
            assert_eq!(d.from, sender);
            assert_eq!(d.token, TokenId(2));
            assert_eq!(d.amount, 500);
            assert_eq!(d.to, Address([4; 20]));
        }
        _ => panic!("not a deposit"),
    }
}

#[test]
fn parses_full_exit_payload() {
    let op = ZkDposPriorityOp::parse_from_priority_queue_logs(&full_exit_payload(145, [8; 20], 3), 6, Address([0; 20]))
        .unwrap();
    match op {
        ZkDposPriorityOp::FullExit(f) => {
            assert_eq!(f.account_id, AccountId(145));
            assert_eq!(f.atp_address, Address([8; 20]));
            assert_eq!(f.token, TokenId(3));
        }
        _ => panic!("not a full exit"),
    }
}

#[test]
fn payload_length_and_type_errors() {
    let mut long = deposit_payload(2, 500, [4; 20]);
    long.push(0);
    assert_eq!(
        ZkDposPriorityOp::parse_from_priority_queue_logs(&long, 1, Address([0; 20])).unwrap_err(),
        PriorityOpError::LengthMismatch
    );
    assert_eq!(
        ZkDposPriorityOp::parse_from_priority_queue_logs(&long[..30], 1, Address([0; 20])).unwrap_err(),
        PriorityOpError::LengthMismatch
    );
    assert_eq!(
        ZkDposPriorityOp::parse_from_priority_queue_logs(&full_exit_payload(1, [0; 20], 0)[..42], 6, Address([0; 20]))
            .unwrap_err(),
        PriorityOpError::LengthMismatch
    );
    assert_eq!(
        ZkDposPriorityOp::parse_from_priority_queue_logs(&long, 3, Address([0; 20])).unwrap_err(),
        PriorityOpError::UnsupportedOpType
    );
}

#[test]
fn decodes_priority_event() {
    let data = event([3; 20], 77, 1, &deposit_payload(2, 500, [4; 20]), 9000);
    let op = PriorityOp::try_from_event(&data, [5; 32], 123).unwrap();
    assert_eq!(op.serial_id, SerialId(77));
    assert_eq!(op.deadline_block, 9000);
    assert_eq!(op.atp_hash, [5; 32]);
    assert_eq!(op.atp_block, 123);
    match op.data {
        ZkDposPriorityOp::Deposit(d) => {
            assert_eq!(d.from, Address([3; 20]));
            assert_eq!(d.amount, 500);
        }
        _ => panic!("not a deposit"),
    }
    assert_eq!(op.data.chunks(), 6);
}

#[test]
fn malformed_events_are_rejected() {
    assert_eq!(PriorityOp::try_from_event(&[], [0; 32], 0).unwrap_err(), PriorityOpError::MalformedEvent);
    assert_eq!(PriorityOp::try_from_event(&[1, 2, 3], [0; 32], 0).unwrap_err(), PriorityOpError::MalformedEvent);
    let mut data = event([3; 20], 77, 1, &deposit_payload(2, 500, [4; 20]), 9000);
    data[32] = 1;
    assert_eq!(PriorityOp::try_from_event(&data, [0; 32], 0).unwrap_err(), PriorityOpError::MalformedEvent);
    let wrong_kind = event([3; 20], 1, 2, &deposit_payload(2, 500, [4; 20]), 9000);
    assert_eq!(PriorityOp::try_from_event(&wrong_kind, [0; 32], 0).unwrap_err(), PriorityOpError::UnsupportedOpType);
}

#[test]
fn cancel_arguments_list_deposits_then_padding() {
    let deposit = event([3; 20], 1, 1, &deposit_payload(2, 500, [4; 20]), 10);
    let exit = event([3; 20], 2, 6, &full_exit_payload(9, [4; 20], 2), 10);
    let ops = vec![
        PriorityOp::try_from_event(&exit, [0; 32], 0).unwrap(),
        PriorityOp::try_from_event(&deposit, [0; 32], 0).unwrap(),
        PriorityOp::try_from_event(&exit, [0; 32], 0).unwrap(),
    ];
    let (n, data) = PriorityOp::get_args_for_priority_queue_cancel(&ops);
    assert_eq!(n, 3);
    assert_eq!(data, vec![deposit_payload(2, 500, [4; 20]), vec![], vec![]]);
}
