//! Operations initiated on the base chain: deposits and full exits.

use vstd::prelude::*;
use crate::basic::{AccountId, Address, SerialId, TokenId};
use crate::abi::{abi_event_fields, decode_event, EventFields};
use crate::bytes::{be_bytes, be_value, push_all, push_be, read_20, read_be};

verus! {

/// Opcode of a deposit.
pub const DEPOSIT_OP_CODE: u8 = 0x01;

/// Opcode of a full exit.
pub const FULL_EXIT_OP_CODE: u8 = 0x06;

/// Length of a priority operation's payload in the base-chain event.
pub const PRIORITY_PUBDATA_BYTES: usize = 43;

/// Moves funds from a base-chain address to the layer-2 account at `to`,
/// creating that account if needed.
#[derive(Clone, Copy, Debug)]
pub struct Deposit {
    pub from: Address,
    pub token: TokenId,
    pub amount: u128,
    pub to: Address,
}

/// Withdraws the whole balance of one token of an account to its owner.
#[derive(Clone, Copy, Debug)]
pub struct FullExit {
    pub account_id: AccountId,
    pub atp_address: Address,
    pub token: TokenId,
}

/// A priority operation.
#[derive(Clone, Copy, Debug)]
pub enum ZkDposPriorityOp {
    Deposit(Deposit),
    FullExit(FullExit),
}

/// Why an event payload could not be read.
#[derive(Clone, Copy, Debug, PartialEq, Eq, Structural)]
pub enum PriorityOpError {
    /// The payload is shorter or longer than its kind requires.
    LengthMismatch,
    /// The op type is neither deposit nor full exit.
    UnsupportedOpType,
    /// The event tuple could not be decoded.
    MalformedEvent,
}

/// The deposit that a payload holds (its first five bytes are not read).
pub open spec fn deposit_of(s: Seq<u8>, sender: Seq<u8>) -> (Seq<u8>, nat, nat, Seq<u8>) {
    (sender, be_value(s.subrange(5, 7)), be_value(s.subrange(7, 23)), s.subrange(23, 43))
}

/// The full exit that a payload holds (the trailing amount is not read).
pub open spec fn full_exit_of(s: Seq<u8>) -> (nat, Seq<u8>, nat) {
    (be_value(s.subrange(1, 5)), s.subrange(5, 25), be_value(s.subrange(25, 27)))
}

impl ZkDposPriorityOp {
    /// The error, if any, that parsing a payload gives.
    pub open spec fn parsed(s: Seq<u8>, op_type: u8) -> Result<(), PriorityOpError> {
        if op_type != DEPOSIT_OP_CODE && op_type != FULL_EXIT_OP_CODE {
            Err(PriorityOpError::UnsupportedOpType)
        } else if s.len() != PRIORITY_PUBDATA_BYTES {
            Err(PriorityOpError::LengthMismatch)
        } else {
            Ok(())
        }
    }

    /// `op` is what parsing a payload of the right kind and length gives.
    pub open spec fn parse_matches(s: Seq<u8>, op_type: u8, sender: Seq<u8>, op: ZkDposPriorityOp) -> bool {
        match op {
            ZkDposPriorityOp::Deposit(d) => op_type == DEPOSIT_OP_CODE && (d.from@, d.token.0 as nat, d.amount as nat, d.to@) == deposit_of(s, sender),
            ZkDposPriorityOp::FullExit(f) => op_type == FULL_EXIT_OP_CODE && (f.account_id.0 as nat, f.atp_address@, f.token.0 as nat) == full_exit_of(s),
        }
    }

    /// The deposit, if this is one.
    pub fn try_get_deposit(&self) -> (r: Option<Deposit>)
        ensures
            r == (match *self {
                ZkDposPriorityOp::Deposit(d) => Some(d),
                _ => None,
            }),
    {
        match self {
            ZkDposPriorityOp::Deposit(d) => Some(*d),
            _ => None,
        }
    }

    /// Reads a priority operation from the payload of a base-chain event.
    ///
    /// The payload is read left to right in fixed-width fields; any shortfall
    /// or any byte left over is an error.
    pub fn parse_from_priority_queue_logs(pub_data: &[u8], op_type_id: u8, sender: Address) -> (r:
        Result<ZkDposPriorityOp, PriorityOpError>)
        ensures
            Self::parsed(pub_data@, op_type_id) is Err ==> r == Err::<ZkDposPriorityOp, PriorityOpError>(
                Self::parsed(pub_data@, op_type_id)->Err_0,
            ),
            Self::parsed(pub_data@, op_type_id) is Ok ==> r is Ok,
            r is Ok ==> Self::parse_matches(pub_data@, op_type_id, sender@, r->Ok_0),
            op_type_id != DEPOSIT_OP_CODE && op_type_id != FULL_EXIT_OP_CODE ==> r == Err::<
                ZkDposPriorityOp,
                PriorityOpError,
            >(PriorityOpError::UnsupportedOpType),
            (op_type_id == DEPOSIT_OP_CODE || op_type_id == FULL_EXIT_OP_CODE) && pub_data@.len()
                != PRIORITY_PUBDATA_BYTES ==> r == Err::<ZkDposPriorityOp, PriorityOpError>(
                PriorityOpError::LengthMismatch,
            ),
            op_type_id == DEPOSIT_OP_CODE && pub_data@.len() == PRIORITY_PUBDATA_BYTES ==> match r {
                Ok(ZkDposPriorityOp::Deposit(d)) => (d.from@, d.token.0 as nat, d.amount as nat, d.to@)
                    == deposit_of(pub_data@, sender@),
                _ => false,
            },
            op_type_id == FULL_EXIT_OP_CODE && pub_data@.len() == PRIORITY_PUBDATA_BYTES ==> match r {
                Ok(ZkDposPriorityOp::FullExit(f)) => (f.account_id.0 as nat, f.atp_address@, f.token.0 as nat)
                    == full_exit_of(pub_data@),
                _ => false,
            },
    {
        if op_type_id == DEPOSIT_OP_CODE {
            // op type, then account id: both skipped
            if pub_data.len() < 1 + 4 {
                return Err(PriorityOpError::LengthMismatch);
            }
            let mut off: usize = 5;
            // token
            if pub_data.len() - off < 2 {
                return Err(PriorityOpError::LengthMismatch);
            }
            let token = read_be(pub_data, off, 2);
            off = off + 2;
            // amount
            if pub_data.len() - off < 16 {
                return Err(PriorityOpError::LengthMismatch);
            }
            let amount = read_be(pub_data, off, 16);
            off = off + 16;
            // recipient
            if pub_data.len() - off < 20 {
                return Err(PriorityOpError::LengthMismatch);
            }
            let to = read_20(pub_data, off);
            off = off + 20;
            if pub_data.len() != off {
                return Err(PriorityOpError::LengthMismatch);
            }
            proof {
                crate::bytes::lemma_be_value_bound(pub_data@.subrange(5, 7));
                crate::bytes::lemma_pow256_values();
            }
            Ok(ZkDposPriorityOp::Deposit(Deposit { from: sender, token: TokenId(token as u16), amount, to: Address(to) }))
        } else if op_type_id == FULL_EXIT_OP_CODE {
            if pub_data.len() < 1 + 4 {
                return Err(PriorityOpError::LengthMismatch);
            }
            let account_id = read_be(pub_data, 1, 4);
            let mut off: usize = 5;
            if pub_data.len() - off < 20 {
                return Err(PriorityOpError::LengthMismatch);
            }
            let atp_address = read_20(pub_data, off);
            off = off + 20;
            if pub_data.len() - off < 2 {
                return Err(PriorityOpError::LengthMismatch);
            }
            let token = read_be(pub_data, off, 2);
            off = off + 2;
            // the amount field is present but not read
            if pub_data.len() - off != 16 {
                return Err(PriorityOpError::LengthMismatch);
            }
            proof {
                crate::bytes::lemma_be_value_bound(pub_data@.subrange(1, 5));
                crate::bytes::lemma_be_value_bound(pub_data@.subrange(25, 27));
                crate::bytes::lemma_pow256_values();
            }
            Ok(ZkDposPriorityOp::FullExit(FullExit {
                account_id: AccountId(account_id as u32),
                atp_address: Address(atp_address),
                token: TokenId(token as u16),
            }))
        } else {
            Err(PriorityOpError::UnsupportedOpType)
        }
    }
}

/// Chunks of a deposit's and of a full exit's public data.
pub const PRIORITY_OP_CHUNKS: usize = 6;

/// A 32-byte word holds a number below 256 to the power `n`: all but its
/// last `n` bytes are zero.
pub open spec fn word_fits(w: Seq<u8>, n: int) -> bool {
    forall|i: int| 0 <= i < 32 - n ==> #[trigger] w[i] == 0
}

/// The number in the last `n` bytes of a word.
pub open spec fn word_low(w: Seq<u8>, n: int) -> nat {
    be_value(w.subrange(32 - n, 32))
}

fn word_low_u64(w: &[u8; 32], n: usize) -> (r: Option<u64>)
    requires
        n == 4 || n == 8,
    ensures
        word_fits(w@, n as int) ==> r is Some && r->Some_0 as nat == word_low(w@, n as int),
        !word_fits(w@, n as int) ==> r is None,
{
    let mut i: usize = 0;
    while i < 32 - n
        invariant
            n == 4 || n == 8,
            0 <= i <= 32 - n,
            forall|k: int| 0 <= k < i ==> w@[k] == 0,
        decreases 32 - n - i,
    {
        if w[i] != 0 {
            return None;
        }
        i = i + 1;
    }
    let v = read_be(w, 32 - n, n);
    proof {
        crate::bytes::lemma_be_value_bound(w@.subrange(32 - n, 32));
        crate::bytes::lemma_pow256_values();
    }
    Some(v as u64)
}

/// A priority operation with the base-chain data needed to track it.
#[derive(Clone, Copy, Debug)]
pub struct PriorityOp {
    pub serial_id: SerialId,
    pub data: ZkDposPriorityOp,
    /// Base-chain block by which the operation must be processed.
    pub deadline_block: u64,
    /// Hash of the base-chain transaction that emitted it.
    pub atp_hash: [u8; 32],
    /// Base-chain block that holds that transaction.
    pub atp_block: u64,
}

impl ZkDposPriorityOp {
    /// Chunks the operation takes in a block.
    pub fn chunks(&self) -> (r: usize)
        ensures
            r == PRIORITY_OP_CHUNKS,
    {
        match self {
            ZkDposPriorityOp::Deposit(_) => PRIORITY_OP_CHUNKS,
            ZkDposPriorityOp::FullExit(_) => PRIORITY_OP_CHUNKS,
        }
    }
}

/// Deposit payload as the contract's priority queue holds it, with a zero account id.
pub open spec fn cancel_payload(d: Deposit) -> Seq<u8> {
    seq![DEPOSIT_OP_CODE] + be_bytes(0, 4) + be_bytes(d.token.0 as nat, 2) + be_bytes(d.amount as nat, 16) + d.to@
}

/// Payloads of the deposits among `ops`, in order.
pub open spec fn cancel_payloads(ops: Seq<PriorityOp>) -> Seq<Seq<u8>>
    decreases ops.len(),
{
    if ops.len() == 0 {
        Seq::empty()
    } else {
        let rest = cancel_payloads(ops.drop_last());
        match ops.last().data {
            ZkDposPriorityOp::Deposit(d) => rest.push(cancel_payload(d)),
            _ => rest,
        }
    }
}

proof fn lemma_cancel_payloads_len(ops: Seq<PriorityOp>)
    ensures
        cancel_payloads(ops).len() <= ops.len(),
    decreases ops.len(),
{
    if ops.len() > 0 {
        lemma_cancel_payloads_len(ops.drop_last());
    }
}

/// What building a priority operation from event fields `f` (sender,
/// serial id, op type, payload, deadline) gives: the serial id and the
/// deadline must fit in 64 bits and the op-type word in 32 bits, whose low
/// byte is the op type; then the payload is parsed.
pub open spec fn event_outcome(
    f: (Seq<u8>, Seq<u8>, Seq<u8>, Seq<u8>, Seq<u8>),
    atp_hash: [u8; 32],
    atp_block: u64,
    r: Result<PriorityOp, PriorityOpError>,
) -> bool {
    let (sender, serial, op_word, pub_data, deadline) = f;
    let op_type = (word_low(op_word, 4) % 256) as u8;
    let parsed = ZkDposPriorityOp::parsed(pub_data, op_type);
    if !word_fits(serial, 8) || !word_fits(op_word, 4) {
        r == Err::<PriorityOp, PriorityOpError>(PriorityOpError::MalformedEvent)
    } else if parsed is Err {
        r == Err::<PriorityOp, PriorityOpError>(parsed->Err_0)
    } else if !word_fits(deadline, 8) {
        r == Err::<PriorityOp, PriorityOpError>(PriorityOpError::MalformedEvent)
    } else {
        &&& r is Ok
        &&& r->Ok_0.serial_id.0 == word_low(serial, 8)
        &&& r->Ok_0.deadline_block == word_low(deadline, 8)
        &&& r->Ok_0.atp_hash == atp_hash
        &&& r->Ok_0.atp_block == atp_block
        &&& ZkDposPriorityOp::parse_matches(pub_data, op_type, sender, r->Ok_0.data)
    }
}

impl PriorityOp {
    /// Builds the operation from decoded event fields. The serial id and the
    /// deadline must fit in 64 bits and the op-type word in 32 bits, whose
    /// low byte is the op type.
    pub fn from_event_fields(fields: &EventFields, atp_hash: [u8; 32], atp_block: u64) -> (r: Result<PriorityOp, PriorityOpError>)
        ensures
            event_outcome(fields@, atp_hash, atp_block, r),
    {
        let serial_id = match word_low_u64(&fields.serial_id, 8) {
            Some(v) => v,
            None => return Err(PriorityOpError::MalformedEvent),
        };
        let op_type = match word_low_u64(&fields.op_type, 4) {
            Some(v) => (v % 256) as u8,
            None => return Err(PriorityOpError::MalformedEvent),
        };
        let data = match ZkDposPriorityOp::parse_from_priority_queue_logs(fields.pub_data.as_slice(), op_type, Address(fields.sender)) {
            Ok(d) => d,
            Err(e) => return Err(e),
        };
        let deadline_block = match word_low_u64(&fields.deadline, 8) {
            Some(v) => v,
            None => return Err(PriorityOpError::MalformedEvent),
        };
        Ok(PriorityOp { serial_id: SerialId(serial_id), data, deadline_block, atp_hash, atp_block })
    }

    /// Decodes the data of a priority-queue event and builds the operation.
    pub fn try_from_event(data: &[u8], atp_hash: [u8; 32], atp_block: u64) -> (r: Result<PriorityOp, PriorityOpError>)
        ensures
            abi_event_fields(data@) is None ==> r == Err::<PriorityOp, PriorityOpError>(PriorityOpError::MalformedEvent),
            abi_event_fields(data@) matches Some(f) ==> event_outcome(f, atp_hash, atp_block, r),
    {
        let fields = match decode_event(data) {
            Some(f) => f,
            None => return Err(PriorityOpError::MalformedEvent),
        };
        Self::from_event_fields(&fields, atp_hash, atp_block)
    }

    /// Number of queue entries and the payloads of their deposits, padded
    /// with empty payloads to one per entry, for cancelling outstanding
    /// deposits in exodus mode.
    pub fn get_args_for_priority_queue_cancel(queue_entries: &[PriorityOp]) -> (r: (u64, Vec<Vec<u8>>))
        ensures
            r.0 == queue_entries@.len(),
            r.1@.len() == queue_entries@.len(),
            forall|i: int| 0 <= i < cancel_payloads(queue_entries@).len() ==> #[trigger] r.1@[i]@ == cancel_payloads(queue_entries@)[i],
            forall|i: int| cancel_payloads(queue_entries@).len() <= i < queue_entries@.len() ==> #[trigger] r.1@[i]@.len() == 0,
    {
        let mut n: u64 = 0;
        let mut deposits_data: Vec<Vec<u8>> = Vec::new();
        let len = queue_entries.len();
        let mut i: usize = 0;
        while i < len
            invariant
                len == queue_entries@.len(),
                0 <= i <= len,
                n == i,
                deposits_data@.len() == cancel_payloads(queue_entries@.subrange(0, i as int)).len(),
                forall|k: int| 0 <= k < deposits_data@.len() ==> #[trigger] deposits_data@[k]@ == cancel_payloads(queue_entries@.subrange(0, i as int))[k],
            decreases len - i,
        {
            assert(queue_entries@.subrange(0, i + 1).drop_last() =~= queue_entries@.subrange(0, i as int));
            n = n + 1;
            match queue_entries[i].data.try_get_deposit() {
                Some(deposit) => {
                    let mut data: Vec<u8> = Vec::new();
                    data.push(DEPOSIT_OP_CODE);
                    push_be(&mut data, 0, 4);
                    push_be(&mut data, deposit.token.0 as u128, 2);
                    push_be(&mut data, deposit.amount, 16);
                    push_all(&mut data, &deposit.to.0);
                    assert(data@ =~= cancel_payload(deposit));
                    deposits_data.push(data);
                },
                None => {},
            }
            i = i + 1;
        }
        assert(queue_entries@.subrange(0, len as int) =~= queue_entries@);
        proof {
            lemma_cancel_payloads_len(queue_entries@);
        }
        let ghost filled = deposits_data@.len();
        while deposits_data.len() < len
            invariant
                len == queue_entries@.len(),
                filled == cancel_payloads(queue_entries@).len(),
                filled <= deposits_data@.len() <= len,
                forall|k: int| 0 <= k < filled ==> #[trigger] deposits_data@[k]@ == cancel_payloads(queue_entries@)[k],
                forall|k: int| filled <= k < deposits_data@.len() ==> #[trigger] deposits_data@[k]@.len() == 0,
            decreases len - deposits_data@.len(),
        {
            deposits_data.push(Vec::new());
        }
        (n, deposits_data)
    }
}

} // verus!
