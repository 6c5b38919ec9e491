//! Executed operations and their public data: the fixed-width binary form
//! committed to the base chain, and its inverse.
//!
//! Public data is `[opcode][big-endian fields at fixed offsets][zero padding]`,
//! padded to the kind's chunk count times `CHUNK_BYTES`. Decoding reads the
//! same offsets; fields that public data does not carry come back as zero.

use vstd::prelude::*;
use crate::basic::{AccountId, Address, Nonce, TokenId, CHUNK_BYTES};
use crate::bytes::{be_bytes, be_value, lemma_be_len, lemma_be_round_trip, lemma_pow256_values, pad_to, padded, push_all, push_be, read_20, read_be, read_u16, read_u32};
use crate::packing::{amount_packable, amount_packed, fee_packable, fee_packed, lemma_amount_round_trip, lemma_fee_round_trip, lemma_packed_len, pack_fee_amount, pack_token_amount, read_packed_amount, read_packed_fee, unpacked};
use crate::priority_ops::{Deposit, FullExit};
use crate::tx::{AddLiquidity, ChangePubKey, ChangePubKeyAuth, Close, Exchange, ForcedExit, RemoveLiquidity, Transfer, Withdraw};

verus! {

/// Why public data could not be decoded.
#[derive(Clone, Copy, Debug, PartialEq, Eq, Structural)]
pub enum CodecError {
    /// Empty input.
    Empty,
    /// The length differs from the kind's chunk count times the chunk width.
    WrongLength,
    /// A packed amount or fee does not fit in 128 bits.
    BadAmount,
    /// The opcode names no kind that can be decoded.
    UnknownOpCode,
}

pub open spec fn zero_address() -> Seq<u8> {
    Seq::new(20, |i: int| 0u8)
}

/// Filler operation; changes nothing.
#[derive(Clone, Copy, Debug)]
pub struct NoopOp {}

impl NoopOp {
    pub const CHUNKS: usize = 1;
    pub const OP_CODE: u8 = 0x00;

    pub open spec fn pubdata(&self) -> Seq<u8> {
        padded(seq![Self::OP_CODE], 9)
    }

    pub fn get_public_data(&self) -> (r: Vec<u8>)
        ensures
            r@ == self.pubdata(),
            r@.len() == Self::CHUNKS * CHUNK_BYTES,
    {
        let mut data: Vec<u8> = Vec::new();
        data.push(Self::OP_CODE);
        pad_to(&mut data, Self::CHUNKS * CHUNK_BYTES);
        assert(data@ =~= self.pubdata());
        data
    }

    pub fn from_public_data(bytes: &[u8]) -> (r: Result<NoopOp, CodecError>)
        ensures
            bytes@.len() != Self::CHUNKS * CHUNK_BYTES ==> r == Err::<NoopOp, CodecError>(
                CodecError::WrongLength,
            ),
            r is Ok <==> bytes@.len() == 9,
    {
        if bytes.len() != Self::CHUNKS * CHUNK_BYTES {
            return Err(CodecError::WrongLength);
        }
        Ok(NoopOp {})
    }
}

/// Deposit applied to the account `account_id`.
#[derive(Clone, Copy, Debug)]
pub struct DepositOp {
    pub priority_op: Deposit,
    pub account_id: AccountId,
}

impl DepositOp {
    pub const CHUNKS: usize = 6;
    pub const OP_CODE: u8 = 0x01;

    pub open spec fn pubdata(&self) -> Seq<u8> {
        padded(
            seq![Self::OP_CODE] + be_bytes(self.account_id.0 as nat, 4) + be_bytes(
                self.priority_op.token.0 as nat,
                2,
            ) + be_bytes(self.priority_op.amount as nat, 16) + self.priority_op.to@,
            54,
        )
    }

    pub open spec fn carries(&self, s: Seq<u8>) -> bool {
        &&& self.account_id.0 as nat == be_value(s.subrange(1, 5))
        &&& self.priority_op.token.0 as nat == be_value(s.subrange(5, 7))
        &&& self.priority_op.amount as nat == be_value(s.subrange(7, 23))
        &&& self.priority_op.to@ == s.subrange(23, 43)
    }

    pub fn get_public_data(&self) -> (r: Vec<u8>)
        ensures
            r@ == self.pubdata(),
            r@.len() == Self::CHUNKS * CHUNK_BYTES,
    {
        let mut data: Vec<u8> = Vec::new();
        data.push(Self::OP_CODE);
        push_be(&mut data, self.account_id.0 as u128, 4);
        push_be(&mut data, self.priority_op.token.0 as u128, 2);
        push_be(&mut data, self.priority_op.amount, 16);
        push_all(&mut data, &self.priority_op.to.0);
        proof {
            lemma_be_len(self.account_id.0 as nat, 4);
            lemma_be_len(self.priority_op.token.0 as nat, 2);
            lemma_be_len(self.priority_op.amount as nat, 16);
        }
        pad_to(&mut data, Self::CHUNKS * CHUNK_BYTES);
        assert(data@ =~= self.pubdata());
        data
    }

    pub fn from_public_data(bytes: &[u8]) -> (r: Result<DepositOp, CodecError>)
        ensures
            bytes@.len() != Self::CHUNKS * CHUNK_BYTES ==> r == Err::<DepositOp, CodecError>(
                CodecError::WrongLength,
            ),
            r is Ok <==> bytes@.len() == 54,
            r is Ok ==> r->Ok_0.carries(bytes@) && r->Ok_0.priority_op.from@ == zero_address(),
    {
        if bytes.len() != Self::CHUNKS * CHUNK_BYTES {
            return Err(CodecError::WrongLength);
        }
        let account_id = read_u32(bytes, 1);
        let token = read_u16(bytes, 5);
        let amount = read_be(bytes, 7, 16);
        let to = read_20(bytes, 23);
        Ok(DepositOp {
            priority_op: Deposit { from: Address::zero(), token: TokenId(token), amount, to: Address(to) },
            account_id: AccountId(account_id),
        })
    }

    /// Public data of a deposit has the kind's length and decodes to the same fields.
    pub proof fn lemma_codec(&self)
        ensures
            self.pubdata().len() == Self::CHUNKS * CHUNK_BYTES,
            self.pubdata()[0] == Self::OP_CODE,
            self.carries(self.pubdata()),
    {
        let s = self.pubdata();
        lemma_pow256_values();
        lemma_be_round_trip(self.account_id.0 as nat, 4);
        lemma_be_round_trip(self.priority_op.token.0 as nat, 2);
        lemma_be_round_trip(self.priority_op.amount as nat, 16);
        assert(s.subrange(1, 5) =~= be_bytes(self.account_id.0 as nat, 4));
        assert(s.subrange(5, 7) =~= be_bytes(self.priority_op.token.0 as nat, 2));
        assert(s.subrange(7, 23) =~= be_bytes(self.priority_op.amount as nat, 16));
        assert(s.subrange(23, 43) =~= self.priority_op.to@);
    }
}

/// Transfer between existing accounts.
#[derive(Clone, Copy, Debug)]
pub struct TransferOp {
    pub tx: Transfer,
    pub from: AccountId,
    pub to: AccountId,
}

impl TransferOp {
    pub const CHUNKS: usize = 2;
    pub const OP_CODE: u8 = 0x05;

    pub open spec fn pubdata(&self) -> Seq<u8> {
        padded(
            seq![Self::OP_CODE] + be_bytes(self.from.0 as nat, 4) + be_bytes(self.tx.token.0 as nat, 2)
                + be_bytes(self.to.0 as nat, 4) + amount_packed(self.tx.amount as nat) + fee_packed(
                self.tx.fee as nat,
            ),
            18,
        )
    }

    /// `s` carries this operation's public fields.
    pub open spec fn carries(&self, s: Seq<u8>) -> bool {
        &&& self.from.0 as nat == be_value(s.subrange(1, 5))
        &&& self.tx.token.0 as nat == be_value(s.subrange(5, 7))
        &&& self.to.0 as nat == be_value(s.subrange(7, 11))
        &&& unpacked(s.subrange(11, 16)) == Some(self.tx.amount)
        &&& unpacked(s.subrange(16, 18)) == Some(self.tx.fee)
    }

    /// The fields that public data does not carry, as decoding sets them.
    pub open spec fn defaulted(&self) -> bool {
        &&& self.tx.account_id == self.from
        &&& self.tx.from@ == zero_address()
        &&& self.tx.to@ == zero_address()
        &&& self.tx.nonce.0 == 0
        &&& self.tx.time_range is None
    }

    pub fn get_public_data(&self) -> (r: Vec<u8>)
        ensures
            r@ == self.pubdata(),
            r@.len() == Self::CHUNKS * CHUNK_BYTES,
    {
        let mut data: Vec<u8> = Vec::new();
        data.push(Self::OP_CODE);
        push_be(&mut data, self.from.0 as u128, 4);
        push_be(&mut data, self.tx.token.0 as u128, 2);
        push_be(&mut data, self.to.0 as u128, 4);
        let amount = pack_token_amount(self.tx.amount);
        push_all(&mut data, amount.as_slice());
        let fee = pack_fee_amount(self.tx.fee);
        push_all(&mut data, fee.as_slice());
        proof {
            lemma_be_len(self.from.0 as nat, 4);
            lemma_be_len(self.tx.token.0 as nat, 2);
            lemma_be_len(self.to.0 as nat, 4);
            lemma_packed_len(self.tx.amount as nat);
            lemma_packed_len(self.tx.fee as nat);
        }
        pad_to(&mut data, Self::CHUNKS * CHUNK_BYTES);
        assert(data@ =~= self.pubdata());
        data
    }

    pub fn from_public_data(bytes: &[u8]) -> (r: Result<TransferOp, CodecError>)
        ensures
            bytes@.len() != Self::CHUNKS * CHUNK_BYTES ==> r == Err::<TransferOp, CodecError>(
                CodecError::WrongLength,
            ),
            r is Ok <==> (bytes@.len() == 18 && unpacked(bytes@.subrange(11, 16)) is Some
                && unpacked(bytes@.subrange(16, 18)) is Some),
            r is Ok ==> r->Ok_0.carries(bytes@) && r->Ok_0.defaulted(),
    {
        if bytes.len() != Self::CHUNKS * CHUNK_BYTES {
            return Err(CodecError::WrongLength);
        }
        let from = read_u32(bytes, 1);
        let token = read_u16(bytes, 5);
        let to = read_u32(bytes, 7);
        let amount = match read_packed_amount(bytes, 11) {
            Some(a) => a,
            None => return Err(CodecError::BadAmount),
        };
        let fee = match read_packed_fee(bytes, 16) {
            Some(f) => f,
            None => return Err(CodecError::BadAmount),
        };
        let zero = Address::zero();
        Ok(TransferOp {
            tx: Transfer {
                account_id: AccountId(from),
                from: zero,
                to: zero,
                token: TokenId(token),
                amount,
                fee,
                nonce: Nonce(0),
                time_range: None,
            },
            from: AccountId(from),
            to: AccountId(to),
        })
    }

    /// The public data of a transfer with packable amount and fee has the
    /// kind's length and decodes to the same public fields.
    pub proof fn lemma_codec(&self)
        requires
            amount_packable(self.tx.amount as nat),
            fee_packable(self.tx.fee as nat),
        ensures
            self.pubdata().len() == Self::CHUNKS * CHUNK_BYTES,
            self.pubdata()[0] == Self::OP_CODE,
            self.carries(self.pubdata()),
    {
        let s = self.pubdata();
        lemma_pow256_values();
        lemma_be_round_trip(self.from.0 as nat, 4);
        lemma_be_round_trip(self.tx.token.0 as nat, 2);
        lemma_be_round_trip(self.to.0 as nat, 4);
        lemma_amount_round_trip(self.tx.amount);
        lemma_fee_round_trip(self.tx.fee);
        lemma_packed_len(self.tx.amount as nat);
        lemma_packed_len(self.tx.fee as nat);
        assert(s.subrange(1, 5) =~= be_bytes(self.from.0 as nat, 4));
        assert(s.subrange(5, 7) =~= be_bytes(self.tx.token.0 as nat, 2));
        assert(s.subrange(7, 11) =~= be_bytes(self.to.0 as nat, 4));
        assert(s.subrange(11, 16) =~= amount_packed(self.tx.amount as nat));
        assert(s.subrange(16, 18) =~= fee_packed(self.tx.fee as nat));
    }
}

/// Transfer whose recipient account is created by it.
#[derive(Clone, Copy, Debug)]
pub struct TransferToNewOp {
    pub tx: Transfer,
    pub from: AccountId,
    pub to: AccountId,
}

impl TransferToNewOp {
    pub const CHUNKS: usize = 6;
    pub const OP_CODE: u8 = 0x02;

    pub open spec fn pubdata(&self) -> Seq<u8> {
        padded(
            seq![Self::OP_CODE] + be_bytes(self.from.0 as nat, 4) + be_bytes(self.tx.token.0 as nat, 2)
                + amount_packed(self.tx.amount as nat) + self.tx.to@ + be_bytes(self.to.0 as nat, 4)
                + fee_packed(self.tx.fee as nat),
            54,
        )
    }

    pub open spec fn carries(&self, s: Seq<u8>) -> bool {
        &&& self.from.0 as nat == be_value(s.subrange(1, 5))
        &&& self.tx.token.0 as nat == be_value(s.subrange(5, 7))
        &&& unpacked(s.subrange(7, 12)) == Some(self.tx.amount)
        &&& self.tx.to@ == s.subrange(12, 32)
        &&& self.to.0 as nat == be_value(s.subrange(32, 36))
        &&& unpacked(s.subrange(36, 38)) == Some(self.tx.fee)
    }

    pub open spec fn defaulted(&self) -> bool {
        &&& self.tx.account_id == self.from
        &&& self.tx.from@ == zero_address()
        &&& self.tx.nonce.0 == 0
        &&& self.tx.time_range is None
    }

    pub fn get_public_data(&self) -> (r: Vec<u8>)
        ensures
            r@ == self.pubdata(),
            r@.len() == Self::CHUNKS * CHUNK_BYTES,
    {
        let mut data: Vec<u8> = Vec::new();
        data.push(Self::OP_CODE);
        push_be(&mut data, self.from.0 as u128, 4);
        push_be(&mut data, self.tx.token.0 as u128, 2);
        let amount = pack_token_amount(self.tx.amount);
        push_all(&mut data, amount.as_slice());
        push_all(&mut data, &self.tx.to.0);
        push_be(&mut data, self.to.0 as u128, 4);
        let fee = pack_fee_amount(self.tx.fee);
        push_all(&mut data, fee.as_slice());
        proof {
            lemma_be_len(self.from.0 as nat, 4);
            lemma_be_len(self.tx.token.0 as nat, 2);
            lemma_be_len(self.to.0 as nat, 4);
            lemma_packed_len(self.tx.amount as nat);
            lemma_packed_len(self.tx.fee as nat);
        }
        pad_to(&mut data, Self::CHUNKS * CHUNK_BYTES);
        assert(data@ =~= self.pubdata());
        data
    }

    pub fn from_public_data(bytes: &[u8]) -> (r: Result<TransferToNewOp, CodecError>)
        ensures
            bytes@.len() != Self::CHUNKS * CHUNK_BYTES ==> r == Err::<TransferToNewOp, CodecError>(
                CodecError::WrongLength,
            ),
            r is Ok <==> (bytes@.len() == 54 && unpacked(bytes@.subrange(7, 12)) is Some
                && unpacked(bytes@.subrange(36, 38)) is Some),
            r is Ok ==> r->Ok_0.carries(bytes@) && r->Ok_0.defaulted(),
    {
        if bytes.len() != Self::CHUNKS * CHUNK_BYTES {
            return Err(CodecError::WrongLength);
        }
        let from = read_u32(bytes, 1);
        let token = read_u16(bytes, 5);
        let amount = match read_packed_amount(bytes, 7) {
            Some(a) => a,
            None => return Err(CodecError::BadAmount),
        };
        let to_address = read_20(bytes, 12);
        let to = read_u32(bytes, 32);
        let fee = match read_packed_fee(bytes, 36) {
            Some(f) => f,
            None => return Err(CodecError::BadAmount),
        };
        Ok(TransferToNewOp {
            tx: Transfer {
                account_id: AccountId(from),
                from: Address::zero(),
                to: Address(to_address),
                token: TokenId(token),
                amount,
                fee,
                nonce: Nonce(0),
                time_range: None,
            },
            from: AccountId(from),
            to: AccountId(to),
        })
    }

    /// Public data of a transfer to a new account with packable amount and
    /// fee has the kind's length and decodes to the same public fields.
    pub proof fn lemma_codec(&self)
        requires
            amount_packable(self.tx.amount as nat),
            fee_packable(self.tx.fee as nat),
        ensures
            self.pubdata().len() == Self::CHUNKS * CHUNK_BYTES,
            self.pubdata()[0] == Self::OP_CODE,
            self.carries(self.pubdata()),
    {
        let s = self.pubdata();
        lemma_pow256_values();
        lemma_be_round_trip(self.from.0 as nat, 4);
        lemma_be_round_trip(self.tx.token.0 as nat, 2);
        lemma_be_round_trip(self.to.0 as nat, 4);
        lemma_amount_round_trip(self.tx.amount);
        lemma_fee_round_trip(self.tx.fee);
        lemma_packed_len(self.tx.amount as nat);
        lemma_packed_len(self.tx.fee as nat);
        assert(s.subrange(1, 5) =~= be_bytes(self.from.0 as nat, 4));
        assert(s.subrange(5, 7) =~= be_bytes(self.tx.token.0 as nat, 2));
        assert(s.subrange(7, 12) =~= amount_packed(self.tx.amount as nat));
        assert(s.subrange(12, 32) =~= self.tx.to@);
        assert(s.subrange(32, 36) =~= be_bytes(self.to.0 as nat, 4));
        assert(s.subrange(36, 38) =~= fee_packed(self.tx.fee as nat));
    }
}

/// Withdrawal from account `account_id`.
#[derive(Clone, Copy, Debug)]
pub struct WithdrawOp {
    pub tx: Withdraw,
    pub account_id: AccountId,
}

impl WithdrawOp {
    pub const CHUNKS: usize = 6;
    pub const OP_CODE: u8 = 0x03;
    /// First byte of the payout record: the payout goes to the pending queue.
    pub const WITHDRAW_DATA_PREFIX: u8 = 1;

    pub open spec fn pubdata(&self) -> Seq<u8> {
        padded(
            seq![Self::OP_CODE] + be_bytes(self.account_id.0 as nat, 4) + be_bytes(
                self.tx.token.0 as nat,
                2,
            ) + be_bytes(self.tx.amount as nat, 16) + fee_packed(self.tx.fee as nat) + self.tx.to@,
            54,
        )
    }

    pub open spec fn carries(&self, s: Seq<u8>) -> bool {
        &&& self.account_id.0 as nat == be_value(s.subrange(1, 5))
        &&& self.tx.token.0 as nat == be_value(s.subrange(5, 7))
        &&& self.tx.amount as nat == be_value(s.subrange(7, 23))
        &&& unpacked(s.subrange(23, 25)) == Some(self.tx.fee)
        &&& self.tx.to@ == s.subrange(25, 45)
    }

    pub open spec fn defaulted(&self) -> bool {
        &&& self.tx.account_id == self.account_id
        &&& self.tx.from@ == zero_address()
        &&& self.tx.nonce.0 == 0
        &&& !self.tx.fast
        &&& self.tx.time_range is None
    }

    pub open spec fn withdrawal(&self) -> Seq<u8> {
        seq![Self::WITHDRAW_DATA_PREFIX] + self.tx.to@ + be_bytes(self.tx.token.0 as nat, 2)
            + be_bytes(self.tx.amount as nat, 16)
    }

    pub fn get_public_data(&self) -> (r: Vec<u8>)
        ensures
            r@ == self.pubdata(),
            r@.len() == Self::CHUNKS * CHUNK_BYTES,
    {
        let mut data: Vec<u8> = Vec::new();
        data.push(Self::OP_CODE);
        push_be(&mut data, self.account_id.0 as u128, 4);
        push_be(&mut data, self.tx.token.0 as u128, 2);
        push_be(&mut data, self.tx.amount, 16);
        let fee = pack_fee_amount(self.tx.fee);
        push_all(&mut data, fee.as_slice());
        push_all(&mut data, &self.tx.to.0);
        proof {
            lemma_be_len(self.account_id.0 as nat, 4);
            lemma_be_len(self.tx.token.0 as nat, 2);
            lemma_be_len(self.tx.amount as nat, 16);
            lemma_packed_len(self.tx.fee as nat);
        }
        pad_to(&mut data, Self::CHUNKS * CHUNK_BYTES);
        assert(data@ =~= self.pubdata());
        data
    }

    /// Payout record: `[prefix][address:20][token:2][amount:16]`.
    pub fn get_withdrawal_data(&self) -> (r: Vec<u8>)
        ensures
            r@ == self.withdrawal(),
            r@.len() == 39,
    {
        let mut data: Vec<u8> = Vec::new();
        data.push(Self::WITHDRAW_DATA_PREFIX);
        push_all(&mut data, &self.tx.to.0);
        push_be(&mut data, self.tx.token.0 as u128, 2);
        push_be(&mut data, self.tx.amount, 16);
        proof {
            lemma_be_len(self.tx.token.0 as nat, 2);
            lemma_be_len(self.tx.amount as nat, 16);
        }
        assert(data@ =~= self.withdrawal());
        data
    }

    /// Account ids this operation changes.
    pub fn get_updated_account_ids(&self) -> (r: Vec<AccountId>)
        ensures
            r@ == seq![self.account_id],
    {
        let mut r: Vec<AccountId> = Vec::new();
        r.push(self.account_id);
        assert(r@ =~= seq![self.account_id]);
        r
    }

    pub fn from_public_data(bytes: &[u8]) -> (r: Result<WithdrawOp, CodecError>)
        ensures
            bytes@.len() != Self::CHUNKS * CHUNK_BYTES ==> r == Err::<WithdrawOp, CodecError>(
                CodecError::WrongLength,
            ),
            r is Ok <==> (bytes@.len() == 54 && unpacked(bytes@.subrange(23, 25)) is Some),
            r is Ok ==> r->Ok_0.carries(bytes@) && r->Ok_0.defaulted(),
    {
        if bytes.len() != Self::CHUNKS * CHUNK_BYTES {
            return Err(CodecError::WrongLength);
        }
        let account_id = read_u32(bytes, 1);
        let token = read_u16(bytes, 5);
        let amount = read_be(bytes, 7, 16);
        let fee = match read_packed_fee(bytes, 23) {
            Some(f) => f,
            None => return Err(CodecError::BadAmount),
        };
        let to = read_20(bytes, 25);
        Ok(WithdrawOp {
            tx: Withdraw {
                account_id: AccountId(account_id),
                from: Address::zero(),
                to: Address(to),
                token: TokenId(token),
                amount,
                fee,
                nonce: Nonce(0),
                fast: false,
                time_range: None,
            },
            account_id: AccountId(account_id),
        })
    }

    /// Public data of a withdrawal with a packable fee has the kind's length
    /// and decodes to the same public fields.
    pub proof fn lemma_codec(&self)
        requires
            fee_packable(self.tx.fee as nat),
        ensures
            self.pubdata().len() == Self::CHUNKS * CHUNK_BYTES,
            self.pubdata()[0] == Self::OP_CODE,
            self.carries(self.pubdata()),
    {
        let s = self.pubdata();
        lemma_pow256_values();
        lemma_be_round_trip(self.account_id.0 as nat, 4);
        lemma_be_round_trip(self.tx.token.0 as nat, 2);
        lemma_be_round_trip(self.tx.amount as nat, 16);
        lemma_fee_round_trip(self.tx.fee);
        lemma_packed_len(self.tx.fee as nat);
        assert(s.subrange(1, 5) =~= be_bytes(self.account_id.0 as nat, 4));
        assert(s.subrange(5, 7) =~= be_bytes(self.tx.token.0 as nat, 2));
        assert(s.subrange(7, 23) =~= be_bytes(self.tx.amount as nat, 16));
        assert(s.subrange(23, 25) =~= fee_packed(self.tx.fee as nat));
        assert(s.subrange(25, 45) =~= self.tx.to@);
    }
}

/// Removal of an empty account. New ones cannot be made; historical ones replay.
#[derive(Clone, Copy, Debug)]
pub struct CloseOp {
    pub tx: Close,
    pub account_id: AccountId,
}

impl CloseOp {
    pub const CHUNKS: usize = 1;
    pub const OP_CODE: u8 = 0x04;

    pub open spec fn pubdata(&self) -> Seq<u8> {
        padded(seq![Self::OP_CODE] + be_bytes(self.account_id.0 as nat, 4), 9)
    }

    pub open spec fn carries(&self, s: Seq<u8>) -> bool {
        self.account_id.0 as nat == be_value(s.subrange(1, 5))
    }

    pub open spec fn defaulted(&self) -> bool {
        &&& self.tx.account@ == zero_address()
        &&& self.tx.nonce.0 == 0
        &&& self.tx.time_range is None
    }

    pub fn get_public_data(&self) -> (r: Vec<u8>)
        ensures
            r@ == self.pubdata(),
            r@.len() == Self::CHUNKS * CHUNK_BYTES,
    {
        let mut data: Vec<u8> = Vec::new();
        data.push(Self::OP_CODE);
        push_be(&mut data, self.account_id.0 as u128, 4);
        proof {
            lemma_be_len(self.account_id.0 as nat, 4);
        }
        pad_to(&mut data, Self::CHUNKS * CHUNK_BYTES);
        assert(data@ =~= self.pubdata());
        data
    }

    pub fn from_public_data(bytes: &[u8]) -> (r: Result<CloseOp, CodecError>)
        ensures
            bytes@.len() != Self::CHUNKS * CHUNK_BYTES ==> r == Err::<CloseOp, CodecError>(
                CodecError::WrongLength,
            ),
            r is Ok <==> bytes@.len() == 9,
            r is Ok ==> r->Ok_0.carries(bytes@) && r->Ok_0.defaulted(),
    {
        if bytes.len() != Self::CHUNKS * CHUNK_BYTES {
            return Err(CodecError::WrongLength);
        }
        let account_id = read_u32(bytes, 1);
        Ok(CloseOp {
            tx: Close { account: Address::zero(), nonce: Nonce(0), time_range: None },
            account_id: AccountId(account_id),
        })
    }

    /// Public data of a close has the kind's length and decodes to the same account id.
    pub proof fn lemma_codec(&self)
        ensures
            self.pubdata().len() == Self::CHUNKS * CHUNK_BYTES,
            self.pubdata()[0] == Self::OP_CODE,
            self.carries(self.pubdata()),
    {
        let s = self.pubdata();
        lemma_pow256_values();
        lemma_be_round_trip(self.account_id.0 as nat, 4);
        assert(s.subrange(1, 5) =~= be_bytes(self.account_id.0 as nat, 4));
    }

    /// Account ids this operation changes.
    pub fn get_updated_account_ids(&self) -> (r: Vec<AccountId>)
        ensures
            r@ == seq![self.account_id],
    {
        let mut r: Vec<AccountId> = Vec::new();
        r.push(self.account_id);
        assert(r@ =~= seq![self.account_id]);
        r
    }
}

/// Amount withdrawn by a full exit or forced exit: zero when it did not happen.
pub open spec fn amount_or_zero(a: Option<u128>) -> u128 {
    match a {
        Some(v) => v,
        None => 0,
    }
}

/// Full exit; `withdraw_amount` is `None` when the account did not qualify.
#[derive(Clone, Copy, Debug)]
pub struct FullExitOp {
    pub priority_op: FullExit,
    pub withdraw_amount: Option<u128>,
}

impl FullExitOp {
    pub const CHUNKS: usize = 6;
    pub const OP_CODE: u8 = 0x06;
    /// First byte of the payout record: paid out directly.
    pub const WITHDRAW_DATA_PREFIX: u8 = 0;

    pub open spec fn pubdata(&self) -> Seq<u8> {
        padded(
            seq![Self::OP_CODE] + be_bytes(self.priority_op.account_id.0 as nat, 4)
                + self.priority_op.atp_address@ + be_bytes(self.priority_op.token.0 as nat, 2)
                + be_bytes(amount_or_zero(self.withdraw_amount) as nat, 16),
            54,
        )
    }

    pub open spec fn carries(&self, s: Seq<u8>) -> bool {
        &&& self.priority_op.account_id.0 as nat == be_value(s.subrange(1, 5))
        &&& self.priority_op.atp_address@ == s.subrange(5, 25)
        &&& self.priority_op.token.0 as nat == be_value(s.subrange(25, 27))
        &&& amount_or_zero(self.withdraw_amount) as nat == be_value(s.subrange(27, 43))
    }

    pub open spec fn withdrawal(&self) -> Seq<u8> {
        seq![Self::WITHDRAW_DATA_PREFIX] + self.priority_op.atp_address@ + be_bytes(
            self.priority_op.token.0 as nat,
            2,
        ) + be_bytes(amount_or_zero(self.withdraw_amount) as nat, 16)
    }

    fn amount(&self) -> (r: u128)
        ensures
            r == amount_or_zero(self.withdraw_amount),
    {
        match self.withdraw_amount {
            Some(a) => a,
            None => 0,
        }
    }

    pub fn get_public_data(&self) -> (r: Vec<u8>)
        ensures
            r@ == self.pubdata(),
            r@.len() == Self::CHUNKS * CHUNK_BYTES,
    {
        let mut data: Vec<u8> = Vec::new();
        data.push(Self::OP_CODE);
        push_be(&mut data, self.priority_op.account_id.0 as u128, 4);
        push_all(&mut data, &self.priority_op.atp_address.0);
        push_be(&mut data, self.priority_op.token.0 as u128, 2);
        push_be(&mut data, self.amount(), 16);
        proof {
            lemma_be_len(self.priority_op.account_id.0 as nat, 4);
            lemma_be_len(self.priority_op.token.0 as nat, 2);
            lemma_be_len(amount_or_zero(self.withdraw_amount) as nat, 16);
        }
        pad_to(&mut data, Self::CHUNKS * CHUNK_BYTES);
        assert(data@ =~= self.pubdata());
        data
    }

    /// Payout record: `[prefix][address:20][token:2][amount:16]`.
    pub fn get_withdrawal_data(&self) -> (r: Vec<u8>)
        ensures
            r@ == self.withdrawal(),
            r@.len() == 39,
    {
        let mut data: Vec<u8> = Vec::new();
        data.push(Self::WITHDRAW_DATA_PREFIX);
        push_all(&mut data, &self.priority_op.atp_address.0);
        push_be(&mut data, self.priority_op.token.0 as u128, 2);
        push_be(&mut data, self.amount(), 16);
        proof {
            lemma_be_len(self.priority_op.token.0 as nat, 2);
            lemma_be_len(amount_or_zero(self.withdraw_amount) as nat, 16);
        }
        assert(data@ =~= self.withdrawal());
        data
    }

    /// Account ids this operation changes.
    pub fn get_updated_account_ids(&self) -> (r: Vec<AccountId>)
        ensures
            r@ == seq![self.priority_op.account_id],
    {
        let mut r: Vec<AccountId> = Vec::new();
        r.push(self.priority_op.account_id);
        assert(r@ =~= seq![self.priority_op.account_id]);
        r
    }

    pub fn from_public_data(bytes: &[u8]) -> (r: Result<FullExitOp, CodecError>)
        ensures
            bytes@.len() != Self::CHUNKS * CHUNK_BYTES ==> r == Err::<FullExitOp, CodecError>(
                CodecError::WrongLength,
            ),
            r is Ok <==> bytes@.len() == 54,
            r is Ok ==> r->Ok_0.carries(bytes@) && r->Ok_0.withdraw_amount is Some,
    {
        if bytes.len() != Self::CHUNKS * CHUNK_BYTES {
            return Err(CodecError::WrongLength);
        }
        let account_id = read_u32(bytes, 1);
        let atp_address = read_20(bytes, 5);
        let token = read_u16(bytes, 25);
        let amount = read_be(bytes, 27, 16);
        Ok(FullExitOp {
            priority_op: FullExit {
                account_id: AccountId(account_id),
                atp_address: Address(atp_address),
                token: TokenId(token),
            },
            withdraw_amount: Some(amount),
        })
    }

    /// Public data of a full exit has the kind's length and decodes to the same fields.
    pub proof fn lemma_codec(&self)
        ensures
            self.pubdata().len() == Self::CHUNKS * CHUNK_BYTES,
            self.pubdata()[0] == Self::OP_CODE,
            self.carries(self.pubdata()),
    {
        let s = self.pubdata();
        let amount = amount_or_zero(self.withdraw_amount) as nat;
        lemma_pow256_values();
        lemma_be_round_trip(self.priority_op.account_id.0 as nat, 4);
        lemma_be_round_trip(self.priority_op.token.0 as nat, 2);
        lemma_be_round_trip(amount, 16);
        assert(s.subrange(1, 5) =~= be_bytes(self.priority_op.account_id.0 as nat, 4));
        assert(s.subrange(5, 25) =~= self.priority_op.atp_address@);
        assert(s.subrange(25, 27) =~= be_bytes(self.priority_op.token.0 as nat, 2));
        assert(s.subrange(27, 43) =~= be_bytes(amount, 16));
    }
}

/// Change of an account's signing key.
#[derive(Clone, Copy, Debug)]
pub struct ChangePubKeyOp {
    pub tx: ChangePubKey,
    pub account_id: AccountId,
}

impl ChangePubKeyOp {
    pub const CHUNKS: usize = 6;
    pub const OP_CODE: u8 = 0x07;

    pub open spec fn pubdata(&self) -> Seq<u8> {
        padded(
            seq![Self::OP_CODE] + be_bytes(self.account_id.0 as nat, 4) + self.tx.new_pk_hash.0@
                + self.tx.account@ + be_bytes(self.tx.nonce.0 as nat, 4) + be_bytes(
                self.tx.fee_token.0 as nat,
                2,
            ) + fee_packed(self.tx.fee as nat),
            54,
        )
    }

    pub open spec fn carries(&self, s: Seq<u8>) -> bool {
        &&& self.account_id.0 as nat == be_value(s.subrange(1, 5))
        &&& self.tx.new_pk_hash.0@ == s.subrange(5, 25)
        &&& self.tx.account@ == s.subrange(25, 45)
        &&& self.tx.nonce.0 as nat == be_value(s.subrange(45, 49))
        &&& self.tx.fee_token.0 as nat == be_value(s.subrange(49, 51))
        &&& unpacked(s.subrange(51, 53)) == Some(self.tx.fee)
    }

    pub open spec fn defaulted(&self) -> bool {
        &&& self.tx.account_id == self.account_id
        &&& self.tx.auth == ChangePubKeyAuth::Onchain
        &&& self.tx.time_range is None
    }

    pub fn get_public_data(&self) -> (r: Vec<u8>)
        ensures
            r@ == self.pubdata(),
            r@.len() == Self::CHUNKS * CHUNK_BYTES,
    {
        let mut data: Vec<u8> = Vec::new();
        data.push(Self::OP_CODE);
        push_be(&mut data, self.account_id.0 as u128, 4);
        push_all(&mut data, &self.tx.new_pk_hash.0);
        push_all(&mut data, &self.tx.account.0);
        push_be(&mut data, self.tx.nonce.0 as u128, 4);
        push_be(&mut data, self.tx.fee_token.0 as u128, 2);
        let fee = pack_fee_amount(self.tx.fee);
        push_all(&mut data, fee.as_slice());
        proof {
            lemma_be_len(self.account_id.0 as nat, 4);
            lemma_be_len(self.tx.nonce.0 as nat, 4);
            lemma_be_len(self.tx.fee_token.0 as nat, 2);
            lemma_packed_len(self.tx.fee as nat);
        }
        pad_to(&mut data, Self::CHUNKS * CHUNK_BYTES);
        assert(data@ =~= self.pubdata());
        data
    }

    /// Account ids this operation changes.
    pub fn get_updated_account_ids(&self) -> (r: Vec<AccountId>)
        ensures
            r@ == seq![self.account_id],
    {
        let mut r: Vec<AccountId> = Vec::new();
        r.push(self.account_id);
        assert(r@ =~= seq![self.account_id]);
        r
    }

    pub fn from_public_data(bytes: &[u8]) -> (r: Result<ChangePubKeyOp, CodecError>)
        ensures
            bytes@.len() != Self::CHUNKS * CHUNK_BYTES ==> r == Err::<ChangePubKeyOp, CodecError>(
                CodecError::WrongLength,
            ),
            r is Ok <==> (bytes@.len() == 54 && unpacked(bytes@.subrange(51, 53)) is Some),
            r is Ok ==> r->Ok_0.carries(bytes@) && r->Ok_0.defaulted(),
    {
        if bytes.len() != Self::CHUNKS * CHUNK_BYTES {
            return Err(CodecError::WrongLength);
        }
        let account_id = read_u32(bytes, 1);
        let new_pk_hash = read_20(bytes, 5);
        let account = read_20(bytes, 25);
        let nonce = read_u32(bytes, 45);
        let fee_token = read_u16(bytes, 49);
        let fee = match read_packed_fee(bytes, 51) {
            Some(f) => f,
            None => return Err(CodecError::BadAmount),
        };
        Ok(ChangePubKeyOp {
            tx: ChangePubKey {
                account_id: AccountId(account_id),
                account: Address(account),
                new_pk_hash: crate::basic::PubKeyHash(new_pk_hash),
                fee_token: TokenId(fee_token),
                fee,
                nonce: Nonce(nonce),
                auth: ChangePubKeyAuth::Onchain,
                time_range: None,
            },
            account_id: AccountId(account_id),
        })
    }

    /// Public data of a key change with a packable fee has the kind's length
    /// and decodes to the same public fields.
    pub proof fn lemma_codec(&self)
        requires
            fee_packable(self.tx.fee as nat),
        ensures
            self.pubdata().len() == Self::CHUNKS * CHUNK_BYTES,
            self.pubdata()[0] == Self::OP_CODE,
            self.carries(self.pubdata()),
    {
        let s = self.pubdata();
        lemma_pow256_values();
        lemma_be_round_trip(self.account_id.0 as nat, 4);
        lemma_be_round_trip(self.tx.nonce.0 as nat, 4);
        lemma_be_round_trip(self.tx.fee_token.0 as nat, 2);
        lemma_fee_round_trip(self.tx.fee);
        lemma_packed_len(self.tx.fee as nat);
        assert(s.subrange(1, 5) =~= be_bytes(self.account_id.0 as nat, 4));
        assert(s.subrange(5, 25) =~= self.tx.new_pk_hash.0@);
        assert(s.subrange(25, 45) =~= self.tx.account@);
        assert(s.subrange(45, 49) =~= be_bytes(self.tx.nonce.0 as nat, 4));
        assert(s.subrange(49, 51) =~= be_bytes(self.tx.fee_token.0 as nat, 2));
        assert(s.subrange(51, 53) =~= fee_packed(self.tx.fee as nat));
    }
}

/// Forced exit of `target_account_id`, paid by the initiator.
#[derive(Clone, Copy, Debug)]
pub struct ForcedExitOp {
    pub tx: ForcedExit,
    pub target_account_id: AccountId,
    pub withdraw_amount: Option<u128>,
}

impl ForcedExitOp {
    pub const CHUNKS: usize = 6;
    pub const OP_CODE: u8 = 0x08;
    /// First byte of the payout record: the payout goes to the pending queue.
    pub const WITHDRAW_DATA_PREFIX: u8 = 1;

    pub open spec fn pubdata(&self) -> Seq<u8> {
        padded(
            seq![Self::OP_CODE] + be_bytes(self.tx.initiator_account_id.0 as nat, 4) + be_bytes(
                self.target_account_id.0 as nat,
                4,
            ) + be_bytes(self.tx.token.0 as nat, 2) + be_bytes(
                amount_or_zero(self.withdraw_amount) as nat,
                16,
            ) + fee_packed(self.tx.fee as nat) + self.tx.target@,
            54,
        )
    }

    pub open spec fn carries(&self, s: Seq<u8>) -> bool {
        &&& self.tx.initiator_account_id.0 as nat == be_value(s.subrange(1, 5))
        &&& self.target_account_id.0 as nat == be_value(s.subrange(5, 9))
        &&& self.tx.token.0 as nat == be_value(s.subrange(9, 11))
        &&& amount_or_zero(self.withdraw_amount) as nat == be_value(s.subrange(11, 27))
        &&& unpacked(s.subrange(27, 29)) == Some(self.tx.fee)
        &&& self.tx.target@ == s.subrange(29, 49)
    }

    pub open spec fn defaulted(&self) -> bool {
        &&& self.tx.nonce.0 == 0
        &&& self.tx.time_range is None
        &&& self.withdraw_amount is Some
    }

    pub open spec fn withdrawal(&self) -> Seq<u8> {
        seq![Self::WITHDRAW_DATA_PREFIX] + self.tx.target@ + be_bytes(self.tx.token.0 as nat, 2)
            + be_bytes(amount_or_zero(self.withdraw_amount) as nat, 16)
    }

    fn amount(&self) -> (r: u128)
        ensures
            r == amount_or_zero(self.withdraw_amount),
    {
        match self.withdraw_amount {
            Some(a) => a,
            None => 0,
        }
    }

    pub fn get_public_data(&self) -> (r: Vec<u8>)
        ensures
            r@ == self.pubdata(),
            r@.len() == Self::CHUNKS * CHUNK_BYTES,
    {
        let mut data: Vec<u8> = Vec::new();
        data.push(Self::OP_CODE);
        push_be(&mut data, self.tx.initiator_account_id.0 as u128, 4);
        push_be(&mut data, self.target_account_id.0 as u128, 4);
        push_be(&mut data, self.tx.token.0 as u128, 2);
        push_be(&mut data, self.amount(), 16);
        let fee = pack_fee_amount(self.tx.fee);
        push_all(&mut data, fee.as_slice());
        push_all(&mut data, &self.tx.target.0);
        proof {
            lemma_be_len(self.tx.initiator_account_id.0 as nat, 4);
            lemma_be_len(self.target_account_id.0 as nat, 4);
            lemma_be_len(self.tx.token.0 as nat, 2);
            lemma_be_len(amount_or_zero(self.withdraw_amount) as nat, 16);
            lemma_packed_len(self.tx.fee as nat);
        }
        pad_to(&mut data, Self::CHUNKS * CHUNK_BYTES);
        assert(data@ =~= self.pubdata());
        data
    }

    /// Payout record: `[prefix][address:20][token:2][amount:16]`.
    pub fn get_withdrawal_data(&self) -> (r: Vec<u8>)
        ensures
            r@ == self.withdrawal(),
            r@.len() == 39,
    {
        let mut data: Vec<u8> = Vec::new();
        data.push(Self::WITHDRAW_DATA_PREFIX);
        push_all(&mut data, &self.tx.target.0);
        push_be(&mut data, self.tx.token.0 as u128, 2);
        push_be(&mut data, self.amount(), 16);
        proof {
            lemma_be_len(self.tx.token.0 as nat, 2);
            lemma_be_len(amount_or_zero(self.withdraw_amount) as nat, 16);
        }
        assert(data@ =~= self.withdrawal());
        data
    }

    pub fn from_public_data(bytes: &[u8]) -> (r: Result<ForcedExitOp, CodecError>)
        ensures
            bytes@.len() != Self::CHUNKS * CHUNK_BYTES ==> r == Err::<ForcedExitOp, CodecError>(
                CodecError::WrongLength,
            ),
            r is Ok <==> (bytes@.len() == 54 && unpacked(bytes@.subrange(27, 29)) is Some),
            r is Ok ==> r->Ok_0.carries(bytes@) && r->Ok_0.defaulted(),
    {
        if bytes.len() != Self::CHUNKS * CHUNK_BYTES {
            return Err(CodecError::WrongLength);
        }
        let initiator = read_u32(bytes, 1);
        let target_id = read_u32(bytes, 5);
        let token = read_u16(bytes, 9);
        let amount = read_be(bytes, 11, 16);
        let fee = match read_packed_fee(bytes, 27) {
            Some(f) => f,
            None => return Err(CodecError::BadAmount),
        };
        let target = read_20(bytes, 29);
        Ok(ForcedExitOp {
            tx: ForcedExit {
                initiator_account_id: AccountId(initiator),
                target: Address(target),
                token: TokenId(token),
                fee,
                nonce: Nonce(0),
                time_range: None,
            },
            target_account_id: AccountId(target_id),
            withdraw_amount: Some(amount),
        })
    }

    /// Public data of a forced exit with a packable fee has the kind's length
    /// and decodes to the same public fields.
    pub proof fn lemma_codec(&self)
        requires
            fee_packable(self.tx.fee as nat),
        ensures
            self.pubdata().len() == Self::CHUNKS * CHUNK_BYTES,
            self.pubdata()[0] == Self::OP_CODE,
            self.carries(self.pubdata()),
    {
        let s = self.pubdata();
        let amount = amount_or_zero(self.withdraw_amount) as nat;
        lemma_pow256_values();
        lemma_be_round_trip(self.tx.initiator_account_id.0 as nat, 4);
        lemma_be_round_trip(self.target_account_id.0 as nat, 4);
        lemma_be_round_trip(self.tx.token.0 as nat, 2);
        lemma_be_round_trip(amount, 16);
        lemma_fee_round_trip(self.tx.fee);
        lemma_packed_len(self.tx.fee as nat);
        assert(s.subrange(1, 5) =~= be_bytes(self.tx.initiator_account_id.0 as nat, 4));
        assert(s.subrange(5, 9) =~= be_bytes(self.target_account_id.0 as nat, 4));
        assert(s.subrange(9, 11) =~= be_bytes(self.tx.token.0 as nat, 2));
        assert(s.subrange(11, 27) =~= be_bytes(amount, 16));
        assert(s.subrange(27, 29) =~= fee_packed(self.tx.fee as nat));
        assert(s.subrange(29, 49) =~= self.tx.target@);
    }
}

/// Exchange; `from` and `to` are both the sender's account.
#[derive(Clone, Copy, Debug)]
pub struct ExchangeOp {
    pub tx: Exchange,
    pub from: AccountId,
    pub to: AccountId,
}

impl ExchangeOp {
    /// Two chunks would not hold the 23 bytes of fields; three do.
    pub const CHUNKS: usize = 3;
    pub const OP_CODE: u8 = 0x09;

    pub open spec fn pubdata(&self) -> Seq<u8> {
        padded(
            seq![Self::OP_CODE] + be_bytes(self.from.0 as nat, 4) + be_bytes(self.tx.token_a.0 as nat, 2)
                + be_bytes(self.tx.token_b.0 as nat, 2) + amount_packed(self.tx.amount_a as nat)
                + amount_packed(self.tx.amount_b as nat) + fee_packed(self.tx.price as nat)
                + fee_packed(self.tx.fee as nat),
            27,
        )
    }

    pub open spec fn carries(&self, s: Seq<u8>) -> bool {
        &&& self.from.0 as nat == be_value(s.subrange(1, 5))
        &&& self.tx.token_a.0 as nat == be_value(s.subrange(5, 7))
        &&& self.tx.token_b.0 as nat == be_value(s.subrange(7, 9))
        &&& unpacked(s.subrange(9, 14)) == Some(self.tx.amount_a)
        &&& unpacked(s.subrange(14, 19)) == Some(self.tx.amount_b)
        &&& unpacked(s.subrange(19, 21)) == Some(self.tx.price)
        &&& unpacked(s.subrange(21, 23)) == Some(self.tx.fee)
    }

    pub open spec fn defaulted(&self) -> bool {
        &&& self.to == self.from
        &&& self.tx.account_id == self.from
        &&& self.tx.from@ == zero_address()
        &&& self.tx.nonce.0 == 0
        &&& self.tx.time_range is None
    }

    pub fn get_public_data(&self) -> (r: Vec<u8>)
        ensures
            r@ == self.pubdata(),
            r@.len() == Self::CHUNKS * CHUNK_BYTES,
    {
        let mut data: Vec<u8> = Vec::new();
        data.push(Self::OP_CODE);
        push_be(&mut data, self.from.0 as u128, 4);
        push_be(&mut data, self.tx.token_a.0 as u128, 2);
        push_be(&mut data, self.tx.token_b.0 as u128, 2);
        let amount_a = pack_token_amount(self.tx.amount_a);
        push_all(&mut data, amount_a.as_slice());
        let amount_b = pack_token_amount(self.tx.amount_b);
        push_all(&mut data, amount_b.as_slice());
        let price = pack_fee_amount(self.tx.price);
        push_all(&mut data, price.as_slice());
        let fee = pack_fee_amount(self.tx.fee);
        push_all(&mut data, fee.as_slice());
        proof {
            lemma_be_len(self.from.0 as nat, 4);
            lemma_be_len(self.tx.token_a.0 as nat, 2);
            lemma_be_len(self.tx.token_b.0 as nat, 2);
            lemma_packed_len(self.tx.amount_a as nat);
            lemma_packed_len(self.tx.amount_b as nat);
            lemma_packed_len(self.tx.price as nat);
            lemma_packed_len(self.tx.fee as nat);
        }
        pad_to(&mut data, Self::CHUNKS * CHUNK_BYTES);
        assert(data@ =~= self.pubdata());
        data
    }

    pub fn from_public_data(bytes: &[u8]) -> (r: Result<ExchangeOp, CodecError>)
        ensures
            bytes@.len() != Self::CHUNKS * CHUNK_BYTES ==> r == Err::<ExchangeOp, CodecError>(
                CodecError::WrongLength,
            ),
            r is Ok <==> (bytes@.len() == 27 && unpacked(bytes@.subrange(9, 14)) is Some
                && unpacked(bytes@.subrange(14, 19)) is Some && unpacked(bytes@.subrange(19, 21)) is Some
                && unpacked(bytes@.subrange(21, 23)) is Some),
            r is Ok ==> r->Ok_0.carries(bytes@) && r->Ok_0.defaulted(),
    {
        if bytes.len() != Self::CHUNKS * CHUNK_BYTES {
            return Err(CodecError::WrongLength);
        }
        let from = read_u32(bytes, 1);
        let token_a = read_u16(bytes, 5);
        let token_b = read_u16(bytes, 7);
        let amount_a = match read_packed_amount(bytes, 9) {
            Some(a) => a,
            None => return Err(CodecError::BadAmount),
        };
        let amount_b = match read_packed_amount(bytes, 14) {
            Some(a) => a,
            None => return Err(CodecError::BadAmount),
        };
        let price = match read_packed_fee(bytes, 19) {
            Some(p) => p,
            None => return Err(CodecError::BadAmount),
        };
        let fee = match read_packed_fee(bytes, 21) {
            Some(f) => f,
            None => return Err(CodecError::BadAmount),
        };
        Ok(ExchangeOp {
            tx: Exchange {
                account_id: AccountId(from),
                from: Address::zero(),
                token_a: TokenId(token_a),
                token_b: TokenId(token_b),
                amount_a,
                amount_b,
                price,
                fee,
                nonce: Nonce(0),
                time_range: None,
            },
            from: AccountId(from),
            to: AccountId(from),
        })
    }

    /// Public data of an exchange with packable amounts, price and fee has the
    /// kind's length and decodes to the same public fields.
    pub proof fn lemma_codec(&self)
        requires
            amount_packable(self.tx.amount_a as nat),
            amount_packable(self.tx.amount_b as nat),
            fee_packable(self.tx.price as nat),
            fee_packable(self.tx.fee as nat),
        ensures
            self.pubdata().len() == Self::CHUNKS * CHUNK_BYTES,
            self.pubdata()[0] == Self::OP_CODE,
            self.carries(self.pubdata()),
    {
        let s = self.pubdata();
        lemma_pow256_values();
        lemma_be_round_trip(self.from.0 as nat, 4);
        lemma_be_round_trip(self.tx.token_a.0 as nat, 2);
        lemma_be_round_trip(self.tx.token_b.0 as nat, 2);
        lemma_amount_round_trip(self.tx.amount_a);
        lemma_amount_round_trip(self.tx.amount_b);
        lemma_fee_round_trip(self.tx.price);
        lemma_fee_round_trip(self.tx.fee);
        lemma_packed_len(self.tx.amount_a as nat);
        lemma_packed_len(self.tx.amount_b as nat);
        lemma_packed_len(self.tx.price as nat);
        lemma_packed_len(self.tx.fee as nat);
        assert(s.subrange(1, 5) =~= be_bytes(self.from.0 as nat, 4));
        assert(s.subrange(5, 7) =~= be_bytes(self.tx.token_a.0 as nat, 2));
        assert(s.subrange(7, 9) =~= be_bytes(self.tx.token_b.0 as nat, 2));
        assert(s.subrange(9, 14) =~= amount_packed(self.tx.amount_a as nat));
        assert(s.subrange(14, 19) =~= amount_packed(self.tx.amount_b as nat));
        assert(s.subrange(19, 21) =~= fee_packed(self.tx.price as nat));
        assert(s.subrange(21, 23) =~= fee_packed(self.tx.fee as nat));
    }

    /// Account ids this operation changes.
    pub fn get_updated_account_ids(&self) -> (r: Vec<AccountId>)
        ensures
            r@ == seq![self.from, self.to],
    {
        let mut r: Vec<AccountId> = Vec::new();
        r.push(self.from);
        r.push(self.to);
        assert(r@ =~= seq![self.from, self.to]);
        r
    }
}

/// Adding liquidity; `from` and `to` are both the sender's account.
#[derive(Clone, Copy, Debug)]
pub struct AddLiquidityOp {
    pub tx: AddLiquidity,
    pub from: AccountId,
    pub to: AccountId,
}

impl AddLiquidityOp {
    /// Fewer chunks would not hold the 33 bytes of fields.
    pub const CHUNKS: usize = 4;
    pub const OP_CODE: u8 = 0x0a;

    pub open spec fn pubdata(&self) -> Seq<u8> {
        padded(
            seq![Self::OP_CODE] + be_bytes(self.from.0 as nat, 4) + be_bytes(self.to.0 as nat, 4)
                + amount_packed(self.tx.amount_a_desired as nat) + amount_packed(
                self.tx.amount_b_desired as nat,
            ) + amount_packed(self.tx.amount_a_min as nat) + amount_packed(
                self.tx.amount_b_min as nat,
            ) + fee_packed(self.tx.fee_a as nat) + fee_packed(self.tx.fee_b as nat),
            36,
        )
    }

    pub open spec fn carries(&self, s: Seq<u8>) -> bool {
        &&& self.from.0 as nat == be_value(s.subrange(1, 5))
        &&& self.to.0 as nat == be_value(s.subrange(5, 9))
        &&& unpacked(s.subrange(9, 14)) == Some(self.tx.amount_a_desired)
        &&& unpacked(s.subrange(14, 19)) == Some(self.tx.amount_b_desired)
        &&& unpacked(s.subrange(19, 24)) == Some(self.tx.amount_a_min)
        &&& unpacked(s.subrange(24, 29)) == Some(self.tx.amount_b_min)
        &&& unpacked(s.subrange(29, 31)) == Some(self.tx.fee_a)
        &&& unpacked(s.subrange(31, 33)) == Some(self.tx.fee_b)
    }

    pub open spec fn defaulted(&self) -> bool {
        &&& self.tx.account_id == self.from
        &&& self.tx.liquidity_id == 0
        &&& self.tx.to@ == zero_address()
        &&& self.tx.token.0 == 0
        &&& self.tx.nonce.0 == 0
        &&& self.tx.time_range is None
    }

    pub fn get_public_data(&self) -> (r: Vec<u8>)
        ensures
            r@ == self.pubdata(),
            r@.len() == Self::CHUNKS * CHUNK_BYTES,
    {
        let mut data: Vec<u8> = Vec::new();
        data.push(Self::OP_CODE);
        push_be(&mut data, self.from.0 as u128, 4);
        push_be(&mut data, self.to.0 as u128, 4);
        let a_desired = pack_token_amount(self.tx.amount_a_desired);
        push_all(&mut data, a_desired.as_slice());
        let b_desired = pack_token_amount(self.tx.amount_b_desired);
        push_all(&mut data, b_desired.as_slice());
        let a_min = pack_token_amount(self.tx.amount_a_min);
        push_all(&mut data, a_min.as_slice());
        let b_min = pack_token_amount(self.tx.amount_b_min);
        push_all(&mut data, b_min.as_slice());
        let fee_a = pack_fee_amount(self.tx.fee_a);
        push_all(&mut data, fee_a.as_slice());
        let fee_b = pack_fee_amount(self.tx.fee_b);
        push_all(&mut data, fee_b.as_slice());
        proof {
            lemma_be_len(self.from.0 as nat, 4);
            lemma_be_len(self.to.0 as nat, 4);
            lemma_packed_len(self.tx.amount_a_desired as nat);
            lemma_packed_len(self.tx.amount_b_desired as nat);
            lemma_packed_len(self.tx.amount_a_min as nat);
            lemma_packed_len(self.tx.amount_b_min as nat);
            lemma_packed_len(self.tx.fee_a as nat);
            lemma_packed_len(self.tx.fee_b as nat);
        }
        pad_to(&mut data, Self::CHUNKS * CHUNK_BYTES);
        assert(data@ =~= self.pubdata());
        data
    }

    pub fn from_public_data(bytes: &[u8]) -> (r: Result<AddLiquidityOp, CodecError>)
        ensures
            bytes@.len() != Self::CHUNKS * CHUNK_BYTES ==> r == Err::<AddLiquidityOp, CodecError>(
                CodecError::WrongLength,
            ),
            r is Ok <==> (bytes@.len() == 36 && unpacked(bytes@.subrange(9, 14)) is Some
                && unpacked(bytes@.subrange(14, 19)) is Some && unpacked(bytes@.subrange(19, 24)) is Some
                && unpacked(bytes@.subrange(24, 29)) is Some && unpacked(bytes@.subrange(29, 31)) is Some
                && unpacked(bytes@.subrange(31, 33)) is Some),
            r is Ok ==> r->Ok_0.carries(bytes@) && r->Ok_0.defaulted(),
    {
        if bytes.len() != Self::CHUNKS * CHUNK_BYTES {
            return Err(CodecError::WrongLength);
        }
        let from = read_u32(bytes, 1);
        let to = read_u32(bytes, 5);
        let amount_a_desired = match read_packed_amount(bytes, 9) {
            Some(a) => a,
            None => return Err(CodecError::BadAmount),
        };
        let amount_b_desired = match read_packed_amount(bytes, 14) {
            Some(a) => a,
            None => return Err(CodecError::BadAmount),
        };
        let amount_a_min = match read_packed_amount(bytes, 19) {
            Some(a) => a,
            None => return Err(CodecError::BadAmount),
        };
        let amount_b_min = match read_packed_amount(bytes, 24) {
            Some(a) => a,
            None => return Err(CodecError::BadAmount),
        };
        let fee_a = match read_packed_fee(bytes, 29) {
            Some(f) => f,
            None => return Err(CodecError::BadAmount),
        };
        let fee_b = match read_packed_fee(bytes, 31) {
            Some(f) => f,
            None => return Err(CodecError::BadAmount),
        };
        Ok(AddLiquidityOp {
            tx: AddLiquidity {
                account_id: AccountId(from),
                liquidity_id: 0,
                to: Address::zero(),
                amount_a_desired,
                amount_b_desired,
                amount_a_min,
                amount_b_min,
                token: TokenId(0),
                fee_a,
                fee_b,
                nonce: Nonce(0),
                time_range: None,
            },
            from: AccountId(from),
            to: AccountId(to),
        })
    }

    /// Public data with packable amounts and fees has the kind's length and
    /// decodes to the same public fields.
    pub proof fn lemma_codec(&self)
        requires
            amount_packable(self.tx.amount_a_desired as nat),
            amount_packable(self.tx.amount_b_desired as nat),
            amount_packable(self.tx.amount_a_min as nat),
            amount_packable(self.tx.amount_b_min as nat),
            fee_packable(self.tx.fee_a as nat),
            fee_packable(self.tx.fee_b as nat),
        ensures
            self.pubdata().len() == Self::CHUNKS * CHUNK_BYTES,
            self.pubdata()[0] == Self::OP_CODE,
            self.carries(self.pubdata()),
    {
        let s = self.pubdata();
        lemma_pow256_values();
        lemma_be_round_trip(self.from.0 as nat, 4);
        lemma_be_round_trip(self.to.0 as nat, 4);
        lemma_amount_round_trip(self.tx.amount_a_desired);
        lemma_amount_round_trip(self.tx.amount_b_desired);
        lemma_amount_round_trip(self.tx.amount_a_min);
        lemma_amount_round_trip(self.tx.amount_b_min);
        lemma_fee_round_trip(self.tx.fee_a);
        lemma_fee_round_trip(self.tx.fee_b);
        lemma_packed_len(self.tx.amount_a_desired as nat);
        lemma_packed_len(self.tx.amount_b_desired as nat);
        lemma_packed_len(self.tx.amount_a_min as nat);
        lemma_packed_len(self.tx.amount_b_min as nat);
        lemma_packed_len(self.tx.fee_a as nat);
        lemma_packed_len(self.tx.fee_b as nat);
        assert(s.subrange(1, 5) =~= be_bytes(self.from.0 as nat, 4));
        assert(s.subrange(5, 9) =~= be_bytes(self.to.0 as nat, 4));
        assert(s.subrange(9, 14) =~= amount_packed(self.tx.amount_a_desired as nat));
        assert(s.subrange(14, 19) =~= amount_packed(self.tx.amount_b_desired as nat));
        assert(s.subrange(19, 24) =~= amount_packed(self.tx.amount_a_min as nat));
        assert(s.subrange(24, 29) =~= amount_packed(self.tx.amount_b_min as nat));
        assert(s.subrange(29, 31) =~= fee_packed(self.tx.fee_a as nat));
        assert(s.subrange(31, 33) =~= fee_packed(self.tx.fee_b as nat));
    }

    /// Account ids this operation changes.
    pub fn get_updated_account_ids(&self) -> (r: Vec<AccountId>)
        ensures
            r@ == seq![self.from, self.to],
    {
        let mut r: Vec<AccountId> = Vec::new();
        r.push(self.from);
        r.push(self.to);
        assert(r@ =~= seq![self.from, self.to]);
        r
    }
}

/// Removing liquidity; `from` and `to` are both the sender's account.
#[derive(Clone, Copy, Debug)]
pub struct RemoveLiquidityOp {
    pub tx: RemoveLiquidity,
    pub from: AccountId,
    pub to: AccountId,
}

impl RemoveLiquidityOp {
    /// Fewer chunks would not hold the 33 bytes of fields.
    pub const CHUNKS: usize = 4;
    pub const OP_CODE: u8 = 0x0b;

    pub open spec fn pubdata(&self) -> Seq<u8> {
        padded(
            seq![Self::OP_CODE] + be_bytes(self.from.0 as nat, 4) + be_bytes(self.to.0 as nat, 4)
                + amount_packed(self.tx.amount_a_desired as nat) + amount_packed(
                self.tx.amount_b_desired as nat,
            ) + amount_packed(self.tx.amount_a_min as nat) + amount_packed(
                self.tx.amount_b_min as nat,
            ) + fee_packed(self.tx.fee_a as nat) + fee_packed(self.tx.fee_b as nat),
            36,
        )
    }

    pub open spec fn carries(&self, s: Seq<u8>) -> bool {
        &&& self.from.0 as nat == be_value(s.subrange(1, 5))
        &&& self.to.0 as nat == be_value(s.subrange(5, 9))
        &&& unpacked(s.subrange(9, 14)) == Some(self.tx.amount_a_desired)
        &&& unpacked(s.subrange(14, 19)) == Some(self.tx.amount_b_desired)
        &&& unpacked(s.subrange(19, 24)) == Some(self.tx.amount_a_min)
        &&& unpacked(s.subrange(24, 29)) == Some(self.tx.amount_b_min)
        &&& unpacked(s.subrange(29, 31)) == Some(self.tx.fee_a)
        &&& unpacked(s.subrange(31, 33)) == Some(self.tx.fee_b)
    }

    pub open spec fn defaulted(&self) -> bool {
        &&& self.tx.account_id == self.from
        &&& self.tx.liquidity_id == 0
        &&& self.tx.to@ == zero_address()
        &&& self.tx.token.0 == 0
        &&& self.tx.nonce.0 == 0
        &&& self.tx.time_range is None
    }

    pub fn get_public_data(&self) -> (r: Vec<u8>)
        ensures
            r@ == self.pubdata(),
            r@.len() == Self::CHUNKS * CHUNK_BYTES,
    {
        let mut data: Vec<u8> = Vec::new();
        data.push(Self::OP_CODE);
        push_be(&mut data, self.from.0 as u128, 4);
        push_be(&mut data, self.to.0 as u128, 4);
        let a_desired = pack_token_amount(self.tx.amount_a_desired);
        push_all(&mut data, a_desired.as_slice());
        let b_desired = pack_token_amount(self.tx.amount_b_desired);
        push_all(&mut data, b_desired.as_slice());
        let a_min = pack_token_amount(self.tx.amount_a_min);
        push_all(&mut data, a_min.as_slice());
        let b_min = pack_token_amount(self.tx.amount_b_min);
        push_all(&mut data, b_min.as_slice());
        let fee_a = pack_fee_amount(self.tx.fee_a);
        push_all(&mut data, fee_a.as_slice());
        let fee_b = pack_fee_amount(self.tx.fee_b);
        push_all(&mut data, fee_b.as_slice());
        proof {
            lemma_be_len(self.from.0 as nat, 4);
            lemma_be_len(self.to.0 as nat, 4);
            lemma_packed_len(self.tx.amount_a_desired as nat);
            lemma_packed_len(self.tx.amount_b_desired as nat);
            lemma_packed_len(self.tx.amount_a_min as nat);
            lemma_packed_len(self.tx.amount_b_min as nat);
            lemma_packed_len(self.tx.fee_a as nat);
            lemma_packed_len(self.tx.fee_b as nat);
        }
        pad_to(&mut data, Self::CHUNKS * CHUNK_BYTES);
        assert(data@ =~= self.pubdata());
        data
    }

    pub fn from_public_data(bytes: &[u8]) -> (r: Result<RemoveLiquidityOp, CodecError>)
        ensures
            bytes@.len() != Self::CHUNKS * CHUNK_BYTES ==> r == Err::<RemoveLiquidityOp, CodecError>(
                CodecError::WrongLength,
            ),
            r is Ok <==> (bytes@.len() == 36 && unpacked(bytes@.subrange(9, 14)) is Some
                && unpacked(bytes@.subrange(14, 19)) is Some && unpacked(bytes@.subrange(19, 24)) is Some
                && unpacked(bytes@.subrange(24, 29)) is Some && unpacked(bytes@.subrange(29, 31)) is Some
                && unpacked(bytes@.subrange(31, 33)) is Some),
            r is Ok ==> r->Ok_0.carries(bytes@) && r->Ok_0.defaulted(),
    {
        if bytes.len() != Self::CHUNKS * CHUNK_BYTES {
            return Err(CodecError::WrongLength);
        }
        let from = read_u32(bytes, 1);
        let to = read_u32(bytes, 5);
        let amount_a_desired = match read_packed_amount(bytes, 9) {
            Some(a) => a,
            None => return Err(CodecError::BadAmount),
        };
        let amount_b_desired = match read_packed_amount(bytes, 14) {
            Some(a) => a,
            None => return Err(CodecError::BadAmount),
        };
        let amount_a_min = match read_packed_amount(bytes, 19) {
            Some(a) => a,
            None => return Err(CodecError::BadAmount),
        };
        let amount_b_min = match read_packed_amount(bytes, 24) {
            Some(a) => a,
            None => return Err(CodecError::BadAmount),
        };
        let fee_a = match read_packed_fee(bytes, 29) {
            Some(f) => f,
            None => return Err(CodecError::BadAmount),
        };
        let fee_b = match read_packed_fee(bytes, 31) {
            Some(f) => f,
            None => return Err(CodecError::BadAmount),
        };
        Ok(RemoveLiquidityOp {
            tx: RemoveLiquidity {
                account_id: AccountId(from),
                liquidity_id: 0,
                to: Address::zero(),
                amount_a_desired,
                amount_b_desired,
                amount_a_min,
                amount_b_min,
                token: TokenId(0),
                fee_a,
                fee_b,
                nonce: Nonce(0),
                time_range: None,
            },
            from: AccountId(from),
            to: AccountId(to),
        })
    }

    /// Public data with packable amounts and fees has the kind's length and
    /// decodes to the same public fields.
    pub proof fn lemma_codec(&self)
        requires
            amount_packable(self.tx.amount_a_desired as nat),
            amount_packable(self.tx.amount_b_desired as nat),
            amount_packable(self.tx.amount_a_min as nat),
            amount_packable(self.tx.amount_b_min as nat),
            fee_packable(self.tx.fee_a as nat),
            fee_packable(self.tx.fee_b as nat),
        ensures
            self.pubdata().len() == Self::CHUNKS * CHUNK_BYTES,
            self.pubdata()[0] == Self::OP_CODE,
            self.carries(self.pubdata()),
    {
        let s = self.pubdata();
        lemma_pow256_values();
        lemma_be_round_trip(self.from.0 as nat, 4);
        lemma_be_round_trip(self.to.0 as nat, 4);
        lemma_amount_round_trip(self.tx.amount_a_desired);
        lemma_amount_round_trip(self.tx.amount_b_desired);
        lemma_amount_round_trip(self.tx.amount_a_min);
        lemma_amount_round_trip(self.tx.amount_b_min);
        lemma_fee_round_trip(self.tx.fee_a);
        lemma_fee_round_trip(self.tx.fee_b);
        lemma_packed_len(self.tx.amount_a_desired as nat);
        lemma_packed_len(self.tx.amount_b_desired as nat);
        lemma_packed_len(self.tx.amount_a_min as nat);
        lemma_packed_len(self.tx.amount_b_min as nat);
        lemma_packed_len(self.tx.fee_a as nat);
        lemma_packed_len(self.tx.fee_b as nat);
        assert(s.subrange(1, 5) =~= be_bytes(self.from.0 as nat, 4));
        assert(s.subrange(5, 9) =~= be_bytes(self.to.0 as nat, 4));
        assert(s.subrange(9, 14) =~= amount_packed(self.tx.amount_a_desired as nat));
        assert(s.subrange(14, 19) =~= amount_packed(self.tx.amount_b_desired as nat));
        assert(s.subrange(19, 24) =~= amount_packed(self.tx.amount_a_min as nat));
        assert(s.subrange(24, 29) =~= amount_packed(self.tx.amount_b_min as nat));
        assert(s.subrange(29, 31) =~= fee_packed(self.tx.fee_a as nat));
        assert(s.subrange(31, 33) =~= fee_packed(self.tx.fee_b as nat));
    }

    /// Account ids this operation changes.
    pub fn get_updated_account_ids(&self) -> (r: Vec<AccountId>)
        ensures
            r@ == seq![self.from, self.to],
    {
        let mut r: Vec<AccountId> = Vec::new();
        r.push(self.from);
        r.push(self.to);
        assert(r@ =~= seq![self.from, self.to]);
        r
    }
}

} // verus!
