//! The closed set of executed operations, dispatched by kind.

use vstd::prelude::*;
use crate::basic::{AccountId, CHUNK_BYTES};
use crate::operations::{
    AddLiquidityOp, ChangePubKeyOp, CloseOp, CodecError, DepositOp, ExchangeOp, ForcedExitOp,
    FullExitOp, NoopOp, RemoveLiquidityOp, TransferOp, TransferToNewOp, WithdrawOp,
};
use crate::packing::{amount_packable, fee_packable, unpacked};
use crate::priority_ops::ZkDposPriorityOp;

verus! {

/// An executed operation.
#[derive(Clone, Copy, Debug)]
pub enum ZkDposOp {
    Deposit(DepositOp),
    Transfer(TransferOp),
    /// Transfer whose recipient did not exist and is created.
    TransferToNew(TransferToNewOp),
    Withdraw(WithdrawOp),
    /// Disabled; kept so that historical blocks still decode.
    Close(CloseOp),
    FullExit(FullExitOp),
    ChangePubKeyOffchain(ChangePubKeyOp),
    ForcedExit(ForcedExitOp),
    /// Fills unused block capacity.
    Noop(NoopOp),
    Exchange(ExchangeOp),
    AddLiquidity(AddLiquidityOp),
    RemoveLiquidity(RemoveLiquidityOp),
}

/// Chunk count of the kind with this opcode, for the opcodes that decode.
pub open spec fn chunks_of_code(op_type: u8) -> Option<nat> {
    if op_type == 0x00 {
        Some(1)
    } else if op_type == 0x01 {
        Some(6)
    } else if op_type == 0x02 {
        Some(6)
    } else if op_type == 0x03 {
        Some(6)
    } else if op_type == 0x04 {
        Some(1)
    } else if op_type == 0x05 {
        Some(2)
    } else if op_type == 0x06 {
        Some(6)
    } else if op_type == 0x07 {
        Some(6)
    } else if op_type == 0x08 {
        Some(6)
    } else if op_type == 0x09 {
        Some(3)
    } else if op_type == 0x0a {
        Some(4)
    } else if op_type == 0x0b {
        Some(4)
    } else {
        None
    }
}

/// The packed fields of public data with this first byte all unpack within 128 bits.
pub open spec fn decodes(b: Seq<u8>) -> bool {
    let op_type = b[0];
    if op_type == 0x02 {
        unpacked(b.subrange(7, 12)) is Some && unpacked(b.subrange(36, 38)) is Some
    } else if op_type == 0x03 {
        unpacked(b.subrange(23, 25)) is Some
    } else if op_type == 0x05 {
        unpacked(b.subrange(11, 16)) is Some && unpacked(b.subrange(16, 18)) is Some
    } else if op_type == 0x07 {
        unpacked(b.subrange(51, 53)) is Some
    } else if op_type == 0x08 {
        unpacked(b.subrange(27, 29)) is Some
    } else if op_type == 0x09 {
        unpacked(b.subrange(9, 14)) is Some && unpacked(b.subrange(14, 19)) is Some
            && unpacked(b.subrange(19, 21)) is Some && unpacked(b.subrange(21, 23)) is Some
    } else if op_type == 0x0a || op_type == 0x0b {
        unpacked(b.subrange(9, 14)) is Some && unpacked(b.subrange(14, 19)) is Some
            && unpacked(b.subrange(19, 24)) is Some && unpacked(b.subrange(24, 29)) is Some
            && unpacked(b.subrange(29, 31)) is Some && unpacked(b.subrange(31, 33)) is Some
    } else {
        true
    }
}

impl ZkDposOp {
    /// Opcode of the operation's kind.
    pub open spec fn op_code(&self) -> u8 {
        match *self {
            ZkDposOp::Noop(_) => NoopOp::OP_CODE,
            ZkDposOp::Deposit(_) => DepositOp::OP_CODE,
            ZkDposOp::TransferToNew(_) => TransferToNewOp::OP_CODE,
            ZkDposOp::Withdraw(_) => WithdrawOp::OP_CODE,
            ZkDposOp::Close(_) => CloseOp::OP_CODE,
            ZkDposOp::Transfer(_) => TransferOp::OP_CODE,
            ZkDposOp::Exchange(_) => ExchangeOp::OP_CODE,
            ZkDposOp::AddLiquidity(_) => AddLiquidityOp::OP_CODE,
            ZkDposOp::RemoveLiquidity(_) => RemoveLiquidityOp::OP_CODE,
            ZkDposOp::FullExit(_) => FullExitOp::OP_CODE,
            ZkDposOp::ChangePubKeyOffchain(_) => ChangePubKeyOp::OP_CODE,
            ZkDposOp::ForcedExit(_) => ForcedExitOp::OP_CODE,
        }
    }

    pub open spec fn chunks_spec(&self) -> nat {
        match *self {
            ZkDposOp::Noop(_) => 1,
            ZkDposOp::Deposit(_) => 6,
            ZkDposOp::TransferToNew(_) => 6,
            ZkDposOp::Withdraw(_) => 6,
            ZkDposOp::Close(_) => 1,
            ZkDposOp::Transfer(_) => 2,
            ZkDposOp::Exchange(_) => 3,
            ZkDposOp::AddLiquidity(_) => 4,
            ZkDposOp::RemoveLiquidity(_) => 4,
            ZkDposOp::FullExit(_) => 6,
            ZkDposOp::ChangePubKeyOffchain(_) => 6,
            ZkDposOp::ForcedExit(_) => 6,
        }
    }

    pub open spec fn pubdata(&self) -> Seq<u8> {
        match *self {
            ZkDposOp::Noop(op) => op.pubdata(),
            ZkDposOp::Deposit(op) => op.pubdata(),
            ZkDposOp::TransferToNew(op) => op.pubdata(),
            ZkDposOp::Withdraw(op) => op.pubdata(),
            ZkDposOp::Close(op) => op.pubdata(),
            ZkDposOp::Transfer(op) => op.pubdata(),
            ZkDposOp::Exchange(op) => op.pubdata(),
            ZkDposOp::AddLiquidity(op) => op.pubdata(),
            ZkDposOp::RemoveLiquidity(op) => op.pubdata(),
            ZkDposOp::FullExit(op) => op.pubdata(),
            ZkDposOp::ChangePubKeyOffchain(op) => op.pubdata(),
            ZkDposOp::ForcedExit(op) => op.pubdata(),
        }
    }

    /// `s` carries the public fields of this operation.
    pub open spec fn carries(&self, s: Seq<u8>) -> bool {
        match *self {
            ZkDposOp::Noop(_) => true,
            ZkDposOp::Deposit(op) => op.carries(s),
            ZkDposOp::TransferToNew(op) => op.carries(s),
            ZkDposOp::Withdraw(op) => op.carries(s),
            ZkDposOp::Close(op) => op.carries(s),
            ZkDposOp::Transfer(op) => op.carries(s),
            ZkDposOp::Exchange(op) => op.carries(s),
            ZkDposOp::AddLiquidity(op) => op.carries(s),
            ZkDposOp::RemoveLiquidity(op) => op.carries(s),
            ZkDposOp::FullExit(op) => op.carries(s),
            ZkDposOp::ChangePubKeyOffchain(op) => op.carries(s),
            ZkDposOp::ForcedExit(op) => op.carries(s),
        }
    }

    /// Every amount and fee that public data packs is packable.
    pub open spec fn packable(&self) -> bool {
        match *self {
            ZkDposOp::TransferToNew(op) => amount_packable(op.tx.amount as nat) && fee_packable(
                op.tx.fee as nat,
            ),
            ZkDposOp::Transfer(op) => amount_packable(op.tx.amount as nat) && fee_packable(
                op.tx.fee as nat,
            ),
            ZkDposOp::Withdraw(op) => fee_packable(op.tx.fee as nat),
            ZkDposOp::ChangePubKeyOffchain(op) => fee_packable(op.tx.fee as nat),
            ZkDposOp::ForcedExit(op) => fee_packable(op.tx.fee as nat),
            ZkDposOp::Exchange(op) => amount_packable(op.tx.amount_a as nat) && amount_packable(
                op.tx.amount_b as nat,
            ) && fee_packable(op.tx.price as nat) && fee_packable(op.tx.fee as nat),
            ZkDposOp::AddLiquidity(op) => amount_packable(op.tx.amount_a_desired as nat)
                && amount_packable(op.tx.amount_b_desired as nat) && amount_packable(
                op.tx.amount_a_min as nat,
            ) && amount_packable(op.tx.amount_b_min as nat) && fee_packable(op.tx.fee_a as nat)
                && fee_packable(op.tx.fee_b as nat),
            ZkDposOp::RemoveLiquidity(op) => amount_packable(op.tx.amount_a_desired as nat)
                && amount_packable(op.tx.amount_b_desired as nat) && amount_packable(
                op.tx.amount_a_min as nat,
            ) && amount_packable(op.tx.amount_b_min as nat) && fee_packable(op.tx.fee_a as nat)
                && fee_packable(op.tx.fee_b as nat),
            _ => true,
        }
    }

    /// Number of block chunks the operation occupies.
    pub fn chunks(&self) -> (r: usize)
        ensures
            r == self.chunks_spec(),
    {
        match self {
            ZkDposOp::Noop(_) => NoopOp::CHUNKS,
            ZkDposOp::Deposit(_) => DepositOp::CHUNKS,
            ZkDposOp::TransferToNew(_) => TransferToNewOp::CHUNKS,
            ZkDposOp::Withdraw(_) => WithdrawOp::CHUNKS,
            ZkDposOp::Close(_) => CloseOp::CHUNKS,
            ZkDposOp::Transfer(_) => TransferOp::CHUNKS,
            ZkDposOp::Exchange(_) => ExchangeOp::CHUNKS,
            ZkDposOp::AddLiquidity(_) => AddLiquidityOp::CHUNKS,
            ZkDposOp::RemoveLiquidity(_) => RemoveLiquidityOp::CHUNKS,
            ZkDposOp::FullExit(_) => FullExitOp::CHUNKS,
            ZkDposOp::ChangePubKeyOffchain(_) => ChangePubKeyOp::CHUNKS,
            ZkDposOp::ForcedExit(_) => ForcedExitOp::CHUNKS,
        }
    }

    /// Public data committed to the base chain.
    pub fn public_data(&self) -> (r: Vec<u8>)
        ensures
            r@ == self.pubdata(),
            r@.len() == self.chunks_spec() * CHUNK_BYTES,
    {
        match self {
            ZkDposOp::Noop(op) => op.get_public_data(),
            ZkDposOp::Deposit(op) => op.get_public_data(),
            ZkDposOp::TransferToNew(op) => op.get_public_data(),
            ZkDposOp::Withdraw(op) => op.get_public_data(),
            ZkDposOp::Close(op) => op.get_public_data(),
            ZkDposOp::Transfer(op) => op.get_public_data(),
            ZkDposOp::Exchange(op) => op.get_public_data(),
            ZkDposOp::AddLiquidity(op) => op.get_public_data(),
            ZkDposOp::RemoveLiquidity(op) => op.get_public_data(),
            ZkDposOp::FullExit(op) => op.get_public_data(),
            ZkDposOp::ChangePubKeyOffchain(op) => op.get_public_data(),
            ZkDposOp::ForcedExit(op) => op.get_public_data(),
        }
    }

    /// Payout record for the kinds that pay out on the base chain.
    pub fn withdrawal_data(&self) -> (r: Option<Vec<u8>>)
        ensures
            r is Some <==> (self is Withdraw || self is FullExit || self is ForcedExit),
            r is Some ==> r->Some_0@.len() == 39,
            self is Withdraw ==> r->Some_0@ == self->Withdraw_0.withdrawal(),
            self is FullExit ==> r->Some_0@ == self->FullExit_0.withdrawal(),
            self is ForcedExit ==> r->Some_0@ == self->ForcedExit_0.withdrawal(),
    {
        match self {
            ZkDposOp::Withdraw(op) => Some(op.get_withdrawal_data()),
            ZkDposOp::FullExit(op) => Some(op.get_withdrawal_data()),
            ZkDposOp::ForcedExit(op) => Some(op.get_withdrawal_data()),
            _ => None,
        }
    }

    /// Length in bytes of the public data of the kind with this opcode.
    pub fn public_data_length(op_type: u8) -> (r: Result<usize, CodecError>)
        ensures
            match chunks_of_code(op_type) {
                Some(c) => r == Ok::<usize, CodecError>((c * CHUNK_BYTES) as usize),
                None => r == Err::<usize, CodecError>(CodecError::UnknownOpCode),
            },
    {
        let chunks = if op_type == NoopOp::OP_CODE {
            NoopOp::CHUNKS
        } else if op_type == DepositOp::OP_CODE {
            DepositOp::CHUNKS
        } else if op_type == TransferToNewOp::OP_CODE {
            TransferToNewOp::CHUNKS
        } else if op_type == WithdrawOp::OP_CODE {
            WithdrawOp::CHUNKS
        } else if op_type == CloseOp::OP_CODE {
            CloseOp::CHUNKS
        } else if op_type == TransferOp::OP_CODE {
            TransferOp::CHUNKS
        } else if op_type == FullExitOp::OP_CODE {
            FullExitOp::CHUNKS
        } else if op_type == ChangePubKeyOp::OP_CODE {
            ChangePubKeyOp::CHUNKS
        } else if op_type == ForcedExitOp::OP_CODE {
            ForcedExitOp::CHUNKS
        } else if op_type == ExchangeOp::OP_CODE {
            ExchangeOp::CHUNKS
        } else if op_type == AddLiquidityOp::OP_CODE {
            AddLiquidityOp::CHUNKS
        } else if op_type == RemoveLiquidityOp::OP_CODE {
            RemoveLiquidityOp::CHUNKS
        } else {
            return Err(CodecError::UnknownOpCode);
        };
        Ok(chunks * CHUNK_BYTES)
    }

    /// Restores an operation from committed public data, choosing the kind by
    /// the first byte. Opcode 0x05 is read as a transfer.
    pub fn from_public_data(bytes: &[u8]) -> (r: Result<ZkDposOp, CodecError>)
        ensures
            bytes@.len() == 0 ==> r == Err::<ZkDposOp, CodecError>(CodecError::Empty),
            bytes@.len() > 0 && chunks_of_code(bytes@[0]) is None ==> r == Err::<ZkDposOp, CodecError>(
                CodecError::UnknownOpCode,
            ),
            bytes@.len() > 0 && chunks_of_code(bytes@[0]) is Some && bytes@.len() != chunks_of_code(
                bytes@[0],
            )->Some_0 * CHUNK_BYTES ==> r == Err::<ZkDposOp, CodecError>(CodecError::WrongLength),
            bytes@.len() > 0 && chunks_of_code(bytes@[0]) is Some && bytes@.len() == chunks_of_code(bytes@[0])->Some_0
                * CHUNK_BYTES ==> (r is Ok <==> decodes(bytes@)),
            r is Err && !(r->Err_0 is Empty || r->Err_0 is UnknownOpCode || r->Err_0 is WrongLength) ==> r->Err_0
                is BadAmount,
            r is Ok ==> r->Ok_0.carries(bytes@) && r->Ok_0.op_code() == bytes@[0] && chunks_of_code(bytes@[0]) == Some(
                r->Ok_0.chunks_spec(),
            ),
    {
        if bytes.len() == 0 {
            return Err(CodecError::Empty);
        }
        let op_type = bytes[0];
        if op_type == NoopOp::OP_CODE {
            match NoopOp::from_public_data(bytes) {
                Ok(op) => Ok(ZkDposOp::Noop(op)),
                Err(e) => Err(e),
            }
        } else if op_type == DepositOp::OP_CODE {
            match DepositOp::from_public_data(bytes) {
                Ok(op) => Ok(ZkDposOp::Deposit(op)),
                Err(e) => Err(e),
            }
        } else if op_type == TransferToNewOp::OP_CODE {
            match TransferToNewOp::from_public_data(bytes) {
                Ok(op) => Ok(ZkDposOp::TransferToNew(op)),
                Err(e) => Err(e),
            }
        } else if op_type == WithdrawOp::OP_CODE {
            match WithdrawOp::from_public_data(bytes) {
                Ok(op) => Ok(ZkDposOp::Withdraw(op)),
                Err(e) => Err(e),
            }
        } else if op_type == CloseOp::OP_CODE {
            match CloseOp::from_public_data(bytes) {
                Ok(op) => Ok(ZkDposOp::Close(op)),
                Err(e) => Err(e),
            }
        } else if op_type == TransferOp::OP_CODE {
            match TransferOp::from_public_data(bytes) {
                Ok(op) => Ok(ZkDposOp::Transfer(op)),
                Err(e) => Err(e),
            }
        } else if op_type == FullExitOp::OP_CODE {
            match FullExitOp::from_public_data(bytes) {
                Ok(op) => Ok(ZkDposOp::FullExit(op)),
                Err(e) => Err(e),
            }
        } else if op_type == ChangePubKeyOp::OP_CODE {
            match ChangePubKeyOp::from_public_data(bytes) {
                Ok(op) => Ok(ZkDposOp::ChangePubKeyOffchain(op)),
                Err(e) => Err(e),
            }
        } else if op_type == ForcedExitOp::OP_CODE {
            match ForcedExitOp::from_public_data(bytes) {
                Ok(op) => Ok(ZkDposOp::ForcedExit(op)),
                Err(e) => Err(e),
            }
        } else if op_type == ExchangeOp::OP_CODE {
            match ExchangeOp::from_public_data(bytes) {
                Ok(op) => Ok(ZkDposOp::Exchange(op)),
                Err(e) => Err(e),
            }
        } else if op_type == AddLiquidityOp::OP_CODE {
            match AddLiquidityOp::from_public_data(bytes) {
                Ok(op) => Ok(ZkDposOp::AddLiquidity(op)),
                Err(e) => Err(e),
            }
        } else if op_type == RemoveLiquidityOp::OP_CODE {
            match RemoveLiquidityOp::from_public_data(bytes) {
                Ok(op) => Ok(ZkDposOp::RemoveLiquidity(op)),
                Err(e) => Err(e),
            }
        } else {
            Err(CodecError::UnknownOpCode)
        }
    }

    /// The priority operation, for deposits and full exits.
    pub fn try_get_priority_op(&self) -> (r: Option<ZkDposPriorityOp>)
        ensures
            r is Some <==> self.is_priority_spec(),
            self is Deposit ==> r == Some(ZkDposPriorityOp::Deposit(self->Deposit_0.priority_op)),
            self is FullExit ==> r == Some(ZkDposPriorityOp::FullExit(self->FullExit_0.priority_op)),
    {
        match self {
            ZkDposOp::Deposit(op) => Some(ZkDposPriorityOp::Deposit(op.priority_op)),
            ZkDposOp::FullExit(op) => Some(ZkDposPriorityOp::FullExit(op.priority_op)),
            _ => None,
        }
    }

    pub open spec fn is_priority_spec(&self) -> bool {
        self is Deposit || self is FullExit
    }

    /// Ids of the accounts the operation changes.
    pub fn get_updated_account_ids(&self) -> (r: Vec<AccountId>)
        ensures
            r@ == match *self {
                ZkDposOp::Noop(_) => Seq::<AccountId>::empty(),
                ZkDposOp::Deposit(op) => seq![op.account_id],
                ZkDposOp::TransferToNew(op) => seq![op.from, op.to],
                ZkDposOp::Withdraw(op) => seq![op.account_id],
                ZkDposOp::Close(op) => seq![op.account_id],
                ZkDposOp::Transfer(op) => seq![op.from, op.to],
                ZkDposOp::Exchange(op) => seq![op.from, op.to],
                ZkDposOp::AddLiquidity(op) => seq![op.from, op.to],
                ZkDposOp::RemoveLiquidity(op) => seq![op.from, op.to],
                ZkDposOp::FullExit(op) => seq![op.priority_op.account_id],
                ZkDposOp::ChangePubKeyOffchain(op) => seq![op.account_id],
                ZkDposOp::ForcedExit(op) => seq![op.tx.initiator_account_id, op.target_account_id],
            },
    {
        let mut r: Vec<AccountId> = Vec::new();
        match self {
            ZkDposOp::Noop(_) => {},
            ZkDposOp::Deposit(op) => r.push(op.account_id),
            ZkDposOp::TransferToNew(op) => {
                r.push(op.from);
                r.push(op.to);
            },
            ZkDposOp::Withdraw(op) => r.push(op.account_id),
            ZkDposOp::Close(op) => r.push(op.account_id),
            ZkDposOp::Transfer(op) => {
                r.push(op.from);
                r.push(op.to);
            },
            ZkDposOp::Exchange(op) => {
                r.push(op.from);
                r.push(op.to);
            },
            ZkDposOp::AddLiquidity(op) => {
                r.push(op.from);
                r.push(op.to);
            },
            ZkDposOp::RemoveLiquidity(op) => {
                r.push(op.from);
                r.push(op.to);
            },
            ZkDposOp::FullExit(op) => r.push(op.priority_op.account_id),
            ZkDposOp::ChangePubKeyOffchain(op) => r.push(op.account_id),
            ZkDposOp::ForcedExit(op) => {
                r.push(op.tx.initiator_account_id);
                r.push(op.target_account_id);
            },
        }
        assert(r@ =~= match *self {
            ZkDposOp::Noop(_) => Seq::<AccountId>::empty(),
            ZkDposOp::Deposit(op) => seq![op.account_id],
            ZkDposOp::TransferToNew(op) => seq![op.from, op.to],
            ZkDposOp::Withdraw(op) => seq![op.account_id],
            ZkDposOp::Close(op) => seq![op.account_id],
            ZkDposOp::Transfer(op) => seq![op.from, op.to],
            ZkDposOp::Exchange(op) => seq![op.from, op.to],
            ZkDposOp::AddLiquidity(op) => seq![op.from, op.to],
            ZkDposOp::RemoveLiquidity(op) => seq![op.from, op.to],
            ZkDposOp::FullExit(op) => seq![op.priority_op.account_id],
            ZkDposOp::ChangePubKeyOffchain(op) => seq![op.account_id],
            ZkDposOp::ForcedExit(op) => seq![op.tx.initiator_account_id, op.target_account_id],
        });
        r
    }

    /// Kinds whose execution the base-chain contract must see.
    pub fn is_onchain_operation(&self) -> (r: bool)
        ensures
            r == (self is Deposit || self is Withdraw || self is FullExit
                || self is ChangePubKeyOffchain || self is ForcedExit),
    {
        match self {
            ZkDposOp::Deposit(_) | ZkDposOp::Withdraw(_) | ZkDposOp::FullExit(_)
            | ZkDposOp::ChangePubKeyOffchain(_) | ZkDposOp::ForcedExit(_) => true,
            _ => false,
        }
    }

    /// Kinds that pay out on the base chain.
    pub fn is_processable_onchain_operation(&self) -> (r: bool)
        ensures
            r == (self is Withdraw || self is FullExit || self is ForcedExit),
    {
        match self {
            ZkDposOp::Withdraw(_) | ZkDposOp::FullExit(_) | ZkDposOp::ForcedExit(_) => true,
            _ => false,
        }
    }

    /// Kinds that come from the base chain.
    pub fn is_priority_op(&self) -> (r: bool)
        ensures
            r == self.is_priority_spec(),
    {
        match self {
            ZkDposOp::Deposit(_) | ZkDposOp::FullExit(_) => true,
            _ => false,
        }
    }
}

/// The public data of every operation is exactly its kind's chunk count
/// times the chunk width.
pub proof fn lemma_pubdata_length(op: ZkDposOp)
    ensures
        op.pubdata().len() == op.chunks_spec() * CHUNK_BYTES,
{
    broadcast use crate::bytes::lemma_be_len, crate::packing::lemma_amount_packed_len,
        crate::packing::lemma_fee_packed_len;

}

/// Public data of an operation whose packed fields are packable starts
/// with the kind's opcode, has the kind's length, unpacks, and carries
/// exactly that operation's public fields; `from_public_data` therefore
/// decodes it to an operation of the same kind with the same public fields.
pub proof fn lemma_codec_round_trip(op: ZkDposOp)
    requires
        op.packable(),
    ensures
        op.pubdata().len() == op.chunks_spec() * CHUNK_BYTES,
        op.pubdata()[0] == op.op_code(),
        chunks_of_code(op.op_code()) == Some(op.chunks_spec()),
        decodes(op.pubdata()),
        op.carries(op.pubdata()),
{
    match op {
        ZkDposOp::Noop(o) => {
            assert(o.pubdata()[0] == NoopOp::OP_CODE);
        },
        ZkDposOp::Deposit(o) => o.lemma_codec(),
        ZkDposOp::TransferToNew(o) => o.lemma_codec(),
        ZkDposOp::Withdraw(o) => o.lemma_codec(),
        ZkDposOp::Close(o) => o.lemma_codec(),
        ZkDposOp::Transfer(o) => o.lemma_codec(),
        ZkDposOp::Exchange(o) => o.lemma_codec(),
        ZkDposOp::AddLiquidity(o) => o.lemma_codec(),
        ZkDposOp::RemoveLiquidity(o) => o.lemma_codec(),
        ZkDposOp::FullExit(o) => o.lemma_codec(),
        ZkDposOp::ChangePubKeyOffchain(o) => o.lemma_codec(),
        ZkDposOp::ForcedExit(o) => o.lemma_codec(),
    }
}

} // verus!
