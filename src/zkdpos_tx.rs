//! The closed set of layer-2 transactions, dispatched by kind.

use vstd::prelude::*;
use crate::basic::{AccountId, Address, Nonce, TokenId, ATP_TOKEN_ID};
use crate::operations::{ChangePubKeyOp, CloseOp, ForcedExitOp, TransferOp, WithdrawOp};
use crate::tokens::{ChangePubKeyFeeType, ChangePubKeyFeeTypeArg, TokenLike, TxFeeTypes};
use crate::tx::{time_range_ok, ChangePubKey, ChangePubKeyAuth, Close, Exchange, ForcedExit, Transfer, Withdraw};
use crate::zkdpos_op::ZkDposOp;

verus! {

/// A layer-2 transaction.
#[derive(Clone, Copy, Debug)]
pub enum ZkDposTx {
    Transfer(Transfer),
    Withdraw(Withdraw),
    Exchange(Exchange),
    /// Disabled; kept for history.
    Close(Close),
    ChangePubKey(ChangePubKey),
    ForcedExit(ForcedExit),
}

impl ChangePubKey {
    /// Fee kind of this key change.
    pub fn get_fee_type(&self) -> (r: ChangePubKeyFeeTypeArg)
        ensures
            r == ChangePubKeyFeeTypeArg::ContractsV4Version(match self.auth {
                ChangePubKeyAuth::Onchain => ChangePubKeyFeeType::Onchain,
                ChangePubKeyAuth::ECDSA => ChangePubKeyFeeType::ECDSA,
                ChangePubKeyAuth::CREATE2 => ChangePubKeyFeeType::CREATE2,
            }),
    {
        ChangePubKeyFeeTypeArg::ContractsV4Version(match self.auth {
            ChangePubKeyAuth::Onchain => ChangePubKeyFeeType::Onchain,
            ChangePubKeyAuth::ECDSA => ChangePubKeyFeeType::ECDSA,
            ChangePubKeyAuth::CREATE2 => ChangePubKeyFeeType::CREATE2,
        })
    }
}

impl Close {
    pub open spec fn correct(&self) -> bool {
        time_range_ok(self.time_range)
    }
}

impl ZkDposTx {
    /// Address of the account the transaction acts for.
    pub fn account(&self) -> (r: Address)
        ensures
            r == match *self {
                ZkDposTx::Transfer(tx) => tx.from,
                ZkDposTx::Exchange(tx) => tx.from,
                ZkDposTx::Withdraw(tx) => tx.from,
                ZkDposTx::Close(tx) => tx.account,
                ZkDposTx::ChangePubKey(tx) => tx.account,
                ZkDposTx::ForcedExit(tx) => tx.target,
            },
    {
        match self {
            ZkDposTx::Transfer(tx) => tx.from,
            ZkDposTx::Exchange(tx) => tx.from,
            ZkDposTx::Withdraw(tx) => tx.from,
            ZkDposTx::Close(tx) => tx.account,
            ZkDposTx::ChangePubKey(tx) => tx.account,
            ZkDposTx::ForcedExit(tx) => tx.target,
        }
    }

    /// Id of the account that signs; a close has none.
    pub fn account_id(&self) -> (r: Option<AccountId>)
        ensures
            r == match *self {
                ZkDposTx::Transfer(tx) => Some(tx.account_id),
                ZkDposTx::Exchange(tx) => Some(tx.account_id),
                ZkDposTx::Withdraw(tx) => Some(tx.account_id),
                ZkDposTx::ChangePubKey(tx) => Some(tx.account_id),
                ZkDposTx::ForcedExit(tx) => Some(tx.initiator_account_id),
                ZkDposTx::Close(_) => None,
            },
    {
        match self {
            ZkDposTx::Transfer(tx) => Some(tx.account_id),
            ZkDposTx::Exchange(tx) => Some(tx.account_id),
            ZkDposTx::Withdraw(tx) => Some(tx.account_id),
            ZkDposTx::ChangePubKey(tx) => Some(tx.account_id),
            ZkDposTx::ForcedExit(tx) => Some(tx.initiator_account_id),
            ZkDposTx::Close(_) => None,
        }
    }

    /// Nonce of the transaction.
    pub fn nonce(&self) -> (r: Nonce)
        ensures
            r == match *self {
                ZkDposTx::Transfer(tx) => tx.nonce,
                ZkDposTx::Exchange(tx) => tx.nonce,
                ZkDposTx::Withdraw(tx) => tx.nonce,
                ZkDposTx::Close(tx) => tx.nonce,
                ZkDposTx::ChangePubKey(tx) => tx.nonce,
                ZkDposTx::ForcedExit(tx) => tx.nonce,
            },
    {
        match self {
            ZkDposTx::Transfer(tx) => tx.nonce,
            ZkDposTx::Exchange(tx) => tx.nonce,
            ZkDposTx::Withdraw(tx) => tx.nonce,
            ZkDposTx::Close(tx) => tx.nonce,
            ZkDposTx::ChangePubKey(tx) => tx.nonce,
            ZkDposTx::ForcedExit(tx) => tx.nonce,
        }
    }

    /// Token the fee is paid in; the native coin for a close.
    pub fn token_id(&self) -> (r: TokenId)
        ensures
            r == match *self {
                ZkDposTx::Transfer(tx) => tx.token,
                ZkDposTx::Exchange(tx) => tx.token_a,
                ZkDposTx::Withdraw(tx) => tx.token,
                ZkDposTx::Close(_) => TokenId(ATP_TOKEN_ID),
                ZkDposTx::ChangePubKey(tx) => tx.fee_token,
                ZkDposTx::ForcedExit(tx) => tx.token,
            },
    {
        match self {
            ZkDposTx::Transfer(tx) => tx.token,
            ZkDposTx::Exchange(tx) => tx.token_a,
            ZkDposTx::Withdraw(tx) => tx.token,
            ZkDposTx::Close(_) => TokenId(ATP_TOKEN_ID),
            ZkDposTx::ChangePubKey(tx) => tx.fee_token,
            ZkDposTx::ForcedExit(tx) => tx.token,
        }
    }

    pub open spec fn correct(&self) -> bool {
        match *self {
            ZkDposTx::Transfer(tx) => tx.correct(),
            ZkDposTx::Exchange(tx) => tx.correct(),
            ZkDposTx::Withdraw(tx) => tx.correct(),
            ZkDposTx::Close(tx) => tx.correct(),
            ZkDposTx::ChangePubKey(tx) => tx.correct(),
            ZkDposTx::ForcedExit(tx) => tx.correct(),
        }
    }

    /// Field checks of the transaction's kind: ids and tokens in range,
    /// amounts and fees packable, a consistent time range.
    pub fn check_correctness(&self) -> (r: bool)
        ensures
            r == self.correct(),
    {
        match self {
            ZkDposTx::Transfer(tx) => tx.check_correctness(),
            ZkDposTx::Exchange(tx) => tx.check_correctness(),
            ZkDposTx::Withdraw(tx) => tx.check_correctness(),
            ZkDposTx::Close(tx) => match tx.time_range {
                Some(t) => t.valid_from <= t.valid_until,
                None => true,
            },
            ZkDposTx::ChangePubKey(tx) => tx.check_correctness(),
            ZkDposTx::ForcedExit(tx) => tx.check_correctness(),
        }
    }

    /// Fewest block chunks the transaction's operation takes.
    pub fn min_chunks(&self) -> (r: usize)
        ensures
            r == match *self {
                ZkDposTx::Transfer(_) => 2usize,
                ZkDposTx::Exchange(_) => 2,
                ZkDposTx::Withdraw(_) => 6,
                ZkDposTx::Close(_) => 1,
                ZkDposTx::ChangePubKey(_) => 6,
                ZkDposTx::ForcedExit(_) => 6,
            },
    {
        match self {
            ZkDposTx::Transfer(_) => TransferOp::CHUNKS,
            ZkDposTx::Exchange(_) => TransferOp::CHUNKS,
            ZkDposTx::Withdraw(_) => WithdrawOp::CHUNKS,
            ZkDposTx::Close(_) => CloseOp::CHUNKS,
            ZkDposTx::ChangePubKey(_) => ChangePubKeyOp::CHUNKS,
            ZkDposTx::ForcedExit(_) => ForcedExitOp::CHUNKS,
        }
    }

    /// The message that the transaction's signature covers.
    pub fn get_bytes(&self) -> (r: Vec<u8>)
        ensures
            r@ == match *self {
                ZkDposTx::Transfer(tx) => tx.bytes(),
                ZkDposTx::Exchange(tx) => tx.bytes(),
                ZkDposTx::Withdraw(tx) => tx.bytes(),
                ZkDposTx::Close(tx) => tx.bytes(),
                ZkDposTx::ChangePubKey(tx) => tx.bytes(),
                ZkDposTx::ForcedExit(tx) => tx.bytes(),
            },
    {
        match self {
            ZkDposTx::Transfer(tx) => tx.get_bytes(),
            ZkDposTx::Exchange(tx) => tx.get_bytes(),
            ZkDposTx::Withdraw(tx) => tx.get_bytes(),
            ZkDposTx::Close(tx) => tx.get_bytes(),
            ZkDposTx::ChangePubKey(tx) => tx.get_bytes(),
            ZkDposTx::ForcedExit(tx) => tx.get_bytes(),
        }
    }

    /// Whether the transaction pays out on the base chain.
    pub fn is_withdraw(&self) -> (r: bool)
        ensures
            r == (self is Withdraw || self is ForcedExit),
    {
        match self {
            ZkDposTx::Withdraw(_) | ZkDposTx::ForcedExit(_) => true,
            _ => false,
        }
    }

    /// Whether the transaction is a close.
    pub fn is_close(&self) -> (r: bool)
        ensures
            r == (self is Close),
    {
        match self {
            ZkDposTx::Close(_) => true,
            _ => false,
        }
    }

    /// Fee kind, fee token, the address concerned and the fee; `None` for
    /// kinds that pay no fee here.
    pub fn get_fee_info(&self) -> (r: Option<(TxFeeTypes, TokenLike, Address, u128)>)
        ensures
            match *self {
                ZkDposTx::Withdraw(w) => r matches Some((kind, TokenLike::Id(t), a, fee)) && kind == (if w.fast {
                    TxFeeTypes::FastWithdraw
                } else {
                    TxFeeTypes::Withdraw
                }) && t == w.token && a == w.to && fee == w.fee,
                ZkDposTx::ForcedExit(f) => r matches Some((kind, TokenLike::Id(t), a, fee)) && kind == TxFeeTypes::Withdraw
                    && t == f.token && a == f.target && fee == f.fee,
                ZkDposTx::Transfer(x) => r matches Some((kind, TokenLike::Id(t), a, fee)) && kind == TxFeeTypes::Transfer
                    && t == x.token && a == x.to && fee == x.fee,
                ZkDposTx::ChangePubKey(c) => r matches Some((TxFeeTypes::ChangePubKey(arg), TokenLike::Id(t), a, fee))
                    && arg == ChangePubKeyFeeTypeArg::ContractsV4Version(match c.auth {
                        ChangePubKeyAuth::Onchain => ChangePubKeyFeeType::Onchain,
                        ChangePubKeyAuth::ECDSA => ChangePubKeyFeeType::ECDSA,
                        ChangePubKeyAuth::CREATE2 => ChangePubKeyFeeType::CREATE2,
                    }) && t == c.fee_token && a == c.account && fee == c.fee,
                _ => r is None,
            },
    {
        match self {
            ZkDposTx::Withdraw(withdraw) => {
                let fee_type = if withdraw.fast {
                    TxFeeTypes::FastWithdraw
                } else {
                    TxFeeTypes::Withdraw
                };
                Some((fee_type, TokenLike::Id(withdraw.token), withdraw.to, withdraw.fee))
            },
            ZkDposTx::ForcedExit(forced_exit) => Some((
                TxFeeTypes::Withdraw,
                TokenLike::Id(forced_exit.token),
                forced_exit.target,
                forced_exit.fee,
            )),
            ZkDposTx::Transfer(transfer) => Some((TxFeeTypes::Transfer, TokenLike::Id(transfer.token), transfer.to, transfer.fee)),
            ZkDposTx::ChangePubKey(change_pubkey) => Some((
                TxFeeTypes::ChangePubKey(change_pubkey.get_fee_type()),
                TokenLike::Id(change_pubkey.fee_token),
                change_pubkey.account,
                change_pubkey.fee,
            )),
            _ => None,
        }
    }

    /// First moment (unix seconds) at which the transaction is valid; zero without a time range.
    pub fn valid_from(&self) -> (r: u64)
        ensures
            r == match *self {
                ZkDposTx::Transfer(tx) => match tx.time_range { Some(t) => t.valid_from, None => 0 },
                ZkDposTx::Exchange(tx) => match tx.time_range { Some(t) => t.valid_from, None => 0 },
                ZkDposTx::Withdraw(tx) => match tx.time_range { Some(t) => t.valid_from, None => 0 },
                ZkDposTx::ChangePubKey(tx) => match tx.time_range { Some(t) => t.valid_from, None => 0 },
                ZkDposTx::ForcedExit(tx) => match tx.time_range { Some(t) => t.valid_from, None => 0 },
                ZkDposTx::Close(tx) => match tx.time_range { Some(t) => t.valid_from, None => 0 },
            },
    {
        let range = match self {
            ZkDposTx::Transfer(tx) => tx.time_range,
            ZkDposTx::Exchange(tx) => tx.time_range,
            ZkDposTx::Withdraw(tx) => tx.time_range,
            ZkDposTx::ChangePubKey(tx) => tx.time_range,
            ZkDposTx::ForcedExit(tx) => tx.time_range,
            ZkDposTx::Close(tx) => tx.time_range,
        };
        match range {
            Some(t) => t.valid_from,
            None => 0,
        }
    }
}

impl ZkDposOp {
    /// The layer-2 transaction of the operation, for the kinds that have one.
    pub fn try_get_tx(&self) -> (r: Option<ZkDposTx>)
        ensures
            r == match *self {
                ZkDposOp::Transfer(op) => Some(ZkDposTx::Transfer(op.tx)),
                ZkDposOp::TransferToNew(op) => Some(ZkDposTx::Transfer(op.tx)),
                ZkDposOp::Withdraw(op) => Some(ZkDposTx::Withdraw(op.tx)),
                ZkDposOp::Close(op) => Some(ZkDposTx::Close(op.tx)),
                ZkDposOp::ChangePubKeyOffchain(op) => Some(ZkDposTx::ChangePubKey(op.tx)),
                ZkDposOp::ForcedExit(op) => Some(ZkDposTx::ForcedExit(op.tx)),
                ZkDposOp::Exchange(op) => Some(ZkDposTx::Exchange(op.tx)),
                _ => None,
            },
    {
        match self {
            ZkDposOp::Transfer(op) => Some(ZkDposTx::Transfer(op.tx)),
            ZkDposOp::TransferToNew(op) => Some(ZkDposTx::Transfer(op.tx)),
            ZkDposOp::Withdraw(op) => Some(ZkDposTx::Withdraw(op.tx)),
            ZkDposOp::Close(op) => Some(ZkDposTx::Close(op.tx)),
            ZkDposOp::ChangePubKeyOffchain(op) => Some(ZkDposTx::ChangePubKey(op.tx)),
            ZkDposOp::ForcedExit(op) => Some(ZkDposTx::ForcedExit(op.tx)),
            ZkDposOp::Exchange(op) => Some(ZkDposTx::Exchange(op.tx)),
            _ => None,
        }
    }
}

} // verus!
