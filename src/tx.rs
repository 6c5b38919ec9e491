//! Layer-2 transactions as users submit them.
//!
//! Signatures are checked by the signing capability outside this crate; the
//! handlers receive the key hash that a transaction's signature recovers to.

use vstd::prelude::*;
use crate::basic::{AccountId, Address, Nonce, PubKeyHash, TokenId, MAX_ACCOUNT_ID, MAX_TOKEN_ID};
use crate::bytes::{be_bytes, push_all, push_be};
use crate::packing::{amount_packable, amount_packed, fee_packable, fee_packed, is_fee_amount_packable, is_token_amount_packable, pack_fee_amount, pack_token_amount};

verus! {

/// Interval of block timestamps in which a transaction is valid.
#[derive(Clone, Copy, Debug, PartialEq, Eq, Structural)]
pub struct TimeRange {
    pub valid_from: u64,
    pub valid_until: u64,
}

pub open spec fn time_range_ok(r: Option<TimeRange>) -> bool {
    match r {
        Some(t) => t.valid_from <= t.valid_until,
        None => true,
    }
}

/// Bytes of a time range in a signed message: both bounds, eight bytes each.
pub open spec fn time_range_bytes(r: Option<TimeRange>) -> Seq<u8> {
    match r {
        Some(t) => be_bytes(t.valid_from as nat, 8) + be_bytes(t.valid_until as nat, 8),
        None => Seq::empty(),
    }
}

fn push_time_range(out: &mut Vec<u8>, r: &Option<TimeRange>)
    ensures
        final(out)@ == old(out)@ + time_range_bytes(*r),
{
    match r {
        Some(t) => {
            push_be(out, t.valid_from as u128, 8);
            push_be(out, t.valid_until as u128, 8);
            assert(final(out)@ =~= old(out)@ + time_range_bytes(*r));
        },
        None => {
            assert(final(out)@ =~= old(out)@ + time_range_bytes(*r));
        },
    }
}

fn push_amount(out: &mut Vec<u8>, x: u128)
    ensures
        final(out)@ == old(out)@ + amount_packed(x as nat),
{
    let packed = pack_token_amount(x);
    push_all(out, packed.as_slice());
}

fn push_fee(out: &mut Vec<u8>, x: u128)
    ensures
        final(out)@ == old(out)@ + fee_packed(x as nat),
{
    let packed = pack_fee_amount(x);
    push_all(out, packed.as_slice());
}

fn check_time_range(r: &Option<TimeRange>) -> (ok: bool)
    ensures
        ok == time_range_ok(*r),
{
    match r {
        Some(t) => t.valid_from <= t.valid_until,
        None => true,
    }
}

/// Moves funds from one account to another.
#[derive(Clone, Copy, Debug)]
pub struct Transfer {
    pub account_id: AccountId,
    pub from: Address,
    pub to: Address,
    pub token: TokenId,
    pub amount: u128,
    pub fee: u128,
    pub nonce: Nonce,
    pub time_range: Option<TimeRange>,
}

/// Moves funds from an account to an address on the base chain.
#[derive(Clone, Copy, Debug)]
pub struct Withdraw {
    pub account_id: AccountId,
    pub from: Address,
    pub to: Address,
    pub token: TokenId,
    pub amount: u128,
    pub fee: u128,
    pub nonce: Nonce,
    /// Whether the payout is processed without waiting for a full block.
    pub fast: bool,
    pub time_range: Option<TimeRange>,
}

/// Withdraws the whole balance of a locked target account, paid by an initiator.
#[derive(Clone, Copy, Debug)]
pub struct ForcedExit {
    pub initiator_account_id: AccountId,
    pub target: Address,
    pub token: TokenId,
    pub fee: u128,
    pub nonce: Nonce,
    pub time_range: Option<TimeRange>,
}

/// How the base-chain owner authorised a new signing key.
#[derive(Clone, Copy, Debug, PartialEq, Eq, Structural)]
pub enum ChangePubKeyAuth {
    Onchain,
    ECDSA,
    CREATE2,
}

/// Sets the signing-key hash of an account.
#[derive(Clone, Copy, Debug)]
pub struct ChangePubKey {
    pub account_id: AccountId,
    pub account: Address,
    pub new_pk_hash: PubKeyHash,
    pub fee_token: TokenId,
    pub fee: u128,
    pub nonce: Nonce,
    pub auth: ChangePubKeyAuth,
    pub time_range: Option<TimeRange>,
}

/// Removes an empty account. Disabled: kept for replaying history.
#[derive(Clone, Copy, Debug)]
pub struct Close {
    pub account: Address,
    pub nonce: Nonce,
    pub time_range: Option<TimeRange>,
}

/// Exchanges `amount_a` of `token_a` for `amount_b` of `token_b` on one account.
#[derive(Clone, Copy, Debug)]
pub struct Exchange {
    pub account_id: AccountId,
    pub from: Address,
    pub token_a: TokenId,
    pub token_b: TokenId,
    pub amount_a: u128,
    pub amount_b: u128,
    pub price: u128,
    pub fee: u128,
    pub nonce: Nonce,
    pub time_range: Option<TimeRange>,
}

/// Adds liquidity to a pool; `RemoveLiquidity` has the same fields.
#[derive(Clone, Copy, Debug)]
pub struct AddLiquidity {
    pub account_id: AccountId,
    pub liquidity_id: u16,
    pub to: Address,
    pub amount_a_desired: u128,
    pub amount_b_desired: u128,
    pub amount_a_min: u128,
    pub amount_b_min: u128,
    pub token: TokenId,
    pub fee_a: u128,
    pub fee_b: u128,
    pub nonce: Nonce,
    pub time_range: Option<TimeRange>,
}

/// Removes liquidity from a pool.
#[derive(Clone, Copy, Debug)]
pub struct RemoveLiquidity {
    pub account_id: AccountId,
    pub liquidity_id: u16,
    pub to: Address,
    pub amount_a_desired: u128,
    pub amount_b_desired: u128,
    pub amount_a_min: u128,
    pub amount_b_min: u128,
    pub token: TokenId,
    pub fee_a: u128,
    pub fee_b: u128,
    pub nonce: Nonce,
    pub time_range: Option<TimeRange>,
}

impl Transfer {
    pub open spec fn correct(&self) -> bool {
        &&& amount_packable(self.amount as nat)
        &&& fee_packable(self.fee as nat)
        &&& self.account_id.0 <= MAX_ACCOUNT_ID
        &&& self.token.0 <= MAX_TOKEN_ID
        &&& time_range_ok(self.time_range)
    }

    /// Field checks done before a transaction is signed or accepted.
    pub fn check_correctness(&self) -> (r: bool)
        ensures
            r == self.correct(),
    {
        is_token_amount_packable(self.amount) && is_fee_amount_packable(self.fee)
            && self.account_id.0 <= MAX_ACCOUNT_ID && self.token.0 <= MAX_TOKEN_ID
            && check_time_range(&self.time_range)
    }
}

impl Withdraw {
    pub open spec fn correct(&self) -> bool {
        &&& fee_packable(self.fee as nat)
        &&& self.account_id.0 <= MAX_ACCOUNT_ID
        &&& self.token.0 <= MAX_TOKEN_ID
        &&& time_range_ok(self.time_range)
    }

    /// Field checks done before a transaction is signed or accepted.
    pub fn check_correctness(&self) -> (r: bool)
        ensures
            r == self.correct(),
    {
        is_fee_amount_packable(self.fee) && self.account_id.0 <= MAX_ACCOUNT_ID
            && self.token.0 <= MAX_TOKEN_ID && check_time_range(&self.time_range)
    }
}

impl ForcedExit {
    pub open spec fn correct(&self) -> bool {
        &&& fee_packable(self.fee as nat)
        &&& self.initiator_account_id.0 <= MAX_ACCOUNT_ID
        &&& self.token.0 <= MAX_TOKEN_ID
        &&& time_range_ok(self.time_range)
    }

    /// Field checks done before a transaction is signed or accepted.
    pub fn check_correctness(&self) -> (r: bool)
        ensures
            r == self.correct(),
    {
        is_fee_amount_packable(self.fee) && self.initiator_account_id.0 <= MAX_ACCOUNT_ID
            && self.token.0 <= MAX_TOKEN_ID && check_time_range(&self.time_range)
    }
}

impl ChangePubKey {
    pub open spec fn correct(&self) -> bool {
        &&& fee_packable(self.fee as nat)
        &&& self.account_id.0 <= MAX_ACCOUNT_ID
        &&& self.fee_token.0 <= MAX_TOKEN_ID
        &&& time_range_ok(self.time_range)
    }

    /// Field checks done before a transaction is signed or accepted.
    pub fn check_correctness(&self) -> (r: bool)
        ensures
            r == self.correct(),
    {
        is_fee_amount_packable(self.fee) && self.account_id.0 <= MAX_ACCOUNT_ID
            && self.fee_token.0 <= MAX_TOKEN_ID && check_time_range(&self.time_range)
    }

    /// Whether the key change was authorised by a base-chain signature.
    pub fn is_ecdsa(&self) -> (r: bool)
        ensures
            r == (self.auth == ChangePubKeyAuth::ECDSA),
    {
        match self.auth {
            ChangePubKeyAuth::ECDSA => true,
            _ => false,
        }
    }

    /// Whether the key change was authorised by a base-chain transaction.
    pub fn is_onchain(&self) -> (r: bool)
        ensures
            r == (self.auth == ChangePubKeyAuth::Onchain),
    {
        match self.auth {
            ChangePubKeyAuth::Onchain => true,
            _ => false,
        }
    }
}

impl Exchange {
    pub open spec fn correct(&self) -> bool {
        &&& amount_packable(self.amount_a as nat)
        &&& amount_packable(self.amount_b as nat)
        &&& fee_packable(self.price as nat)
        &&& fee_packable(self.fee as nat)
        &&& self.account_id.0 <= MAX_ACCOUNT_ID
        &&& self.token_a.0 <= MAX_TOKEN_ID
        &&& self.token_b.0 <= MAX_TOKEN_ID
        &&& time_range_ok(self.time_range)
    }

    /// Field checks done before a transaction is signed or accepted.
    pub fn check_correctness(&self) -> (r: bool)
        ensures
            r == self.correct(),
    {
        is_token_amount_packable(self.amount_a) && is_token_amount_packable(self.amount_b)
            && is_fee_amount_packable(self.price) && is_fee_amount_packable(self.fee)
            && self.account_id.0 <= MAX_ACCOUNT_ID && self.token_a.0 <= MAX_TOKEN_ID
            && self.token_b.0 <= MAX_TOKEN_ID && check_time_range(&self.time_range)
    }
}

impl AddLiquidity {
    pub open spec fn correct(&self) -> bool {
        &&& amount_packable(self.amount_a_desired as nat)
        &&& amount_packable(self.amount_b_desired as nat)
        &&& amount_packable(self.amount_a_min as nat)
        &&& amount_packable(self.amount_b_min as nat)
        &&& fee_packable(self.fee_a as nat)
        &&& fee_packable(self.fee_b as nat)
        &&& self.account_id.0 <= MAX_ACCOUNT_ID
        &&& self.token.0 <= MAX_TOKEN_ID
        &&& time_range_ok(self.time_range)
    }

    /// Field checks done before a transaction is signed or accepted.
    pub fn check_correctness(&self) -> (r: bool)
        ensures
            r == self.correct(),
    {
        is_token_amount_packable(self.amount_a_desired) && is_token_amount_packable(
            self.amount_b_desired,
        ) && is_token_amount_packable(self.amount_a_min) && is_token_amount_packable(
            self.amount_b_min,
        ) && is_fee_amount_packable(self.fee_a) && is_fee_amount_packable(self.fee_b)
            && self.account_id.0 <= MAX_ACCOUNT_ID && self.token.0 <= MAX_TOKEN_ID
            && check_time_range(&self.time_range)
    }
}

impl RemoveLiquidity {
    pub open spec fn correct(&self) -> bool {
        &&& amount_packable(self.amount_a_desired as nat)
        &&& amount_packable(self.amount_b_desired as nat)
        &&& amount_packable(self.amount_a_min as nat)
        &&& amount_packable(self.amount_b_min as nat)
        &&& fee_packable(self.fee_a as nat)
        &&& fee_packable(self.fee_b as nat)
        &&& self.account_id.0 <= MAX_ACCOUNT_ID
        &&& self.token.0 <= MAX_TOKEN_ID
        &&& time_range_ok(self.time_range)
    }

    /// Field checks done before a transaction is signed or accepted.
    pub fn check_correctness(&self) -> (r: bool)
        ensures
            r == self.correct(),
    {
        is_token_amount_packable(self.amount_a_desired) && is_token_amount_packable(
            self.amount_b_desired,
        ) && is_token_amount_packable(self.amount_a_min) && is_token_amount_packable(
            self.amount_b_min,
        ) && is_fee_amount_packable(self.fee_a) && is_fee_amount_packable(self.fee_b)
            && self.account_id.0 <= MAX_ACCOUNT_ID && self.token.0 <= MAX_TOKEN_ID
            && check_time_range(&self.time_range)
    }
}

impl Transfer {
    pub const TX_TYPE: u8 = 5;

    pub open spec fn bytes(&self) -> Seq<u8> {
        seq![Self::TX_TYPE] + be_bytes(self.account_id.0 as nat, 4) + self.from@ + self.to@ + be_bytes(self.token.0 as nat, 2)
            + amount_packed(self.amount as nat) + fee_packed(self.fee as nat) + be_bytes(self.nonce.0 as nat, 4)
            + time_range_bytes(self.time_range)
    }

    /// The message that the transaction's signature covers.
    pub fn get_bytes(&self) -> (r: Vec<u8>)
        ensures
            r@ == self.bytes(),
    {
        let mut out: Vec<u8> = Vec::new();
        out.push(Self::TX_TYPE);
        push_be(&mut out, self.account_id.0 as u128, 4);
        push_all(&mut out, &self.from.0);
        push_all(&mut out, &self.to.0);
        push_be(&mut out, self.token.0 as u128, 2);
        push_amount(&mut out, self.amount);
        push_fee(&mut out, self.fee);
        push_be(&mut out, self.nonce.0 as u128, 4);
        push_time_range(&mut out, &self.time_range);
        assert(out@ =~= self.bytes());
        out
    }
}

impl Withdraw {
    pub const TX_TYPE: u8 = 3;

    pub open spec fn bytes(&self) -> Seq<u8> {
        seq![Self::TX_TYPE] + be_bytes(self.account_id.0 as nat, 4) + self.from@ + self.to@ + be_bytes(self.token.0 as nat, 2)
            + be_bytes(self.amount as nat, 16) + fee_packed(self.fee as nat) + be_bytes(self.nonce.0 as nat, 4)
            + time_range_bytes(self.time_range)
    }

    /// The message that the transaction's signature covers.
    pub fn get_bytes(&self) -> (r: Vec<u8>)
        ensures
            r@ == self.bytes(),
    {
        let mut out: Vec<u8> = Vec::new();
        out.push(Self::TX_TYPE);
        push_be(&mut out, self.account_id.0 as u128, 4);
        push_all(&mut out, &self.from.0);
        push_all(&mut out, &self.to.0);
        push_be(&mut out, self.token.0 as u128, 2);
        push_be(&mut out, self.amount, 16);
        push_fee(&mut out, self.fee);
        push_be(&mut out, self.nonce.0 as u128, 4);
        push_time_range(&mut out, &self.time_range);
        assert(out@ =~= self.bytes());
        out
    }
}

impl ForcedExit {
    pub const TX_TYPE: u8 = 8;

    pub open spec fn bytes(&self) -> Seq<u8> {
        seq![Self::TX_TYPE] + be_bytes(self.initiator_account_id.0 as nat, 4) + self.target@ + be_bytes(self.token.0 as nat, 2)
            + fee_packed(self.fee as nat) + be_bytes(self.nonce.0 as nat, 4) + time_range_bytes(self.time_range)
    }

    /// The message that the transaction's signature covers.
    pub fn get_bytes(&self) -> (r: Vec<u8>)
        ensures
            r@ == self.bytes(),
    {
        let mut out: Vec<u8> = Vec::new();
        out.push(Self::TX_TYPE);
        push_be(&mut out, self.initiator_account_id.0 as u128, 4);
        push_all(&mut out, &self.target.0);
        push_be(&mut out, self.token.0 as u128, 2);
        push_fee(&mut out, self.fee);
        push_be(&mut out, self.nonce.0 as u128, 4);
        push_time_range(&mut out, &self.time_range);
        assert(out@ =~= self.bytes());
        out
    }
}

impl ChangePubKey {
    pub const TX_TYPE: u8 = 7;

    pub open spec fn bytes(&self) -> Seq<u8> {
        seq![Self::TX_TYPE] + be_bytes(self.account_id.0 as nat, 4) + self.account@ + self.new_pk_hash.0@
            + be_bytes(self.fee_token.0 as nat, 2) + fee_packed(self.fee as nat) + be_bytes(self.nonce.0 as nat, 4)
            + time_range_bytes(self.time_range)
    }

    /// The message that the transaction's signature covers.
    pub fn get_bytes(&self) -> (r: Vec<u8>)
        ensures
            r@ == self.bytes(),
    {
        let mut out: Vec<u8> = Vec::new();
        out.push(Self::TX_TYPE);
        push_be(&mut out, self.account_id.0 as u128, 4);
        push_all(&mut out, &self.account.0);
        push_all(&mut out, &self.new_pk_hash.0);
        push_be(&mut out, self.fee_token.0 as u128, 2);
        push_fee(&mut out, self.fee);
        push_be(&mut out, self.nonce.0 as u128, 4);
        push_time_range(&mut out, &self.time_range);
        assert(out@ =~= self.bytes());
        out
    }
}

impl Close {
    pub const TX_TYPE: u8 = 4;

    pub open spec fn bytes(&self) -> Seq<u8> {
        seq![Self::TX_TYPE] + self.account@ + be_bytes(self.nonce.0 as nat, 4) + time_range_bytes(self.time_range)
    }

    /// The message that the transaction's signature covers.
    pub fn get_bytes(&self) -> (r: Vec<u8>)
        ensures
            r@ == self.bytes(),
    {
        let mut out: Vec<u8> = Vec::new();
        out.push(Self::TX_TYPE);
        push_all(&mut out, &self.account.0);
        push_be(&mut out, self.nonce.0 as u128, 4);
        push_time_range(&mut out, &self.time_range);
        assert(out@ =~= self.bytes());
        out
    }
}

impl Exchange {
    pub const TX_TYPE: u8 = 5;

    pub open spec fn bytes(&self) -> Seq<u8> {
        seq![Self::TX_TYPE] + be_bytes(self.account_id.0 as nat, 4) + self.from@ + be_bytes(self.token_a.0 as nat, 2)
            + be_bytes(self.token_b.0 as nat, 2) + amount_packed(self.amount_a as nat) + amount_packed(self.amount_b as nat)
            + fee_packed(self.price as nat) + fee_packed(self.fee as nat) + be_bytes(self.nonce.0 as nat, 4)
            + time_range_bytes(self.time_range)
    }

    /// The message that the transaction's signature covers.
    pub fn get_bytes(&self) -> (r: Vec<u8>)
        ensures
            r@ == self.bytes(),
    {
        let mut out: Vec<u8> = Vec::new();
        out.push(Self::TX_TYPE);
        push_be(&mut out, self.account_id.0 as u128, 4);
        push_all(&mut out, &self.from.0);
        push_be(&mut out, self.token_a.0 as u128, 2);
        push_be(&mut out, self.token_b.0 as u128, 2);
        push_amount(&mut out, self.amount_a);
        push_amount(&mut out, self.amount_b);
        push_fee(&mut out, self.price);
        push_fee(&mut out, self.fee);
        push_be(&mut out, self.nonce.0 as u128, 4);
        push_time_range(&mut out, &self.time_range);
        assert(out@ =~= self.bytes());
        out
    }
}

impl AddLiquidity {
    pub const TX_TYPE: u8 = 5;

    pub open spec fn bytes(&self) -> Seq<u8> {
        seq![Self::TX_TYPE] + be_bytes(self.account_id.0 as nat, 4) + self.to@ + amount_packed(self.amount_a_desired as nat)
            + amount_packed(self.amount_b_desired as nat) + amount_packed(self.amount_a_min as nat)
            + amount_packed(self.amount_b_min as nat) + fee_packed(self.fee_a as nat) + fee_packed(self.fee_b as nat)
            + be_bytes(self.nonce.0 as nat, 4) + time_range_bytes(self.time_range)
    }

    /// The message that the transaction's signature covers.
    pub fn get_bytes(&self) -> (r: Vec<u8>)
        ensures
            r@ == self.bytes(),
    {
        let mut out: Vec<u8> = Vec::new();
        out.push(Self::TX_TYPE);
        push_be(&mut out, self.account_id.0 as u128, 4);
        push_all(&mut out, &self.to.0);
        push_amount(&mut out, self.amount_a_desired);
        push_amount(&mut out, self.amount_b_desired);
        push_amount(&mut out, self.amount_a_min);
        push_amount(&mut out, self.amount_b_min);
        push_fee(&mut out, self.fee_a);
        push_fee(&mut out, self.fee_b);
        push_be(&mut out, self.nonce.0 as u128, 4);
        push_time_range(&mut out, &self.time_range);
        assert(out@ =~= self.bytes());
        out
    }
}

impl RemoveLiquidity {
    pub const TX_TYPE: u8 = 5;

    pub open spec fn bytes(&self) -> Seq<u8> {
        seq![Self::TX_TYPE] + be_bytes(self.account_id.0 as nat, 4) + self.to@ + amount_packed(self.amount_a_desired as nat)
            + amount_packed(self.amount_b_desired as nat) + amount_packed(self.amount_a_min as nat)
            + amount_packed(self.amount_b_min as nat) + fee_packed(self.fee_a as nat) + fee_packed(self.fee_b as nat)
            + be_bytes(self.nonce.0 as nat, 4) + time_range_bytes(self.time_range)
    }

    /// The message that the transaction's signature covers.
    pub fn get_bytes(&self) -> (r: Vec<u8>)
        ensures
            r@ == self.bytes(),
    {
        let mut out: Vec<u8> = Vec::new();
        out.push(Self::TX_TYPE);
        push_be(&mut out, self.account_id.0 as u128, 4);
        push_all(&mut out, &self.to.0);
        push_amount(&mut out, self.amount_a_desired);
        push_amount(&mut out, self.amount_b_desired);
        push_amount(&mut out, self.amount_a_min);
        push_amount(&mut out, self.amount_b_min);
        push_fee(&mut out, self.fee_a);
        push_fee(&mut out, self.fee_b);
        push_be(&mut out, self.nonce.0 as u128, 4);
        push_time_range(&mut out, &self.time_range);
        assert(out@ =~= self.bytes());
        out
    }
}

} // verus!
