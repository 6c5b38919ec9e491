//! Accounts, their mathematical model, and the records of how an operation
//! changed them.

use vstd::prelude::*;
use crate::basic::{Address, Nonce, PubKeyHash, TokenId};

verus! {

/// What an account is: its address, nonce, signing-key hash and a balance
/// for every token id.
pub struct AccountModel {
    pub address: Seq<u8>,
    pub nonce: u32,
    pub pub_key_hash: Seq<u8>,
    pub balances: Map<u16, u128>,
}

/// The all-zero key hash: the account has no signing key ("locked").
pub open spec fn zero_hash() -> Seq<u8> {
    Seq::new(20, |i: int| 0u8)
}

/// A fresh account at `address`: nonce zero, no key, every balance zero.
pub open spec fn fresh_model(address: Seq<u8>) -> AccountModel {
    AccountModel {
        address,
        nonce: 0,
        pub_key_hash: zero_hash(),
        balances: Map::new(|t: u16| true, |t: u16| 0u128),
    }
}

/// `a` with the balance of `t` set to `v`.
pub open spec fn with_balance(a: AccountModel, t: u16, v: u128) -> AccountModel {
    AccountModel { balances: a.balances.insert(t, v), ..a }
}

/// `a` with nonce `n`.
pub open spec fn with_nonce(a: AccountModel, n: u32) -> AccountModel {
    AccountModel { nonce: n, ..a }
}

/// An account: balances are held densely by token id; ids past the end hold zero.
#[derive(Clone, Debug)]
pub struct Account {
    pub address: Address,
    pub nonce: Nonce,
    pub pub_key_hash: PubKeyHash,
    pub balances: Vec<u128>,
}

impl Account {
    pub open spec fn bal(&self, t: u16) -> u128 {
        if (t as int) < self.balances@.len() {
            self.balances@[t as int]
        } else {
            0
        }
    }

    pub open spec fn view(&self) -> AccountModel {
        AccountModel {
            address: self.address@,
            nonce: self.nonce.0,
            pub_key_hash: self.pub_key_hash.0@,
            balances: Map::new(|t: u16| true, |t: u16| self.bal(t)),
        }
    }

    /// A fresh account at `address`.
    pub fn default_with_address(address: &Address) -> (r: Account)
        ensures
            r@ == fresh_model(address@),
    {
        let r = Account {
            address: *address,
            nonce: Nonce(0),
            pub_key_hash: PubKeyHash([0u8; 20]),
            balances: Vec::new(),
        };
        assert(r.pub_key_hash.0@ =~= zero_hash());
        assert(r@.balances =~= fresh_model(address@).balances);
        r
    }

    /// A copy with the same model.
    pub fn duplicate(&self) -> (r: Account)
        ensures
            r@ == self@,
    {
        let mut balances: Vec<u128> = Vec::new();
        let mut i: usize = 0;
        while i < self.balances.len()
            invariant
                0 <= i <= self.balances@.len(),
                balances@ == self.balances@.subrange(0, i as int),
            decreases self.balances@.len() - i,
        {
            balances.push(self.balances[i]);
            i = i + 1;
            assert(balances@ =~= self.balances@.subrange(0, i as int));
        }
        assert(balances@ =~= self.balances@);
        let r = Account {
            address: self.address,
            nonce: self.nonce,
            pub_key_hash: self.pub_key_hash,
            balances,
        };
        assert(r@.balances =~= self@.balances);
        r
    }

    /// Balance of a token.
    pub fn get_balance(&self, token: TokenId) -> (r: u128)
        ensures
            r == self@.balances[token.0],
    {
        if (token.0 as usize) < self.balances.len() {
            self.balances[token.0 as usize]
        } else {
            0
        }
    }

    /// Sets the balance of a token.
    pub fn set_balance(&mut self, token: TokenId, v: u128)
        ensures
            final(self)@ == with_balance(old(self)@, token.0, v),
    {
        let t = token.0 as usize;
        while self.balances.len() <= t
            invariant
                forall|k: u16| #[trigger] self.bal(k) == old(self).bal(k),
                self.address == old(self).address,
                self.nonce == old(self).nonce,
                self.pub_key_hash == old(self).pub_key_hash,
            decreases t + 1 - self.balances@.len(),
        {
            let ghost before = *self;
            self.balances.push(0);
            assert forall|k: u16| #[trigger] self.bal(k) == old(self).bal(k) by {
                assert(before.bal(k) == old(self).bal(k));
                if (k as int) < before.balances@.len() {
                    assert(self.balances@[k as int] == before.balances@[k as int]);
                }
            }
        }
        let ghost before = *self;
        self.balances.set(t, v);
        assert forall|k: u16| #[trigger] self.bal(k) == (if k == token.0 { v } else { old(self).bal(k) }) by {
            assert(before.bal(k) == old(self).bal(k));
        }
        assert(final(self)@.balances =~= with_balance(old(self)@, token.0, v).balances);
    }

    /// Whether every balance is zero.
    pub fn is_empty(&self) -> (r: bool)
        ensures
            r == (forall|t: u16| #[trigger] self@.balances[t] == 0),
    {
        let mut i: usize = 0;
        while i < self.balances.len() && i < 0x10000
            invariant
                0 <= i <= self.balances@.len(),
                i <= 0x10000,
                forall|j: int| 0 <= j < i ==> self.balances@[j] == 0,
            decreases self.balances@.len() - i,
        {
            if self.balances[i] != 0 {
                assert(self@.balances[i as u16] != 0);
                return false;
            }
            i = i + 1;
        }
        assert forall|t: u16| #[trigger] self@.balances[t] == 0 by {
            if (t as int) < self.balances@.len() {
                assert((t as int) < i);
            }
        }
        true
    }
}

/// A change made to one account.
#[derive(Clone, Copy, Debug, PartialEq, Eq)]
pub enum AccountUpdate {
    /// The account was created.
    Create { address: Address, nonce: Nonce },
    /// The account was removed.
    Delete { address: Address, nonce: Nonce },
    /// One balance (token, old, new) and the nonce changed.
    UpdateBalance { old_nonce: Nonce, new_nonce: Nonce, balance_update: (TokenId, u128, u128) },
    /// The signing-key hash and the nonce changed.
    ChangePubKeyHash {
        old_pub_key_hash: PubKeyHash,
        new_pub_key_hash: PubKeyHash,
        old_nonce: Nonce,
        new_nonce: Nonce,
    },
}

/// Fee that the network took for one operation.
#[derive(Clone, Copy, Debug, PartialEq, Eq, Structural)]
pub struct CollectedFee {
    pub token: TokenId,
    pub amount: u128,
}

} // verus!
