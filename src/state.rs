//! The account ledger: a keyed store of accounts, owned by a single writer.

use vstd::prelude::*;
use crate::account::{with_balance, with_nonce, Account, AccountModel};
use crate::basic::{AccountId, Address, Nonce, PubKeyHash, TokenId, MAX_ACCOUNT_ID};

verus! {

/// No two accounts of `m` share an address.
pub open spec fn addresses_unique(m: Map<u32, AccountModel>) -> bool {
    forall|i: u32, j: u32| #[trigger] m.contains_key(i) && #[trigger] m.contains_key(j) && m[i].address == m[j].address ==> i == j
}

/// The account at `addr`, if any.
pub open spec fn owner_of(m: Map<u32, AccountModel>, addr: Seq<u8>) -> Option<u32> {
    if exists|id: u32| #[trigger] m.contains_key(id) && m[id].address == addr {
        Some(choose|id: u32| #[trigger] m.contains_key(id) && m[id].address == addr)
    } else {
        None
    }
}

/// Replacing an account by one at the same address keeps addresses unique.
pub proof fn lemma_unique_after_update(m: Map<u32, AccountModel>, id: u32, a: AccountModel)
    requires
        addresses_unique(m),
        m.contains_key(id),
        a.address == m[id].address,
    ensures
        addresses_unique(m.insert(id, a)),
{
    let m2 = m.insert(id, a);
    assert forall|i: u32, j: u32| #[trigger] m2.contains_key(i) && #[trigger] m2.contains_key(j) && m2[i].address == m2[j].address implies i == j by {
        assert(m.contains_key(i) && m.contains_key(j));
        assert(m2[i].address == m[i].address && m2[j].address == m[j].address);
    }
}

/// Under unique addresses, the owner of an address is the one account at it.
pub proof fn lemma_owner_of(m: Map<u32, AccountModel>, addr: Seq<u8>, id: u32)
    requires
        addresses_unique(m),
        m.contains_key(id),
        m[id].address == addr,
    ensures
        owner_of(m, addr) == Some(id),
{
    let c = choose|k: u32| #[trigger] m.contains_key(k) && m[k].address == addr;
    assert(m.contains_key(c) && m[c].address == addr);
}

/// The ledger. Slot `i` holds the account with id `i`, if there is one.
pub struct ZkDposState {
    pub accounts: Vec<Option<Account>>,
}

impl ZkDposState {
    pub open spec fn has(&self, id: u32) -> bool {
        (id as int) < self.accounts@.len() && self.accounts@[id as int] is Some
    }

    /// The ledger as a map from account id to account.
    pub open spec fn view(&self) -> Map<u32, AccountModel> {
        Map::new(|id: u32| self.has(id), |id: u32| self.accounts@[id as int]->Some_0@)
    }

    /// Ids stay within the account tree and no two accounts share an address.
    pub open spec fn wf(&self) -> bool {
        &&& self.accounts@.len() <= MAX_ACCOUNT_ID + 1
        &&& addresses_unique(self@)
    }

    /// An empty ledger.
    pub fn new() -> (r: ZkDposState)
        ensures
            r.wf(),
            r@ == Map::<u32, AccountModel>::empty(),
    {
        let r = ZkDposState { accounts: Vec::new() };
        assert(r@ =~= Map::<u32, AccountModel>::empty());
        r
    }

    /// A copy of the account with this id.
    pub fn get_account(&self, id: AccountId) -> (r: Option<Account>)
        ensures
            r is Some <==> self@.contains_key(id.0),
            r is Some ==> r->Some_0@ == self@[id.0],
    {
        if (id.0 as usize) < self.accounts.len() {
            match &self.accounts[id.0 as usize] {
                Some(a) => Some(a.duplicate()),
                None => None,
            }
        } else {
            None
        }
    }

    /// The first account (by id) with this address.
    pub fn get_account_by_address(&self, address: &Address) -> (r: Option<(AccountId, Account)>)
        requires
            self.wf(),
        ensures
            r is Some ==> {
                let (id, a) = r->Some_0;
                &&& self@.contains_key(id.0)
                &&& a@ == self@[id.0]
                &&& a@.address == address@
                &&& forall|j: u32| j < id.0 && #[trigger] self@.contains_key(j) ==> self@[j].address != address@
                &&& owner_of(self@, address@) == Some(id.0)
            },
            r is None ==> forall|id: u32| #[trigger] self@.contains_key(id) ==> self@[id].address != address@,
            r is None <==> owner_of(self@, address@) is None,
    {
        let mut i: usize = 0;
        while i < self.accounts.len()
            invariant
                0 <= i <= self.accounts@.len(),
                self.wf(),
                forall|id: u32| (id as int) < i && #[trigger] self.has(id) ==> self@[id].address != address@,
            decreases self.accounts@.len() - i,
        {
            match &self.accounts[i] {
                Some(a) => {
                    if a.address.equals(address) {
                        assert(self.has(i as u32));
                        proof {
                            lemma_owner_of(self@, address@, i as u32);
                        }
                        return Some((AccountId(i as u32), a.duplicate()));
                    }
                },
                None => {},
            }
            i = i + 1;
        }
        None
    }

    /// Id that the next created account receives.
    pub fn get_free_account_id(&self) -> (r: AccountId)
        requires
            self.wf(),
        ensures
            !self@.contains_key(r.0),
            r.0 as int == self.accounts@.len(),
    {
        AccountId(self.accounts.len() as u32)
    }

    /// Puts an account under an id, replacing what was there.
    pub fn insert_account(&mut self, id: AccountId, account: Account)
        requires
            old(self).wf(),
            id.0 <= MAX_ACCOUNT_ID,
            forall|j: u32| #[trigger] old(self)@.contains_key(j) && j != id.0 ==> old(self)@[j].address != account@.address,
        ensures
            final(self).wf(),
            final(self)@ == old(self)@.insert(id.0, account@),
    {
        let i = id.0 as usize;
        while self.accounts.len() <= i
            invariant
                self@ == old(self)@,
                self.accounts@.len() <= MAX_ACCOUNT_ID + 1,
                i <= MAX_ACCOUNT_ID,
            decreases i + 1 - self.accounts@.len(),
        {
            let ghost before = *self;
            self.accounts.push(None);
            assert(self@ =~= before@);
        }
        self.accounts.set(i, Some(account));
        assert(final(self)@ =~= old(self)@.insert(id.0, account@));
        let ghost m2 = final(self)@;
        assert forall|a: u32, b: u32| #[trigger] m2.contains_key(a) && #[trigger] m2.contains_key(b) && m2[a].address == m2[b].address implies a == b by {
            if a != id.0 && b != id.0 {
                assert(old(self)@.contains_key(a) && old(self)@.contains_key(b));
            }
        }
    }

    /// Removes the account with this id.
    pub fn remove_account(&mut self, id: AccountId)
        ensures
            old(self).wf() ==> final(self).wf(),
            final(self)@ == old(self)@.remove(id.0),
    {
        if (id.0 as usize) < self.accounts.len() {
            self.accounts.set(id.0 as usize, None);
        }
        assert(final(self)@ =~= old(self)@.remove(id.0));
        proof {
            if old(self).wf() {
                assert forall|a: u32, b: u32| #[trigger] final(self)@.contains_key(a) && #[trigger] final(self)@.contains_key(b)
                    && final(self)@[a].address == final(self)@[b].address implies a == b by {
                    assert(old(self)@.contains_key(a) && old(self)@.contains_key(b));
                }
            }
        }
    }

    /// Sets one balance of an existing account.
    pub fn set_balance(&mut self, id: AccountId, token: TokenId, v: u128)
        requires
            old(self)@.contains_key(id.0),
        ensures
            old(self).wf() ==> final(self).wf(),
            final(self)@ == old(self)@.insert(id.0, with_balance(old(self)@[id.0], token.0, v)),
    {
        let i = id.0 as usize;
        let mut slot: Option<Account> = None;
        self.accounts.set_and_swap(i, &mut slot);
        match slot {
            Some(mut a) => {
                a.set_balance(token, v);
                self.accounts.set(i, Some(a));
            },
            None => {},
        }
        assert(final(self)@ =~= old(self)@.insert(id.0, with_balance(old(self)@[id.0], token.0, v)));
        proof {
            if old(self).wf() {
                lemma_unique_after_update(old(self)@, id.0, with_balance(old(self)@[id.0], token.0, v));
            }
        }
    }

    /// Sets the nonce of an existing account.
    pub fn set_nonce(&mut self, id: AccountId, n: Nonce)
        requires
            old(self)@.contains_key(id.0),
        ensures
            old(self).wf() ==> final(self).wf(),
            final(self)@ == old(self)@.insert(id.0, with_nonce(old(self)@[id.0], n.0)),
    {
        let i = id.0 as usize;
        let mut slot: Option<Account> = None;
        self.accounts.set_and_swap(i, &mut slot);
        match slot {
            Some(mut a) => {
                let ghost a0 = a;
                a.nonce = n;
                assert(a@.balances =~= a0@.balances);
                self.accounts.set(i, Some(a));
            },
            None => {},
        }
        assert(final(self)@ =~= old(self)@.insert(id.0, with_nonce(old(self)@[id.0], n.0)));
        proof {
            if old(self).wf() {
                lemma_unique_after_update(old(self)@, id.0, with_nonce(old(self)@[id.0], n.0));
            }
        }
    }

    /// Sets the signing-key hash of an existing account.
    pub fn set_pub_key_hash(&mut self, id: AccountId, h: PubKeyHash)
        requires
            old(self)@.contains_key(id.0),
        ensures
            old(self).wf() ==> final(self).wf(),
            final(self)@ == old(self)@.insert(
                id.0,
                AccountModel { pub_key_hash: h.0@, ..old(self)@[id.0] },
            ),
    {
        let i = id.0 as usize;
        let mut slot: Option<Account> = None;
        self.accounts.set_and_swap(i, &mut slot);
        match slot {
            Some(mut a) => {
                let ghost a0 = a;
                a.pub_key_hash = h;
                assert(a@.balances =~= a0@.balances);
                self.accounts.set(i, Some(a));
            },
            None => {},
        }
        assert(final(self)@ =~= old(self)@.insert(
            id.0,
            AccountModel { pub_key_hash: h.0@, ..old(self)@[id.0] },
        ));
        proof {
            if old(self).wf() {
                lemma_unique_after_update(old(self)@, id.0, AccountModel { pub_key_hash: h.0@, ..old(self)@[id.0] });
            }
        }
    }
}

} // verus!
