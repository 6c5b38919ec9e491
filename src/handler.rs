//! Validation and application of every operation kind against the ledger.
//!
//! Each `create_*` validates a transaction against the ledger without
//! changing it; each `apply_*_op` re-checks what the ledger must satisfy and
//! mutates it only after every check has passed, so a failed call leaves the
//! ledger as it was.

use vstd::prelude::*;
use crate::account::{fresh_model, with_balance, with_nonce, zero_hash, Account, AccountModel, AccountUpdate, CollectedFee};
use crate::basic::{AccountId, Address, Nonce, PubKeyHash, TokenId, ATP_TOKEN_ID, MAX_ACCOUNT_ID, MAX_TOKEN_ID};
use crate::operations::{AddLiquidityOp, ChangePubKeyOp, CloseOp, DepositOp, ExchangeOp, ForcedExitOp, FullExitOp, RemoveLiquidityOp, TransferOp, TransferToNewOp, WithdrawOp};
use crate::priority_ops::{Deposit, FullExit};
use crate::state::{owner_of, ZkDposState};
use crate::tx::{AddLiquidity, ChangePubKey, Close, Exchange, ForcedExit, RemoveLiquidity, Transfer, Withdraw};
use crate::zkdpos_op::ZkDposOp;

verus! {

/// Why an operation was rejected. The ledger is unchanged in every case.
#[derive(Clone, Copy, Debug, PartialEq, Eq, Structural)]
pub enum TxError {
    /// A token id exceeds the largest supported one.
    TokenNotSupported,
    /// An account id exceeds the largest supported one.
    AccountIdTooBig,
    /// The recipient address is zero.
    ZeroRecipient,
    /// A required account does not exist.
    AccountNotFound,
    /// The sender has no signing key.
    AccountLocked,
    /// The signature does not recover to the expected key hash.
    WrongSignature,
    /// The declared account id is not the sender's.
    WrongAccountId,
    /// The transaction nonce is not the account's.
    NonceMismatch,
    /// The balance does not cover amount and fee.
    InsufficientBalance,
    /// The account that an operation would create already exists.
    AccountExists,
    /// A credited balance would exceed 128 bits.
    BalanceOverflow,
    /// The nonce is at its largest value.
    NonceOverflow,
    /// The account still holds a balance.
    AccountNotEmpty,
    /// The target of a forced exit has a signing key.
    TargetNotLocked,
    /// The base-chain authorisation of a key change is missing or invalid.
    AuthorizationInvalid,
    /// Closing accounts is disabled.
    CloseDisabled,
    /// A field check failed.
    IncorrectTransaction,
}

/// Account updates of one operation, in the order they were made.
pub type AccountUpdates = Vec<(AccountId, AccountUpdate)>;

/// `m` with `amt` taken from `t` of account `id`, whose nonce grows by one.
pub open spec fn debited(m: Map<u32, AccountModel>, id: u32, t: u16, amt: int) -> Map<u32, AccountModel> {
    m.insert(id, with_nonce(with_balance(m[id], t, (m[id].balances[t] - amt) as u128), (m[id].nonce + 1) as u32))
}

/// `m` with `amt` added to `t` of account `id`.
pub open spec fn credited(m: Map<u32, AccountModel>, id: u32, t: u16, amt: nat) -> Map<u32, AccountModel> {
    m.insert(id, with_balance(m[id], t, (m[id].balances[t] + amt) as u128))
}

/// Whether crediting `amt` to `t` of `id` stays within 128 bits.
pub open spec fn credit_fits(m: Map<u32, AccountModel>, id: u32, t: u16, amt: nat) -> bool {
    m[id].balances[t] + amt <= u128::MAX
}

/// The balance record of one change of `t` of `id`, nonce going from `n0` to `n1`.
pub open spec fn balance_update(id: u32, t: u16, old: u128, new: u128, n0: u32, n1: u32) -> (AccountId, AccountUpdate) {
    (AccountId(id), AccountUpdate::UpdateBalance {
        old_nonce: Nonce(n0),
        new_nonce: Nonce(n1),
        balance_update: (TokenId(t), old, new),
    })
}

/// The two records of a move: the debit of the sender, then the credit of the recipient.
pub open spec fn move_updates(m: Map<u32, AccountModel>, from: u32, tf: u16, debit: int, to: u32, tt: u16, credit: nat) -> Seq<(AccountId, AccountUpdate)> {
    let m1 = debited(m, from, tf, debit);
    seq![
        balance_update(from, tf, m[from].balances[tf], m1[from].balances[tf], m[from].nonce, m1[from].nonce),
        balance_update(to, tt, m1[to].balances[tt], (m1[to].balances[tt] + credit) as u128, m1[to].nonce, m1[to].nonce),
    ]
}

/// Sum over the balance records of token `t` of new minus old balance.
pub open spec fn balance_delta(u: Seq<(AccountId, AccountUpdate)>, t: u16) -> int
    decreases u.len(),
{
    if u.len() == 0 {
        0
    } else {
        balance_delta(u.drop_last(), t) + match u.last().1 {
            AccountUpdate::UpdateBalance { balance_update: (tok, o, n), .. } => if tok.0 == t {
                n - o
            } else {
                0
            },
            _ => 0,
        }
    }
}

/// `id` is the one account at `addr`.
pub open spec fn sole_owner(m: Map<u32, AccountModel>, addr: Seq<u8>, id: u32) -> bool {
    &&& m.contains_key(id)
    &&& m[id].address == addr
    &&& forall|j: u32| #[trigger] m.contains_key(j) && m[j].address == addr ==> j == id
}

/// No account is at `addr`.
pub open spec fn no_owner(m: Map<u32, AccountModel>, addr: Seq<u8>) -> bool {
    forall|j: u32| #[trigger] m.contains_key(j) ==> m[j].address != addr
}

/// The first check of a sender that fails, if any.
pub open spec fn signer_check(a: AccountModel, signer: Option<PubKeyHash>) -> Option<TxError> {
    if a.pub_key_hash == zero_hash() {
        Some(TxError::AccountLocked)
    } else if !(signer is Some && signer->Some_0.0@ == a.pub_key_hash) {
        Some(TxError::WrongSignature)
    } else {
        None
    }
}

/// The first check before a move that fails, if any: ids in range, both
/// accounts present, nonce equal, balance covering the debit, nonce not at
/// its largest.
pub open spec fn move_check(m: Map<u32, AccountModel>, from: u32, to: u32, nonce: u32, tf: u16, debit: int) -> Option<TxError> {
    if from > MAX_ACCOUNT_ID || to > MAX_ACCOUNT_ID {
        Some(TxError::AccountIdTooBig)
    } else if !m.contains_key(from) || !m.contains_key(to) {
        Some(TxError::AccountNotFound)
    } else if m[from].nonce != nonce {
        Some(TxError::NonceMismatch)
    } else if m[from].balances[tf] < debit {
        Some(TxError::InsufficientBalance)
    } else if m[from].nonce == u32::MAX {
        Some(TxError::NonceOverflow)
    } else {
        None
    }
}

/// What a caller must know of an executed operation.
#[derive(Debug)]
pub struct OpSuccess {
    pub fee: Option<CollectedFee>,
    pub updates: AccountUpdates,
    pub executed_op: crate::zkdpos_op::ZkDposOp,
}

impl ZkDposState {
    /// Takes `debit` from `tf` of `from` and raises its nonce by one, then
    /// adds `credit` to `tt` of `to`. With `from == to` the second step sees
    /// the first.
    fn move_balance(&mut self, from: AccountId, tf: TokenId, debit: u128, to: AccountId, tt: TokenId, credit: u128) -> (r: Result<AccountUpdates, TxError>)
        requires
            old(self).wf(),
            old(self)@.contains_key(from.0),
            old(self)@.contains_key(to.0),
            old(self)@[from.0].balances[tf.0] >= debit,
            old(self)@[from.0].nonce < u32::MAX,
        ensures
            final(self).wf(),
            r is Ok <==> credit_fits(debited(old(self)@, from.0, tf.0, debit as int), to.0, tt.0, credit as nat),
            r is Ok ==> final(self)@ == credited(debited(old(self)@, from.0, tf.0, debit as int), to.0, tt.0, credit as nat),
            r is Ok ==> r->Ok_0@ == move_updates(old(self)@, from.0, tf.0, debit as int, to.0, tt.0, credit as nat),
            r is Err ==> final(self)@ == old(self)@ && r->Err_0 == TxError::BalanceOverflow,
    {
        let fa = match self.get_account(from) {
            Some(a) => a,
            None => return Err(TxError::AccountNotFound),
        };
        let ta = match self.get_account(to) {
            Some(a) => a,
            None => return Err(TxError::AccountNotFound),
        };
        let from_old_balance = fa.get_balance(tf);
        let from_old_nonce = fa.nonce.0;
        let from_new_balance = from_old_balance - debit;
        let from_new_nonce = from_old_nonce + 1;
        let to_old_balance = if to.0 == from.0 && tt.0 == tf.0 {
            from_new_balance
        } else {
            ta.get_balance(tt)
        };
        let to_nonce = if to.0 == from.0 {
            from_new_nonce
        } else {
            ta.nonce.0
        };
        let ghost m1 = debited(self@, from.0, tf.0, debit as int);
        assert(m1[to.0].balances[tt.0] == to_old_balance);
        assert(m1[to.0].nonce == to_nonce);
        if to_old_balance > u128::MAX - credit {
            return Err(TxError::BalanceOverflow);
        }
        let to_new_balance = to_old_balance + credit;
        self.set_balance(from, tf, from_new_balance);
        self.set_nonce(from, Nonce(from_new_nonce));
        self.set_balance(to, tt, to_new_balance);
        assert(self@ =~= credited(m1, to.0, tt.0, credit as nat)) by {
            assert(self@[from.0] == m1[from.0] || from.0 == to.0);
        }
        let mut updates: AccountUpdates = Vec::new();
        updates.push((from, AccountUpdate::UpdateBalance {
            old_nonce: Nonce(from_old_nonce),
            new_nonce: Nonce(from_new_nonce),
            balance_update: (tf, from_old_balance, from_new_balance),
        }));
        updates.push((to, AccountUpdate::UpdateBalance {
            old_nonce: Nonce(to_nonce),
            new_nonce: Nonce(to_nonce),
            balance_update: (tt, to_old_balance, to_new_balance),
        }));
        assert(updates@ =~= move_updates(old(self)@, from.0, tf.0, debit as int, to.0, tt.0, credit as nat));
        Ok(updates)
    }
}

impl ZkDposState {
    /// Resolves the sender of a transaction by address and checks that it
    /// may sign and is the declared account.
    fn resolve_sender(&self, addr: &Address, account_id: AccountId, signer: &Option<PubKeyHash>) -> (r: Result<AccountId, TxError>)
        requires
            self.wf(),
        ensures
            r == sender_result(self@, addr@, account_id, *signer),
    {
        let (id, account) = match self.get_account_by_address(addr) {
            Some(found) => found,
            None => return Err(TxError::AccountNotFound),
        };
        if account.pub_key_hash.is_zero() {
            return Err(TxError::AccountLocked);
        }
        let signed = match signer {
            Some(h) => h.equals(&account.pub_key_hash),
            None => false,
        };
        if !signed {
            return Err(TxError::WrongSignature);
        }
        if id.0 != account_id.0 {
            return Err(TxError::WrongAccountId);
        }
        Ok(id)
    }

    /// Checks an account named by id as the signer of a transaction.
    fn check_signer(&self, id: AccountId, signer: &Option<PubKeyHash>) -> (r: Result<(), TxError>)
        ensures
            r == signer_result(self@, id, *signer),
    {
        let account = match self.get_account(id) {
            Some(a) => a,
            None => return Err(TxError::AccountNotFound),
        };
        if account.pub_key_hash.is_zero() {
            return Err(TxError::AccountLocked);
        }
        let signed = match signer {
            Some(h) => h.equals(&account.pub_key_hash),
            None => false,
        };
        if !signed {
            return Err(TxError::WrongSignature);
        }
        Ok(())
    }

    /// Runs the checks of `move_check`, then the move.
    fn checked_move(&mut self, from: AccountId, to: AccountId, nonce: Nonce, tf: TokenId, amount: u128, fee: u128, tt: TokenId, credit: u128) -> (r: Result<AccountUpdates, TxError>)
        requires
            old(self).wf(),
        ensures
            final(self).wf(),
            move_check(old(self)@, from.0, to.0, nonce.0, tf.0, amount + fee) matches Some(e) ==> r == Err::<AccountUpdates, TxError>(e),
            move_check(old(self)@, from.0, to.0, nonce.0, tf.0, amount + fee) is None ==> (r is Ok <==> credit_fits(
                debited(old(self)@, from.0, tf.0, amount + fee),
                to.0,
                tt.0,
                credit as nat,
            )),
            r is Ok ==> final(self)@ == credited(debited(old(self)@, from.0, tf.0, amount + fee), to.0, tt.0, credit as nat),
            r is Ok ==> r->Ok_0@ == move_updates(old(self)@, from.0, tf.0, amount + fee, to.0, tt.0, credit as nat),
            move_check(old(self)@, from.0, to.0, nonce.0, tf.0, amount + fee) is None && r is Err ==> r->Err_0 == TxError::BalanceOverflow,
            r is Err ==> final(self)@ == old(self)@,
    {
        if from.0 > MAX_ACCOUNT_ID || to.0 > MAX_ACCOUNT_ID {
            return Err(TxError::AccountIdTooBig);
        }
        let fa = match self.get_account(from) {
            Some(a) => a,
            None => return Err(TxError::AccountNotFound),
        };
        if self.get_account(to).is_none() {
            return Err(TxError::AccountNotFound);
        }
        if fa.nonce.0 != nonce.0 {
            return Err(TxError::NonceMismatch);
        }
        let balance = fa.get_balance(tf);
        if amount > u128::MAX - fee || balance < amount + fee {
            return Err(TxError::InsufficientBalance);
        }
        if fa.nonce.0 == u32::MAX {
            return Err(TxError::NonceOverflow);
        }
        self.move_balance(from, tf, amount + fee, to, tt, credit)
    }

    /// Validates a transfer: resolves the sender by address, checks its key,
    /// signature and id, and resolves the recipient; an unknown recipient
    /// makes it a transfer to a new account at the next free id.
    pub fn create_transfer_op(&self, tx: &Transfer, signer: &Option<PubKeyHash>) -> (r: Result<ZkDposOp, TxError>)
        requires
            self.wf(),
        ensures
            r == create_transfer_spec(self@, *tx, *signer, self.accounts@.len()),
    {
        if tx.token.0 > MAX_TOKEN_ID {
            return Err(TxError::TokenNotSupported);
        }
        if tx.to.is_zero() {
            return Err(TxError::ZeroRecipient);
        }
        let from = match self.resolve_sender(&tx.from, tx.account_id, signer) {
            Ok(id) => id,
            Err(e) => return Err(e),
        };
        match self.get_account_by_address(&tx.to) {
            Some((to, _)) => Ok(ZkDposOp::Transfer(TransferOp { tx: *tx, from, to })),
            None => {
                let to = self.get_free_account_id();
                Ok(ZkDposOp::TransferToNew(TransferToNewOp { tx: *tx, from, to }))
            },
        }
    }

    /// Applies a transfer between existing accounts: the sender pays amount
    /// and fee and its nonce grows by one; the recipient receives the amount.
    pub fn apply_transfer_op(&mut self, op: &TransferOp) -> (r: Result<(Option<CollectedFee>, AccountUpdates), TxError>)
        requires
            old(self).wf(),
        ensures
            final(self).wf(),
            transfer_outcome(old(self)@, *op, result_view(r), final(self)@),
    {
        let updates = match self.checked_move(op.from, op.to, op.tx.nonce, op.tx.token, op.tx.amount, op.tx.fee, op.tx.token, op.tx.amount) {
            Ok(u) => u,
            Err(e) => return Err(e),
        };
        proof {
            lemma_move_delta(old(self)@, op.from.0, op.tx.token.0, op.tx.amount + op.tx.fee, op.to.0, op.tx.token.0, op.tx.amount as nat, op.tx.token.0);
        }
        Ok((Some(CollectedFee { token: op.tx.token, amount: op.tx.fee }), updates))
    }

    /// Applies a transfer to a new account: creates the recipient at `op.to`
    /// with the transaction's recipient address (which no account may have
    /// yet), then moves as a transfer does.
    pub fn apply_transfer_to_new_op(&mut self, op: &TransferToNewOp) -> (r: Result<(Option<CollectedFee>, AccountUpdates), TxError>)
        requires
            old(self).wf(),
        ensures
            final(self).wf(),
            transfer_to_new_outcome(old(self)@, *op, result_view(r), final(self)@),
    {
        if op.to.0 > MAX_ACCOUNT_ID || op.from.0 > MAX_ACCOUNT_ID {
            return Err(TxError::AccountIdTooBig);
        }
        if self.get_account(op.to).is_some() {
            return Err(TxError::AccountExists);
        }
        if self.get_account_by_address(&op.tx.to).is_some() {
            return Err(TxError::AccountExists);
        }
        if op.from.0 == op.to.0 {
            return Err(TxError::AccountNotFound);
        }
        let fa = match self.get_account(op.from) {
            Some(a) => a,
            None => return Err(TxError::AccountNotFound),
        };
        if fa.nonce.0 != op.tx.nonce.0 {
            return Err(TxError::NonceMismatch);
        }
        let balance = fa.get_balance(op.tx.token);
        if op.tx.amount > u128::MAX - op.tx.fee || balance < op.tx.amount + op.tx.fee {
            return Err(TxError::InsufficientBalance);
        }
        if fa.nonce.0 == u32::MAX {
            return Err(TxError::NonceOverflow);
        }
        let ghost m0 = self@.insert(op.to.0, fresh_model(op.tx.to@));
        self.insert_account(op.to, Account::default_with_address(&op.tx.to));
        assert(self@ == m0);
        let moved = match self.move_balance(op.from, op.tx.token, op.tx.amount + op.tx.fee, op.to, op.tx.token, op.tx.amount) {
            Ok(u) => u,
            Err(e) => {
                return Err(e);
            },
        };
        let mut updates: AccountUpdates = Vec::new();
        updates.push((op.to, AccountUpdate::Create { address: op.tx.to, nonce: Nonce(0) }));
        let ghost moved_view = moved@;
        let mut moved_updates = moved;
        updates.append(&mut moved_updates);
        assert(updates@.subrange(1, updates@.len() as int) =~= moved_view);
        proof {
            lemma_move_delta(m0, op.from.0, op.tx.token.0, op.tx.amount + op.tx.fee, op.to.0, op.tx.token.0, op.tx.amount as nat, op.tx.token.0);
            lemma_delta_after_create(updates@, op.to, op.tx.to, op.tx.token.0);
        }
        Ok((Some(CollectedFee { token: op.tx.token, amount: op.tx.fee }), updates))
    }
}


/// The account a deposit credits: the existing one, or a fresh one at the recipient address.
pub open spec fn deposit_base(m: Map<u32, AccountModel>, op: DepositOp) -> AccountModel {
    if m.contains_key(op.account_id.0) {
        m[op.account_id.0]
    } else {
        fresh_model(op.priority_op.to@)
    }
}

/// The records of a deposit: a creation if the account is new, then the credit.
pub open spec fn deposit_updates(m: Map<u32, AccountModel>, op: DepositOp) -> Seq<(AccountId, AccountUpdate)> {
    let base = deposit_base(m, op);
    let t = op.priority_op.token.0;
    let credit = seq![
        balance_update(op.account_id.0, t, base.balances[t], (base.balances[t] + op.priority_op.amount) as u128, base.nonce, base.nonce),
    ];
    if m.contains_key(op.account_id.0) {
        credit
    } else {
        seq![(op.account_id, AccountUpdate::Create { address: op.priority_op.to, nonce: Nonce(0) })] + credit
    }
}

/// `m` with `amt` taken from `t` of `id`; the nonce stays.
pub open spec fn withdrawn(m: Map<u32, AccountModel>, id: u32, t: u16, amt: int) -> Map<u32, AccountModel> {
    m.insert(id, with_balance(m[id], t, (m[id].balances[t] - amt) as u128))
}

impl ZkDposState {
    /// Resolves the account a deposit goes to: the one at the recipient
    /// address, else the next free id.
    pub fn create_deposit_op(&self, priority_op: &Deposit) -> (r: Result<DepositOp, TxError>)
        requires
            self.wf(),
        ensures
            r == create_deposit_spec(self@, *priority_op, self.accounts@.len()),
    {
        if priority_op.token.0 > MAX_TOKEN_ID {
            return Err(TxError::TokenNotSupported);
        }
        let account_id = match self.get_account_by_address(&priority_op.to) {
            Some((id, _)) => id,
            None => self.get_free_account_id(),
        };
        Ok(DepositOp { priority_op: *priority_op, account_id })
    }

    /// Credits a deposit, creating the account first when it does not exist
    /// (unless another account already has the address). The nonce does not
    /// change and no fee is taken.
    pub fn apply_deposit_op(&mut self, op: &DepositOp) -> (r: Result<(Option<CollectedFee>, AccountUpdates), TxError>)
        requires
            old(self).wf(),
        ensures
            final(self).wf(),
            deposit_outcome(old(self)@, *op, result_view(r), final(self)@),
    {
        broadcast use lemma_result_view;
        if op.account_id.0 > MAX_ACCOUNT_ID {
            return Err(TxError::AccountIdTooBig);
        }
        let existing = self.get_account(op.account_id);
        let created = existing.is_none();
        if created && self.get_account_by_address(&op.priority_op.to).is_some() {
            return Err(TxError::AccountExists);
        }
        let account = match existing {
            Some(a) => a,
            None => Account::default_with_address(&op.priority_op.to),
        };
        let token = op.priority_op.token;
        let old_balance = account.get_balance(token);
        if old_balance > u128::MAX - op.priority_op.amount {
            return Err(TxError::BalanceOverflow);
        }
        let new_balance = old_balance + op.priority_op.amount;
        let nonce = account.nonce;
        let mut updates: AccountUpdates = Vec::new();
        if created {
            self.insert_account(op.account_id, account);
            updates.push((op.account_id, AccountUpdate::Create { address: op.priority_op.to, nonce: Nonce(0) }));
        }
        self.set_balance(op.account_id, token, new_balance);
        updates.push((op.account_id, AccountUpdate::UpdateBalance {
            old_nonce: nonce,
            new_nonce: nonce,
            balance_update: (token, old_balance, new_balance),
        }));
        assert(updates@ =~= deposit_updates(old(self)@, *op));
        assert(self@ =~= old(self)@.insert(op.account_id.0, with_balance(deposit_base(old(self)@, *op), token.0, new_balance)));
        proof {
            reveal_with_fuel(balance_delta, 3);
            let u = updates@;
            if created {
                assert(u.drop_last().drop_last() =~= Seq::<(AccountId, AccountUpdate)>::empty());
            } else {
                assert(u.drop_last() =~= Seq::<(AccountId, AccountUpdate)>::empty());
            }
        }
        Ok((None, updates))
    }

    /// Validates and applies a deposit.
    pub fn apply_deposit(&mut self, priority_op: &Deposit) -> (r: Result<OpSuccess, TxError>)
        requires
            old(self).wf(),
        ensures
            final(self).wf(),
            tx_outcome(old(self)@, match create_deposit_spec(old(self)@, *priority_op, old(self).accounts@.len()) { Ok(op) => Ok(ZkDposOp::Deposit(op)), Err(e) => Err(e) }, r, final(self)@),
            priority_op.token.0 <= MAX_TOKEN_ID && no_owner(old(self)@, priority_op.to@) && old(self).accounts@.len() <= MAX_ACCOUNT_ID
                ==> r is Ok && r->Ok_0.updates@ == seq![
                    (AccountId(old(self).accounts@.len() as u32), AccountUpdate::Create { address: priority_op.to, nonce: Nonce(0) }),
                    balance_update(old(self).accounts@.len() as u32, priority_op.token.0, 0, priority_op.amount, 0, 0),
                ],
            forall|id: u32| priority_op.token.0 <= MAX_TOKEN_ID && #[trigger] sole_owner(old(self)@, priority_op.to@, id) && id <= MAX_ACCOUNT_ID
                ==> (r is Ok <==> old(self)@[id].balances[priority_op.token.0] + priority_op.amount <= u128::MAX)
                && (r is Ok ==> r->Ok_0.updates@ == seq![
                    balance_update(id, priority_op.token.0, old(self)@[id].balances[priority_op.token.0],
                        (old(self)@[id].balances[priority_op.token.0] + priority_op.amount) as u128, old(self)@[id].nonce, old(self)@[id].nonce),
                ]),
    {
        let op = match self.create_deposit_op(priority_op) {
            Ok(op) => op,
            Err(e) => return Err(e),
        };
        proof {
            let t = priority_op.token.0;
            if no_owner(self@, priority_op.to@) {
                assert(!self@.contains_key(op.account_id.0));
                assert(fresh_model(priority_op.to@).balances[t] == 0);
                assert(deposit_updates(self@, op) =~= seq![
                    (AccountId(self.accounts@.len() as u32), AccountUpdate::Create { address: priority_op.to, nonce: Nonce(0) }),
                    balance_update(self.accounts@.len() as u32, t, 0, priority_op.amount, 0, 0),
                ]);
            }
        }
        match self.apply_deposit_op(&op) {
            Ok((fee, updates)) => Ok(OpSuccess { fee, updates, executed_op: ZkDposOp::Deposit(op) }),
            Err(e) => Err(e),
        }
    }

    /// Resolves the amount a full exit withdraws: the whole balance of the
    /// token when the account exists and belongs to the exit's address,
    /// otherwise nothing.
    pub fn create_full_exit_op(&self, priority_op: &FullExit) -> (r: Result<FullExitOp, TxError>)
        ensures
            r == create_full_exit_spec(self@, *priority_op),
    {
        if priority_op.account_id.0 > MAX_ACCOUNT_ID {
            return Err(TxError::AccountIdTooBig);
        }
        if priority_op.token.0 > MAX_TOKEN_ID {
            return Err(TxError::TokenNotSupported);
        }
        let withdraw_amount = match self.get_account(priority_op.account_id) {
            Some(a) => if a.address.equals(&priority_op.atp_address) {
                Some(a.get_balance(priority_op.token))
            } else {
                None
            },
            None => None,
        };
        Ok(FullExitOp { priority_op: *priority_op, withdraw_amount })
    }

    /// Withdraws the resolved amount; an exit that resolved to nothing
    /// changes nothing and is no error.
    pub fn apply_full_exit_op(&mut self, op: &FullExitOp) -> (r: Result<(Option<CollectedFee>, AccountUpdates), TxError>)
        requires
            old(self).wf(),
        ensures
            final(self).wf(),
            full_exit_outcome(old(self)@, *op, result_view(r), final(self)@),
    {
        let amount = match op.withdraw_amount {
            Some(a) => a,
            None => return Ok((None, Vec::new())),
        };
        let id = op.priority_op.account_id;
        if id.0 > MAX_ACCOUNT_ID {
            return Err(TxError::AccountIdTooBig);
        }
        let account = match self.get_account(id) {
            Some(a) => a,
            None => return Err(TxError::AccountNotFound),
        };
        let token = op.priority_op.token;
        let old_balance = account.get_balance(token);
        if old_balance < amount {
            return Err(TxError::InsufficientBalance);
        }
        let new_balance = old_balance - amount;
        self.set_balance(id, token, new_balance);
        let mut updates: AccountUpdates = Vec::new();
        updates.push((id, AccountUpdate::UpdateBalance {
            old_nonce: account.nonce,
            new_nonce: account.nonce,
            balance_update: (token, old_balance, new_balance),
        }));
        assert(updates@ =~= seq![balance_update(id.0, token.0, old_balance, new_balance, account.nonce.0, account.nonce.0)]);
        Ok((None, updates))
    }

    /// Validates and applies a full exit.
    pub fn apply_full_exit(&mut self, priority_op: &FullExit) -> (r: Result<OpSuccess, TxError>)
        requires
            old(self).wf(),
        ensures
            final(self).wf(),
            tx_outcome(old(self)@, match create_full_exit_spec(old(self)@, *priority_op) { Ok(op) => Ok(ZkDposOp::FullExit(op)), Err(e) => Err(e) }, r, final(self)@),
            priority_op.account_id.0 <= MAX_ACCOUNT_ID && priority_op.token.0 <= MAX_TOKEN_ID ==> r is Ok,
    {
        let op = match self.create_full_exit_op(priority_op) {
            Ok(op) => op,
            Err(e) => return Err(e),
        };
        match self.apply_full_exit_op(&op) {
            Ok((fee, updates)) => Ok(OpSuccess { fee, updates, executed_op: ZkDposOp::FullExit(op) }),
            Err(e) => Err(e),
        }
    }
}


impl ZkDposState {
    /// Takes `amt` from `t` of `id` and raises its nonce by one.
    fn debit_sender(&mut self, id: AccountId, t: TokenId, amt: u128) -> (r: AccountUpdates)
        requires
            old(self).wf(),
            old(self)@.contains_key(id.0),
            old(self)@[id.0].balances[t.0] >= amt,
            old(self)@[id.0].nonce < u32::MAX,
        ensures
            final(self).wf(),
            final(self)@ == debited(old(self)@, id.0, t.0, amt as int),
            r@ == seq![balance_update(id.0, t.0, old(self)@[id.0].balances[t.0], (old(self)@[id.0].balances[t.0] - amt) as u128, old(self)@[id.0].nonce, (old(self)@[id.0].nonce + 1) as u32)],
    {
        let account = match self.get_account(id) {
            Some(a) => a,
            None => return Vec::new(),
        };
        let old_balance = account.get_balance(t);
        let new_balance = old_balance - amt;
        let old_nonce = account.nonce.0;
        self.set_balance(id, t, new_balance);
        self.set_nonce(id, Nonce(old_nonce + 1));
        assert(self@ =~= debited(old(self)@, id.0, t.0, amt as int));
        let mut updates: AccountUpdates = Vec::new();
        updates.push((id, AccountUpdate::UpdateBalance {
            old_nonce: Nonce(old_nonce),
            new_nonce: Nonce(old_nonce + 1),
            balance_update: (t, old_balance, new_balance),
        }));
        assert(updates@ =~= seq![balance_update(id.0, t.0, old_balance, new_balance, old_nonce, (old_nonce + 1) as u32)]);
        updates
    }

    /// Validates a withdrawal: token in range and a sender that may sign.
    pub fn create_withdraw_op(&self, tx: &Withdraw, signer: &Option<PubKeyHash>) -> (r: Result<WithdrawOp, TxError>)
        requires
            self.wf(),
        ensures
            r == create_withdraw_spec(self@, *tx, *signer),
    {
        if tx.token.0 > MAX_TOKEN_ID {
            return Err(TxError::TokenNotSupported);
        }
        let account_id = match self.resolve_sender(&tx.from, tx.account_id, signer) {
            Ok(id) => id,
            Err(e) => return Err(e),
        };
        Ok(WithdrawOp { tx: *tx, account_id })
    }

    /// Applies a withdrawal: amount and fee leave the account, whose nonce
    /// grows by one; the amount is paid out on the base chain.
    pub fn apply_withdraw_op(&mut self, op: &WithdrawOp) -> (r: Result<(Option<CollectedFee>, AccountUpdates), TxError>)
        requires
            old(self).wf(),
        ensures
            final(self).wf(),
            withdraw_outcome(old(self)@, *op, result_view(r), final(self)@),
    {
        let id = op.account_id;
        if id.0 > MAX_ACCOUNT_ID {
            return Err(TxError::AccountIdTooBig);
        }
        let account = match self.get_account(id) {
            Some(a) => a,
            None => return Err(TxError::AccountNotFound),
        };
        if account.nonce.0 != op.tx.nonce.0 {
            return Err(TxError::NonceMismatch);
        }
        let balance = account.get_balance(op.tx.token);
        if op.tx.amount > u128::MAX - op.tx.fee || balance < op.tx.amount + op.tx.fee {
            return Err(TxError::InsufficientBalance);
        }
        if account.nonce.0 == u32::MAX {
            return Err(TxError::NonceOverflow);
        }
        let updates = self.debit_sender(id, op.tx.token, op.tx.amount + op.tx.fee);
        Ok((Some(CollectedFee { token: op.tx.token, amount: op.tx.fee }), updates))
    }

    /// Validates a forced exit: the initiator may sign, and the target
    /// exists and has no signing key. The whole balance of the token is
    /// withdrawn from the target.
    pub fn create_forced_exit_op(&self, tx: &ForcedExit, signer: &Option<PubKeyHash>) -> (r: Result<ForcedExitOp, TxError>)
        requires
            self.wf(),
        ensures
            r == create_forced_exit_spec(self@, *tx, *signer),
    {
        if tx.token.0 > MAX_TOKEN_ID {
            return Err(TxError::TokenNotSupported);
        }
        match self.check_signer(tx.initiator_account_id, signer) {
            Ok(()) => {},
            Err(e) => return Err(e),
        }
        let (target_id, target) = match self.get_account_by_address(&tx.target) {
            Some(found) => found,
            None => return Err(TxError::AccountNotFound),
        };
        if !target.pub_key_hash.is_zero() {
            return Err(TxError::TargetNotLocked);
        }
        let amount = target.get_balance(tx.token);
        Ok(ForcedExitOp { tx: *tx, target_account_id: target_id, withdraw_amount: Some(amount) })
    }

    /// Applies a forced exit: the initiator pays the fee and its nonce grows
    /// by one; the withdrawn amount leaves the target.
    pub fn apply_forced_exit_op(&mut self, op: &ForcedExitOp) -> (r: Result<(Option<CollectedFee>, AccountUpdates), TxError>)
        requires
            old(self).wf(),
        ensures
            final(self).wf(),
            forced_exit_outcome(old(self)@, *op, result_view(r), final(self)@),
    {
        broadcast use lemma_result_view;
        let init = op.tx.initiator_account_id;
        let target = op.target_account_id;
        let t = op.tx.token;
        if init.0 > MAX_ACCOUNT_ID || target.0 > MAX_ACCOUNT_ID {
            return Err(TxError::AccountIdTooBig);
        }
        let ia = match self.get_account(init) {
            Some(a) => a,
            None => return Err(TxError::AccountNotFound),
        };
        let ta = match self.get_account(target) {
            Some(a) => a,
            None => return Err(TxError::AccountNotFound),
        };
        if ia.nonce.0 != op.tx.nonce.0 {
            return Err(TxError::NonceMismatch);
        }
        let init_balance = ia.get_balance(t);
        if init_balance < op.tx.fee {
            return Err(TxError::InsufficientBalance);
        }
        if ia.nonce.0 == u32::MAX {
            return Err(TxError::NonceOverflow);
        }
        let amount = match op.withdraw_amount {
            Some(a) => a,
            None => 0,
        };
        let target_balance = if target.0 == init.0 {
            init_balance - op.tx.fee
        } else {
            ta.get_balance(t)
        };
        let target_nonce = if target.0 == init.0 {
            ia.nonce.0 + 1
        } else {
            ta.nonce.0
        };
        let ghost m1 = debited(self@, init.0, t.0, op.tx.fee as int);
        assert(m1[target.0].balances[t.0] == target_balance);
        if target_balance < amount {
            return Err(TxError::InsufficientBalance);
        }
        let mut updates = self.debit_sender(init, t, op.tx.fee);
        self.set_balance(target, t, target_balance - amount);
        updates.push((target, AccountUpdate::UpdateBalance {
            old_nonce: Nonce(target_nonce),
            new_nonce: Nonce(target_nonce),
            balance_update: (t, target_balance, target_balance - amount),
        }));
        assert(updates@ =~= seq![
            balance_update(init.0, t.0, old(self)@[init.0].balances[t.0], m1[init.0].balances[t.0], old(self)@[init.0].nonce, m1[init.0].nonce),
            balance_update(target.0, t.0, m1[target.0].balances[t.0], (m1[target.0].balances[t.0] - amount) as u128, m1[target.0].nonce, m1[target.0].nonce),
        ]);
        Ok((Some(CollectedFee { token: t, amount: op.tx.fee }), updates))
    }

    /// Validates a key change: the account named by id exists and has the
    /// transaction's address, the base-chain authorisation (checked by the
    /// signing capability, `auth_valid`) holds, and the transaction is
    /// signed by the new key.
    pub fn create_change_pubkey_op(&self, tx: &ChangePubKey, signer: &Option<PubKeyHash>, auth_valid: bool) -> (r: Result<ChangePubKeyOp, TxError>)
        ensures
            r == create_change_pubkey_spec(self@, *tx, *signer, auth_valid),
    {
        if tx.fee_token.0 > MAX_TOKEN_ID {
            return Err(TxError::TokenNotSupported);
        }
        let account = match self.get_account(tx.account_id) {
            Some(a) => a,
            None => return Err(TxError::AccountNotFound),
        };
        if !account.address.equals(&tx.account) {
            return Err(TxError::WrongAccountId);
        }
        if !auth_valid {
            return Err(TxError::AuthorizationInvalid);
        }
        let signed = match signer {
            Some(h) => h.equals(&tx.new_pk_hash),
            None => false,
        };
        if !signed {
            return Err(TxError::WrongSignature);
        }
        Ok(ChangePubKeyOp { tx: *tx, account_id: tx.account_id })
    }

    /// Applies a key change: sets the key hash, takes the fee, raises the nonce by one.
    pub fn apply_change_pubkey_op(&mut self, op: &ChangePubKeyOp) -> (r: Result<(Option<CollectedFee>, AccountUpdates), TxError>)
        requires
            old(self).wf(),
        ensures
            final(self).wf(),
            change_pubkey_outcome(old(self)@, *op, result_view(r), final(self)@),
    {
        let id = op.account_id;
        if id.0 > MAX_ACCOUNT_ID {
            return Err(TxError::AccountIdTooBig);
        }
        let account = match self.get_account(id) {
            Some(a) => a,
            None => return Err(TxError::AccountNotFound),
        };
        if account.nonce.0 != op.tx.nonce.0 {
            return Err(TxError::NonceMismatch);
        }
        let t = op.tx.fee_token;
        let old_balance = account.get_balance(t);
        if old_balance < op.tx.fee {
            return Err(TxError::InsufficientBalance);
        }
        if account.nonce.0 == u32::MAX {
            return Err(TxError::NonceOverflow);
        }
        let old_nonce = account.nonce.0;
        let new_balance = old_balance - op.tx.fee;
        self.set_pub_key_hash(id, op.tx.new_pk_hash);
        self.set_balance(id, t, new_balance);
        self.set_nonce(id, Nonce(old_nonce + 1));
        let ghost m1 = old(self)@.insert(id.0, AccountModel { pub_key_hash: op.tx.new_pk_hash.0@, ..old(self)@[id.0] });
        assert(self@ =~= debited(m1, id.0, t.0, op.tx.fee as int));
        let mut updates: AccountUpdates = Vec::new();
        updates.push((id, AccountUpdate::ChangePubKeyHash {
            old_pub_key_hash: account.pub_key_hash,
            new_pub_key_hash: op.tx.new_pk_hash,
            old_nonce: Nonce(old_nonce),
            new_nonce: Nonce(old_nonce + 1),
        }));
        updates.push((id, AccountUpdate::UpdateBalance {
            old_nonce: Nonce(old_nonce + 1),
            new_nonce: Nonce(old_nonce + 1),
            balance_update: (t, old_balance, new_balance),
        }));
        Ok((Some(CollectedFee { token: t, amount: op.tx.fee }), updates))
    }

    /// Replays a historical close: the account must hold nothing and the
    /// nonce must match; the account is removed.
    pub fn apply_close_op(&mut self, op: &CloseOp) -> (r: Result<(Option<CollectedFee>, AccountUpdates), TxError>)
        requires
            old(self).wf(),
        ensures
            final(self).wf(),
            close_outcome(old(self)@, *op, result_view(r), final(self)@),
    {
        if op.account_id.0 > MAX_ACCOUNT_ID {
            return Err(TxError::AccountIdTooBig);
        }
        let account = match self.get_account(op.account_id) {
            Some(a) => a,
            None => return Err(TxError::AccountNotFound),
        };
        if !account.is_empty() {
            return Err(TxError::AccountNotEmpty);
        }
        if account.nonce.0 != op.tx.nonce.0 {
            return Err(TxError::NonceMismatch);
        }
        self.remove_account(op.account_id);
        let mut updates: AccountUpdates = Vec::new();
        updates.push((op.account_id, AccountUpdate::Delete { address: account.address, nonce: account.nonce }));
        Ok((Some(CollectedFee { token: TokenId(ATP_TOKEN_ID), amount: 0 }), updates))
    }

    /// New close transactions are refused: closing is disabled.
    pub fn apply_close_tx(&mut self, tx: &Close) -> (r: Result<OpSuccess, TxError>)
        ensures
            r == Err::<OpSuccess, TxError>(TxError::CloseDisabled),
            final(self)@ == old(self)@,
    {
        Err(TxError::CloseDisabled)
    }
}


impl ZkDposState {
    /// Validates an exchange: tokens in range and a sender, resolved by
    /// address, that may sign. Both roles resolve to the sender's account.
    pub fn create_exchange_op(&self, tx: &Exchange, signer: &Option<PubKeyHash>) -> (r: Result<ExchangeOp, TxError>)
        requires
            self.wf(),
        ensures
            r == create_exchange_spec(self@, *tx, *signer),
    {
        if tx.token_a.0 > MAX_TOKEN_ID || tx.token_b.0 > MAX_TOKEN_ID {
            return Err(TxError::TokenNotSupported);
        }
        let from = match self.resolve_sender(&tx.from, tx.account_id, signer) {
            Ok(id) => id,
            Err(e) => return Err(e),
        };
        Ok(ExchangeOp { tx: *tx, from, to: from })
    }

    /// Applies an exchange: `amount_a` and the fee leave `token_a` of `from`,
    /// whose nonce grows by one; then `amount_b` of `token_b` is credited to `to`.
    pub fn apply_exchange_op(&mut self, op: &ExchangeOp) -> (r: Result<(Option<CollectedFee>, AccountUpdates), TxError>)
        requires
            old(self).wf(),
        ensures
            final(self).wf(),
            exchange_outcome(old(self)@, *op, result_view(r), final(self)@),
    {
        let updates = match self.checked_move(op.from, op.to, op.tx.nonce, op.tx.token_a, op.tx.amount_a, op.tx.fee, op.tx.token_b, op.tx.amount_b) {
            Ok(u) => u,
            Err(e) => return Err(e),
        };
        proof {
            lemma_move_delta(old(self)@, op.from.0, op.tx.token_a.0, op.tx.amount_a + op.tx.fee, op.to.0, op.tx.token_b.0, op.tx.amount_b as nat, op.tx.token_a.0);
        }
        Ok((Some(CollectedFee { token: op.tx.token_a, amount: op.tx.fee }), updates))
    }

    /// Validates adding liquidity: a non-zero recipient address, a token in range,
    /// and a sender, named by id, that may sign. Both roles resolve to the
    /// sender's account.
    pub fn create_add_liquidity_op(&self, tx: &AddLiquidity, signer: &Option<PubKeyHash>) -> (r: Result<AddLiquidityOp, TxError>)
        ensures
            r == create_add_liquidity_spec(self@, *tx, *signer),
    {
        if tx.to.is_zero() {
            return Err(TxError::ZeroRecipient);
        }
        if tx.token.0 > MAX_TOKEN_ID {
            return Err(TxError::TokenNotSupported);
        }
        match self.check_signer(tx.account_id, signer) {
            Ok(()) => {},
            Err(e) => return Err(e),
        }
        Ok(AddLiquidityOp { tx: *tx, from: tx.account_id, to: tx.account_id })
    }

    /// Applies adding liquidity: `amount_a_desired` and `fee_a` leave `token` of
    /// `from`, whose nonce grows by one; then `amount_b_desired` is credited
    /// to `token` of `to`.
    pub fn apply_add_liquidity_op(&mut self, op: &AddLiquidityOp) -> (r: Result<(Option<CollectedFee>, AccountUpdates), TxError>)
        requires
            old(self).wf(),
        ensures
            final(self).wf(),
            add_liquidity_outcome(old(self)@, *op, result_view(r), final(self)@),
    {
        let updates = match self.checked_move(op.from, op.to, op.tx.nonce, op.tx.token, op.tx.amount_a_desired, op.tx.fee_a, op.tx.token, op.tx.amount_b_desired) {
            Ok(u) => u,
            Err(e) => return Err(e),
        };
        proof {
            lemma_move_delta(old(self)@, op.from.0, op.tx.token.0, op.tx.amount_a_desired + op.tx.fee_a, op.to.0, op.tx.token.0, op.tx.amount_b_desired as nat, op.tx.token.0);
        }
        Ok((Some(CollectedFee { token: op.tx.token, amount: op.tx.fee_a }), updates))
    }

    /// Validates removing liquidity: a non-zero recipient address, a token in range,
    /// and a sender, named by id, that may sign. Both roles resolve to the
    /// sender's account.
    pub fn create_remove_liquidity_op(&self, tx: &RemoveLiquidity, signer: &Option<PubKeyHash>) -> (r: Result<RemoveLiquidityOp, TxError>)
        ensures
            r == create_remove_liquidity_spec(self@, *tx, *signer),
    {
        if tx.to.is_zero() {
            return Err(TxError::ZeroRecipient);
        }
        if tx.token.0 > MAX_TOKEN_ID {
            return Err(TxError::TokenNotSupported);
        }
        match self.check_signer(tx.account_id, signer) {
            Ok(()) => {},
            Err(e) => return Err(e),
        }
        Ok(RemoveLiquidityOp { tx: *tx, from: tx.account_id, to: tx.account_id })
    }

    /// Applies removing liquidity: `amount_a_desired` and `fee_a` leave `token` of
    /// `from`, whose nonce grows by one; then `amount_b_desired` is credited
    /// to `token` of `to`.
    pub fn apply_remove_liquidity_op(&mut self, op: &RemoveLiquidityOp) -> (r: Result<(Option<CollectedFee>, AccountUpdates), TxError>)
        requires
            old(self).wf(),
        ensures
            final(self).wf(),
            remove_liquidity_outcome(old(self)@, *op, result_view(r), final(self)@),
    {
        let updates = match self.checked_move(op.from, op.to, op.tx.nonce, op.tx.token, op.tx.amount_a_desired, op.tx.fee_a, op.tx.token, op.tx.amount_b_desired) {
            Ok(u) => u,
            Err(e) => return Err(e),
        };
        proof {
            lemma_move_delta(old(self)@, op.from.0, op.tx.token.0, op.tx.amount_a_desired + op.tx.fee_a, op.to.0, op.tx.token.0, op.tx.amount_b_desired as nat, op.tx.token.0);
        }
        Ok((Some(CollectedFee { token: op.tx.token, amount: op.tx.fee_a }), updates))
    }
}


impl ZkDposState {
    /// Validates and applies a transfer, as a transfer between existing
    /// accounts or to a new one.
    pub fn apply_transfer_tx(&mut self, tx: &Transfer, signer: &Option<PubKeyHash>) -> (r: Result<OpSuccess, TxError>)
        requires
            old(self).wf(),
        ensures
            final(self).wf(),
            tx_outcome(old(self)@, create_transfer_spec(old(self)@, *tx, *signer, old(self).accounts@.len()), r, final(self)@),
    {
        let op = match self.create_transfer_op(tx, signer) {
            Ok(op) => op,
            Err(e) => return Err(e),
        };
        match op {
            ZkDposOp::Transfer(t) => match self.apply_transfer_op(&t) {
                Ok((fee, updates)) => Ok(OpSuccess { fee, updates, executed_op: op }),
                Err(e) => Err(e),
            },
            ZkDposOp::TransferToNew(t) => match self.apply_transfer_to_new_op(&t) {
                Ok((fee, updates)) => Ok(OpSuccess { fee, updates, executed_op: op }),
                Err(e) => Err(e),
            },
            _ => Err(TxError::IncorrectTransaction),
        }
    }

    /// Validates and applies a withdrawal.
    pub fn apply_withdraw_tx(&mut self, tx: &Withdraw, signer: &Option<PubKeyHash>) -> (r: Result<OpSuccess, TxError>)
        requires
            old(self).wf(),
        ensures
            final(self).wf(),
            tx_outcome(old(self)@, match create_withdraw_spec(old(self)@, *tx, *signer) { Ok(op) => Ok(ZkDposOp::Withdraw(op)), Err(e) => Err(e) }, r, final(self)@),
    {
        let op = match self.create_withdraw_op(tx, signer) {
            Ok(op) => op,
            Err(e) => return Err(e),
        };
        match self.apply_withdraw_op(&op) {
            Ok((fee, updates)) => Ok(OpSuccess { fee, updates, executed_op: ZkDposOp::Withdraw(op) }),
            Err(e) => Err(e),
        }
    }

    /// Validates and applies a forced exit.
    pub fn apply_forced_exit_tx(&mut self, tx: &ForcedExit, signer: &Option<PubKeyHash>) -> (r: Result<OpSuccess, TxError>)
        requires
            old(self).wf(),
        ensures
            final(self).wf(),
            tx_outcome(old(self)@, match create_forced_exit_spec(old(self)@, *tx, *signer) { Ok(op) => Ok(ZkDposOp::ForcedExit(op)), Err(e) => Err(e) }, r, final(self)@),
    {
        let op = match self.create_forced_exit_op(tx, signer) {
            Ok(op) => op,
            Err(e) => return Err(e),
        };
        match self.apply_forced_exit_op(&op) {
            Ok((fee, updates)) => Ok(OpSuccess { fee, updates, executed_op: ZkDposOp::ForcedExit(op) }),
            Err(e) => Err(e),
        }
    }

    /// Validates and applies a key change.
    pub fn apply_change_pubkey_tx(&mut self, tx: &ChangePubKey, signer: &Option<PubKeyHash>, auth_valid: bool) -> (r: Result<OpSuccess, TxError>)
        requires
            old(self).wf(),
        ensures
            final(self).wf(),
            tx_outcome(old(self)@, match create_change_pubkey_spec(old(self)@, *tx, *signer, auth_valid) { Ok(op) => Ok(ZkDposOp::ChangePubKeyOffchain(op)), Err(e) => Err(e) }, r, final(self)@),
    {
        let op = match self.create_change_pubkey_op(tx, signer, auth_valid) {
            Ok(op) => op,
            Err(e) => return Err(e),
        };
        match self.apply_change_pubkey_op(&op) {
            Ok((fee, updates)) => Ok(OpSuccess { fee, updates, executed_op: ZkDposOp::ChangePubKeyOffchain(op) }),
            Err(e) => Err(e),
        }
    }

    /// Validates and applies an exchange.
    pub fn apply_exchange_tx(&mut self, tx: &Exchange, signer: &Option<PubKeyHash>) -> (r: Result<OpSuccess, TxError>)
        requires
            old(self).wf(),
        ensures
            final(self).wf(),
            tx_outcome(old(self)@, match create_exchange_spec(old(self)@, *tx, *signer) { Ok(op) => Ok(ZkDposOp::Exchange(op)), Err(e) => Err(e) }, r, final(self)@),
            old(self)@.contains_key(tx.account_id.0) && old(self)@[tx.account_id.0].balances[tx.token_a.0] < tx.amount_a + tx.fee ==> r is Err,
    {
        let op = match self.create_exchange_op(tx, signer) {
            Ok(op) => op,
            Err(e) => return Err(e),
        };
        match self.apply_exchange_op(&op) {
            Ok((fee, updates)) => Ok(OpSuccess { fee, updates, executed_op: ZkDposOp::Exchange(op) }),
            Err(e) => Err(e),
        }
    }

    /// Validates and applies adding liquidity.
    pub fn apply_add_liquidity_tx(&mut self, tx: &AddLiquidity, signer: &Option<PubKeyHash>) -> (r: Result<OpSuccess, TxError>)
        requires
            old(self).wf(),
        ensures
            final(self).wf(),
            tx_outcome(old(self)@, match create_add_liquidity_spec(old(self)@, *tx, *signer) { Ok(op) => Ok(ZkDposOp::AddLiquidity(op)), Err(e) => Err(e) }, r, final(self)@),
            old(self)@.contains_key(tx.account_id.0) && old(self)@[tx.account_id.0].balances[tx.token.0] < tx.amount_a_desired + tx.fee_a ==> r is Err,
    {
        let op = match self.create_add_liquidity_op(tx, signer) {
            Ok(op) => op,
            Err(e) => return Err(e),
        };
        match self.apply_add_liquidity_op(&op) {
            Ok((fee, updates)) => Ok(OpSuccess { fee, updates, executed_op: ZkDposOp::AddLiquidity(op) }),
            Err(e) => Err(e),
        }
    }

    /// Validates and applies removing liquidity.
    pub fn apply_remove_liquidity_tx(&mut self, tx: &RemoveLiquidity, signer: &Option<PubKeyHash>) -> (r: Result<OpSuccess, TxError>)
        requires
            old(self).wf(),
        ensures
            final(self).wf(),
            tx_outcome(old(self)@, match create_remove_liquidity_spec(old(self)@, *tx, *signer) { Ok(op) => Ok(ZkDposOp::RemoveLiquidity(op)), Err(e) => Err(e) }, r, final(self)@),
            old(self)@.contains_key(tx.account_id.0) && old(self)@[tx.account_id.0].balances[tx.token.0] < tx.amount_a_desired + tx.fee_a ==> r is Err,
    {
        let op = match self.create_remove_liquidity_op(tx, signer) {
            Ok(op) => op,
            Err(e) => return Err(e),
        };
        match self.apply_remove_liquidity_op(&op) {
            Ok((fee, updates)) => Ok(OpSuccess { fee, updates, executed_op: ZkDposOp::RemoveLiquidity(op) }),
            Err(e) => Err(e),
        }
    }
}


/// Result of applying an operation, with the update list as a sequence.
pub type OpResult = Result<(Option<CollectedFee>, Seq<(AccountId, AccountUpdate)>), TxError>;

pub open spec fn result_view(r: Result<(Option<CollectedFee>, AccountUpdates), TxError>) -> OpResult {
    match r {
        Ok((fee, updates)) => Ok((fee, updates@)),
        Err(e) => Err(e),
    }
}

pub broadcast proof fn lemma_result_view(r: Result<(Option<CollectedFee>, AccountUpdates), TxError>)
    ensures
        #[trigger] result_view(r) is Ok <==> r is Ok,
{
}

pub broadcast proof fn lemma_success_view(r: Result<OpSuccess, TxError>)
    ensures
        #[trigger] success_view(r) is Ok <==> r is Ok,
{
}

pub open spec fn success_view(r: Result<OpSuccess, TxError>) -> OpResult {
    match r {
        Ok(s) => Ok((s.fee, s.updates@)),
        Err(e) => Err(e),
    }
}

/// `r` is the rejection `e`.
pub open spec fn rejected(r: OpResult, e: TxError) -> bool {
    r == Err::<(Option<CollectedFee>, Seq<(AccountId, AccountUpdate)>), TxError>(e)
}

/// What a move does: the checks of `move_check` in order, then a credit
/// that must fit; on success the sender pays `debit` from `tf` and its nonce
/// grows by one, then `credit` lands on `tt` of `to`.
pub open spec fn move_outcome(m: Map<u32, AccountModel>, from: u32, to: u32, nonce: u32, tf: u16, debit: int, tt: u16, credit: nat, fee: CollectedFee, r: OpResult, m2: Map<u32, AccountModel>) -> bool {
    let c = move_check(m, from, to, nonce, tf, debit);
    let m1 = debited(m, from, tf, debit);
    &&& c is Some ==> rejected(r, c->Some_0)
    &&& c is None ==> (r is Ok <==> credit_fits(m1, to, tt, credit))
    &&& c is None && !credit_fits(m1, to, tt, credit) ==> rejected(r, TxError::BalanceOverflow)
    &&& r is Ok ==> m2 == credited(m1, to, tt, credit) && r->Ok_0.0 == Some(fee)
        && r->Ok_0.1 == move_updates(m, from, tf, debit, to, tt, credit)
        && m2[from].nonce == m[from].nonce + 1 && (to != from ==> m2[to].nonce == m[to].nonce)
    &&& r is Err ==> m2 == m
}

pub open spec fn transfer_outcome(m: Map<u32, AccountModel>, op: TransferOp, r: OpResult, m2: Map<u32, AccountModel>) -> bool {
    &&& move_outcome(m, op.from.0, op.to.0, op.tx.nonce.0, op.tx.token.0, op.tx.amount + op.tx.fee, op.tx.token.0, op.tx.amount as nat,
        CollectedFee { token: op.tx.token, amount: op.tx.fee }, r, m2)
    &&& r is Ok ==> balance_delta(r->Ok_0.1, op.tx.token.0) == -(op.tx.fee as int)
}

pub open spec fn transfer_to_new_outcome(m: Map<u32, AccountModel>, op: TransferToNewOp, r: OpResult, m2: Map<u32, AccountModel>) -> bool {
    let from = op.from.0;
    let to = op.to.0;
    let t = op.tx.token.0;
    let m0 = m.insert(to, fresh_model(op.tx.to@));
    let ids_ok = from <= MAX_ACCOUNT_ID && to <= MAX_ACCOUNT_ID;
    &&& !ids_ok ==> rejected(r, TxError::AccountIdTooBig)
    &&& ids_ok && (m.contains_key(to) || owner_of(m, op.tx.to@) is Some) ==> rejected(r, TxError::AccountExists)
    &&& ids_ok && !m.contains_key(to) && owner_of(m, op.tx.to@) is None && from == to ==> rejected(r, TxError::AccountNotFound)
    &&& ids_ok && !m.contains_key(to) && owner_of(m, op.tx.to@) is None && from != to ==> match move_check(m0, from, to, op.tx.nonce.0, t, op.tx.amount + op.tx.fee) {
        Some(e) => rejected(r, e),
        None => r is Ok,
    }
    &&& r is Ok ==> m2 == credited(debited(m0, from, t, op.tx.amount + op.tx.fee), to, t, op.tx.amount as nat)
        && r->Ok_0.1 == seq![(op.to, AccountUpdate::Create { address: op.tx.to, nonce: Nonce(0) })]
            + move_updates(m0, from, t, op.tx.amount + op.tx.fee, to, t, op.tx.amount as nat)
        && r->Ok_0.0 == Some(CollectedFee { token: op.tx.token, amount: op.tx.fee })
        && balance_delta(r->Ok_0.1, t) == -(op.tx.fee as int)
        && m2[from].nonce == m[from].nonce + 1 && m2[to].nonce == 0
    &&& r is Err ==> m2 == m
}

pub open spec fn deposit_outcome(m: Map<u32, AccountModel>, op: DepositOp, r: OpResult, m2: Map<u32, AccountModel>) -> bool {
    let id = op.account_id.0;
    let t = op.priority_op.token.0;
    let base = deposit_base(m, op);
    let placeable = m.contains_key(id) || owner_of(m, op.priority_op.to@) is None;
    &&& id > MAX_ACCOUNT_ID ==> rejected(r, TxError::AccountIdTooBig)
    &&& id <= MAX_ACCOUNT_ID && !placeable ==> rejected(r, TxError::AccountExists)
    &&& id <= MAX_ACCOUNT_ID && placeable ==> (r is Ok <==> base.balances[t] + op.priority_op.amount <= u128::MAX)
    &&& id <= MAX_ACCOUNT_ID && placeable && r is Err ==> rejected(r, TxError::BalanceOverflow)
    &&& r is Ok ==> m2 == m.insert(id, with_balance(base, t, (base.balances[t] + op.priority_op.amount) as u128))
        && r->Ok_0.0 is None && r->Ok_0.1 == deposit_updates(m, op)
        && balance_delta(r->Ok_0.1, t) == op.priority_op.amount as int
    &&& r is Err ==> m2 == m
}

pub open spec fn full_exit_outcome(m: Map<u32, AccountModel>, op: FullExitOp, r: OpResult, m2: Map<u32, AccountModel>) -> bool {
    let id = op.priority_op.account_id.0;
    let t = op.priority_op.token.0;
    &&& op.withdraw_amount is None ==> r == Ok::<(Option<CollectedFee>, Seq<(AccountId, AccountUpdate)>), TxError>((None, Seq::empty())) && m2 == m
    &&& op.withdraw_amount is Some ==> {
        let amount = op.withdraw_amount->Some_0;
        &&& id > MAX_ACCOUNT_ID ==> rejected(r, TxError::AccountIdTooBig)
        &&& id <= MAX_ACCOUNT_ID && !m.contains_key(id) ==> rejected(r, TxError::AccountNotFound)
        &&& id <= MAX_ACCOUNT_ID && m.contains_key(id) ==> (r is Ok <==> m[id].balances[t] >= amount)
            && (r is Err ==> rejected(r, TxError::InsufficientBalance))
        &&& r is Ok ==> m2 == withdrawn(m, id, t, amount as int) && r->Ok_0.0 is None
            && r->Ok_0.1 == seq![balance_update(id, t, m[id].balances[t], (m[id].balances[t] - amount) as u128, m[id].nonce, m[id].nonce)]
    }
    &&& r is Err ==> m2 == m
}

pub open spec fn withdraw_outcome(m: Map<u32, AccountModel>, op: WithdrawOp, r: OpResult, m2: Map<u32, AccountModel>) -> bool {
    let id = op.account_id.0;
    let t = op.tx.token.0;
    let c = move_check(m, id, id, op.tx.nonce.0, t, op.tx.amount + op.tx.fee);
    &&& c is Some ==> rejected(r, c->Some_0)
    &&& c is None ==> r is Ok
    &&& r is Ok ==> m2 == debited(m, id, t, op.tx.amount + op.tx.fee)
        && r->Ok_0.0 == Some(CollectedFee { token: op.tx.token, amount: op.tx.fee })
        && r->Ok_0.1 == seq![balance_update(id, t, m[id].balances[t], (m[id].balances[t] - op.tx.amount - op.tx.fee) as u128, m[id].nonce, (m[id].nonce + 1) as u32)]
        && m2[id].nonce == m[id].nonce + 1
    &&& r is Err ==> m2 == m
}

pub open spec fn forced_exit_outcome(m: Map<u32, AccountModel>, op: ForcedExitOp, r: OpResult, m2: Map<u32, AccountModel>) -> bool {
    let init = op.tx.initiator_account_id.0;
    let target = op.target_account_id.0;
    let t = op.tx.token.0;
    let amount = crate::operations::amount_or_zero(op.withdraw_amount);
    let m1 = debited(m, init, t, op.tx.fee as int);
    let c = move_check(m, init, target, op.tx.nonce.0, t, op.tx.fee as int);
    &&& c is Some ==> rejected(r, c->Some_0)
    &&& c is None ==> (r is Ok <==> m1[target].balances[t] >= amount) && (r is Err ==> rejected(r, TxError::InsufficientBalance))
    &&& r is Ok ==> m2 == withdrawn(m1, target, t, amount as int)
        && r->Ok_0.0 == Some(CollectedFee { token: op.tx.token, amount: op.tx.fee })
        && r->Ok_0.1 == seq![
            balance_update(init, t, m[init].balances[t], m1[init].balances[t], m[init].nonce, m1[init].nonce),
            balance_update(target, t, m1[target].balances[t], (m1[target].balances[t] - amount) as u128, m1[target].nonce, m1[target].nonce),
        ]
        && m2[init].nonce == m[init].nonce + 1
        && (target != init ==> m2[target].nonce == m[target].nonce)
    &&& r is Err ==> m2 == m
}

pub open spec fn change_pubkey_outcome(m: Map<u32, AccountModel>, op: ChangePubKeyOp, r: OpResult, m2: Map<u32, AccountModel>) -> bool {
    let id = op.account_id.0;
    let t = op.tx.fee_token.0;
    let m1 = m.insert(id, AccountModel { pub_key_hash: op.tx.new_pk_hash.0@, ..m[id] });
    let a = m[id];
    let c = move_check(m, id, id, op.tx.nonce.0, t, op.tx.fee as int);
    &&& c is Some ==> rejected(r, c->Some_0)
    &&& c is None ==> r is Ok
    &&& r is Ok ==> m2 == debited(m1, id, t, op.tx.fee as int)
        && r->Ok_0.0 == Some(CollectedFee { token: op.tx.fee_token, amount: op.tx.fee })
        && r->Ok_0.1.len() == 2
        && r->Ok_0.1[0].0 == op.account_id
        && (r->Ok_0.1[0].1 matches AccountUpdate::ChangePubKeyHash { old_pub_key_hash, new_pub_key_hash, old_nonce, new_nonce }
            && old_pub_key_hash.0@ == a.pub_key_hash && new_pub_key_hash == op.tx.new_pk_hash
            && old_nonce.0 == a.nonce && new_nonce.0 == a.nonce + 1)
        && r->Ok_0.1[1] == balance_update(id, t, a.balances[t], (a.balances[t] - op.tx.fee) as u128, (a.nonce + 1) as u32, (a.nonce + 1) as u32)
        && m2[id].nonce == a.nonce + 1
    &&& r is Err ==> m2 == m
}

pub open spec fn close_outcome(m: Map<u32, AccountModel>, op: CloseOp, r: OpResult, m2: Map<u32, AccountModel>) -> bool {
    let id = op.account_id.0;
    let a = m[id];
    let empty = forall|t: u16| #[trigger] a.balances[t] == 0;
    &&& id > MAX_ACCOUNT_ID ==> rejected(r, TxError::AccountIdTooBig)
    &&& id <= MAX_ACCOUNT_ID && !m.contains_key(id) ==> rejected(r, TxError::AccountNotFound)
    &&& id <= MAX_ACCOUNT_ID && m.contains_key(id) && !empty ==> rejected(r, TxError::AccountNotEmpty)
    &&& id <= MAX_ACCOUNT_ID && m.contains_key(id) && empty && a.nonce != op.tx.nonce.0 ==> rejected(r, TxError::NonceMismatch)
    &&& id <= MAX_ACCOUNT_ID && m.contains_key(id) && empty && a.nonce == op.tx.nonce.0 ==> r is Ok
    &&& r is Ok ==> m2 == m.remove(id)
        && r->Ok_0.0 == Some(CollectedFee { token: TokenId(ATP_TOKEN_ID), amount: 0 })
        && r->Ok_0.1.len() == 1 && r->Ok_0.1[0].0 == op.account_id
        && (r->Ok_0.1[0].1 matches AccountUpdate::Delete { address, nonce } && address@ == a.address && nonce.0 == a.nonce)
    &&& r is Err ==> m2 == m
}

pub open spec fn exchange_outcome(m: Map<u32, AccountModel>, op: ExchangeOp, r: OpResult, m2: Map<u32, AccountModel>) -> bool {
    &&& move_outcome(m, op.from.0, op.to.0, op.tx.nonce.0, op.tx.token_a.0, op.tx.amount_a + op.tx.fee, op.tx.token_b.0,
        op.tx.amount_b as nat, CollectedFee { token: op.tx.token_a, amount: op.tx.fee }, r, m2)
    &&& r is Ok ==> balance_delta(r->Ok_0.1, op.tx.token_a.0) == (if op.tx.token_b == op.tx.token_a { op.tx.amount_b as int } else { 0 })
        - op.tx.amount_a - op.tx.fee
}

pub open spec fn add_liquidity_outcome(m: Map<u32, AccountModel>, op: AddLiquidityOp, r: OpResult, m2: Map<u32, AccountModel>) -> bool {
    &&& move_outcome(m, op.from.0, op.to.0, op.tx.nonce.0, op.tx.token.0, op.tx.amount_a_desired + op.tx.fee_a, op.tx.token.0,
        op.tx.amount_b_desired as nat, CollectedFee { token: op.tx.token, amount: op.tx.fee_a }, r, m2)
    &&& r is Ok ==> balance_delta(r->Ok_0.1, op.tx.token.0) == op.tx.amount_b_desired - op.tx.amount_a_desired - op.tx.fee_a
}

pub open spec fn remove_liquidity_outcome(m: Map<u32, AccountModel>, op: RemoveLiquidityOp, r: OpResult, m2: Map<u32, AccountModel>) -> bool {
    &&& move_outcome(m, op.from.0, op.to.0, op.tx.nonce.0, op.tx.token.0, op.tx.amount_a_desired + op.tx.fee_a, op.tx.token.0,
        op.tx.amount_b_desired as nat, CollectedFee { token: op.tx.token, amount: op.tx.fee_a }, r, m2)
    &&& r is Ok ==> balance_delta(r->Ok_0.1, op.tx.token.0) == op.tx.amount_b_desired - op.tx.amount_a_desired - op.tx.fee_a
}

/// What applying an executed operation of any kind does to ledger `m`,
/// giving result `r` and ledger `m2`.
pub open spec fn op_outcome(m: Map<u32, AccountModel>, op: ZkDposOp, r: OpResult, m2: Map<u32, AccountModel>) -> bool {
    match op {
        ZkDposOp::Noop(_) => r == Ok::<(Option<CollectedFee>, Seq<(AccountId, AccountUpdate)>), TxError>((None, Seq::empty())) && m2 == m,
        ZkDposOp::Deposit(o) => deposit_outcome(m, o, r, m2),
        ZkDposOp::Transfer(o) => transfer_outcome(m, o, r, m2),
        ZkDposOp::TransferToNew(o) => transfer_to_new_outcome(m, o, r, m2),
        ZkDposOp::Withdraw(o) => withdraw_outcome(m, o, r, m2),
        ZkDposOp::Close(o) => close_outcome(m, o, r, m2),
        ZkDposOp::FullExit(o) => full_exit_outcome(m, o, r, m2),
        ZkDposOp::ChangePubKeyOffchain(o) => change_pubkey_outcome(m, o, r, m2),
        ZkDposOp::ForcedExit(o) => forced_exit_outcome(m, o, r, m2),
        ZkDposOp::Exchange(o) => exchange_outcome(m, o, r, m2),
        ZkDposOp::AddLiquidity(o) => add_liquidity_outcome(m, o, r, m2),
        ZkDposOp::RemoveLiquidity(o) => remove_liquidity_outcome(m, o, r, m2),
    }
}

/// The account that signs, resolved by address: it must exist, have a key,
/// have signed, and be the declared account.
pub open spec fn sender_result(m: Map<u32, AccountModel>, addr: Seq<u8>, account_id: AccountId, signer: Option<PubKeyHash>) -> Result<AccountId, TxError> {
    match owner_of(m, addr) {
        None => Err(TxError::AccountNotFound),
        Some(id) => match signer_check(m[id], signer) {
            Some(e) => Err(e),
            None => if id == account_id.0 {
                Ok(account_id)
            } else {
                Err(TxError::WrongAccountId)
            },
        },
    }
}

/// The account that signs, named by id: it must exist, have a key and have signed.
pub open spec fn signer_result(m: Map<u32, AccountModel>, id: AccountId, signer: Option<PubKeyHash>) -> Result<(), TxError> {
    if !m.contains_key(id.0) {
        Err(TxError::AccountNotFound)
    } else {
        match signer_check(m[id.0], signer) {
            Some(e) => Err(e),
            None => Ok(()),
        }
    }
}

/// What validating a transfer gives; `free` is the next free account id.
pub open spec fn create_transfer_spec(m: Map<u32, AccountModel>, tx: Transfer, signer: Option<PubKeyHash>, free: nat) -> Result<ZkDposOp, TxError> {
    if tx.token.0 > MAX_TOKEN_ID {
        Err(TxError::TokenNotSupported)
    } else if tx.to@ == zero_hash() {
        Err(TxError::ZeroRecipient)
    } else {
        match sender_result(m, tx.from@, tx.account_id, signer) {
            Err(e) => Err(e),
            Ok(from) => match owner_of(m, tx.to@) {
                Some(to) => Ok(ZkDposOp::Transfer(TransferOp { tx, from, to: AccountId(to) })),
                None => Ok(ZkDposOp::TransferToNew(TransferToNewOp { tx, from, to: AccountId(free as u32) })),
            },
        }
    }
}

pub open spec fn create_withdraw_spec(m: Map<u32, AccountModel>, tx: Withdraw, signer: Option<PubKeyHash>) -> Result<WithdrawOp, TxError> {
    if tx.token.0 > MAX_TOKEN_ID {
        Err(TxError::TokenNotSupported)
    } else {
        match sender_result(m, tx.from@, tx.account_id, signer) {
            Err(e) => Err(e),
            Ok(id) => Ok(WithdrawOp { tx, account_id: id }),
        }
    }
}

pub open spec fn create_forced_exit_spec(m: Map<u32, AccountModel>, tx: ForcedExit, signer: Option<PubKeyHash>) -> Result<ForcedExitOp, TxError> {
    if tx.token.0 > MAX_TOKEN_ID {
        Err(TxError::TokenNotSupported)
    } else {
        match signer_result(m, tx.initiator_account_id, signer) {
            Err(e) => Err(e),
            Ok(_) => match owner_of(m, tx.target@) {
                None => Err(TxError::AccountNotFound),
                Some(t) => if m[t].pub_key_hash != zero_hash() {
                    Err(TxError::TargetNotLocked)
                } else {
                    Ok(ForcedExitOp { tx, target_account_id: AccountId(t), withdraw_amount: Some(m[t].balances[tx.token.0]) })
                },
            },
        }
    }
}

pub open spec fn create_change_pubkey_spec(m: Map<u32, AccountModel>, tx: ChangePubKey, signer: Option<PubKeyHash>, auth_valid: bool) -> Result<ChangePubKeyOp, TxError> {
    if tx.fee_token.0 > MAX_TOKEN_ID {
        Err(TxError::TokenNotSupported)
    } else if !m.contains_key(tx.account_id.0) {
        Err(TxError::AccountNotFound)
    } else if m[tx.account_id.0].address != tx.account@ {
        Err(TxError::WrongAccountId)
    } else if !auth_valid {
        Err(TxError::AuthorizationInvalid)
    } else if !(signer is Some && signer->Some_0.0@ == tx.new_pk_hash.0@) {
        Err(TxError::WrongSignature)
    } else {
        Ok(ChangePubKeyOp { tx, account_id: tx.account_id })
    }
}

pub open spec fn create_exchange_spec(m: Map<u32, AccountModel>, tx: Exchange, signer: Option<PubKeyHash>) -> Result<ExchangeOp, TxError> {
    if tx.token_a.0 > MAX_TOKEN_ID || tx.token_b.0 > MAX_TOKEN_ID {
        Err(TxError::TokenNotSupported)
    } else {
        match sender_result(m, tx.from@, tx.account_id, signer) {
            Err(e) => Err(e),
            Ok(id) => Ok(ExchangeOp { tx, from: id, to: id }),
        }
    }
}

pub open spec fn create_add_liquidity_spec(m: Map<u32, AccountModel>, tx: AddLiquidity, signer: Option<PubKeyHash>) -> Result<AddLiquidityOp, TxError> {
    if tx.to@ == zero_hash() {
        Err(TxError::ZeroRecipient)
    } else if tx.token.0 > MAX_TOKEN_ID {
        Err(TxError::TokenNotSupported)
    } else {
        match signer_result(m, tx.account_id, signer) {
            Err(e) => Err(e),
            Ok(_) => Ok(AddLiquidityOp { tx, from: tx.account_id, to: tx.account_id }),
        }
    }
}

pub open spec fn create_remove_liquidity_spec(m: Map<u32, AccountModel>, tx: RemoveLiquidity, signer: Option<PubKeyHash>) -> Result<RemoveLiquidityOp, TxError> {
    if tx.to@ == zero_hash() {
        Err(TxError::ZeroRecipient)
    } else if tx.token.0 > MAX_TOKEN_ID {
        Err(TxError::TokenNotSupported)
    } else {
        match signer_result(m, tx.account_id, signer) {
            Err(e) => Err(e),
            Ok(_) => Ok(RemoveLiquidityOp { tx, from: tx.account_id, to: tx.account_id }),
        }
    }
}

pub open spec fn create_deposit_spec(m: Map<u32, AccountModel>, priority_op: Deposit, free: nat) -> Result<DepositOp, TxError> {
    if priority_op.token.0 > MAX_TOKEN_ID {
        Err(TxError::TokenNotSupported)
    } else {
        match owner_of(m, priority_op.to@) {
            Some(id) => Ok(DepositOp { priority_op, account_id: AccountId(id) }),
            None => Ok(DepositOp { priority_op, account_id: AccountId(free as u32) }),
        }
    }
}

pub open spec fn create_full_exit_spec(m: Map<u32, AccountModel>, priority_op: FullExit) -> Result<FullExitOp, TxError> {
    let id = priority_op.account_id.0;
    if id > MAX_ACCOUNT_ID {
        Err(TxError::AccountIdTooBig)
    } else if priority_op.token.0 > MAX_TOKEN_ID {
        Err(TxError::TokenNotSupported)
    } else {
        Ok(FullExitOp {
            priority_op,
            withdraw_amount: if m.contains_key(id) && m[id].address == priority_op.atp_address@ {
                Some(m[id].balances[priority_op.token.0])
            } else {
                None
            },
        })
    }
}

/// What validating and then applying a transaction does: the validation's
/// rejection with the ledger unchanged, or the outcome of applying the
/// operation it built.
pub open spec fn tx_outcome(m: Map<u32, AccountModel>, created: Result<ZkDposOp, TxError>, r: Result<OpSuccess, TxError>, m2: Map<u32, AccountModel>) -> bool {
    match created {
        Err(e) => rejected(success_view(r), e) && m2 == m,
        Ok(op) => op_outcome(m, op, success_view(r), m2) && (r is Ok ==> r->Ok_0.executed_op == op),
    }
}

/// The fee an executed operation of this kind collects.
pub open spec fn fee_of(op: ZkDposOp) -> Option<CollectedFee> {
    match op {
        ZkDposOp::Transfer(o) => Some(CollectedFee { token: o.tx.token, amount: o.tx.fee }),
        ZkDposOp::TransferToNew(o) => Some(CollectedFee { token: o.tx.token, amount: o.tx.fee }),
        ZkDposOp::Withdraw(o) => Some(CollectedFee { token: o.tx.token, amount: o.tx.fee }),
        ZkDposOp::ForcedExit(o) => Some(CollectedFee { token: o.tx.token, amount: o.tx.fee }),
        ZkDposOp::ChangePubKeyOffchain(o) => Some(CollectedFee { token: o.tx.fee_token, amount: o.tx.fee }),
        ZkDposOp::Exchange(o) => Some(CollectedFee { token: o.tx.token_a, amount: o.tx.fee }),
        ZkDposOp::AddLiquidity(o) => Some(CollectedFee { token: o.tx.token, amount: o.tx.fee_a }),
        ZkDposOp::RemoveLiquidity(o) => Some(CollectedFee { token: o.tx.token, amount: o.tx.fee_a }),
        ZkDposOp::Close(_) => Some(CollectedFee { token: TokenId(ATP_TOKEN_ID), amount: 0 }),
        _ => None,
    }
}

impl ZkDposState {
    /// Applies an executed operation of any kind, as when replaying a block;
    /// a filler operation changes nothing.
    pub fn apply_op(&mut self, op: &ZkDposOp) -> (r: Result<(Option<CollectedFee>, AccountUpdates), TxError>)
        requires
            old(self).wf(),
        ensures
            final(self).wf(),
            op_outcome(old(self)@, *op, result_view(r), final(self)@),
    {
        match op {
            ZkDposOp::Noop(_) => Ok((None, Vec::new())),
            ZkDposOp::Deposit(o) => self.apply_deposit_op(o),
            ZkDposOp::Transfer(o) => self.apply_transfer_op(o),
            ZkDposOp::TransferToNew(o) => self.apply_transfer_to_new_op(o),
            ZkDposOp::Withdraw(o) => self.apply_withdraw_op(o),
            ZkDposOp::Close(o) => self.apply_close_op(o),
            ZkDposOp::FullExit(o) => self.apply_full_exit_op(o),
            ZkDposOp::ChangePubKeyOffchain(o) => self.apply_change_pubkey_op(o),
            ZkDposOp::ForcedExit(o) => self.apply_forced_exit_op(o),
            ZkDposOp::Exchange(o) => self.apply_exchange_op(o),
            ZkDposOp::AddLiquidity(o) => self.apply_add_liquidity_op(o),
            ZkDposOp::RemoveLiquidity(o) => self.apply_remove_liquidity_op(o),
        }
    }
}

/// Value conservation: when a transfer-shaped move debits amount plus fee
/// and credits the amount in the same token, its records change that token
/// in total by minus the fee.
pub proof fn lemma_value_conservation(m: Map<u32, AccountModel>, from: u32, to: u32, t: u16, amount: nat, fee: nat)
    requires
        m.contains_key(from),
        m.contains_key(to),
        m[from].balances[t] >= (amount + fee) as int,
        m[from].nonce < u32::MAX,
        credit_fits(debited(m, from, t, (amount + fee) as int), to, t, amount),
    ensures
        balance_delta(move_updates(m, from, t, (amount + fee) as int, to, t, amount), t) == -(fee as int),
{
    lemma_move_delta(m, from, t, (amount + fee) as int, to, t, amount, t);
}

/// A creation record in front changes no balance.
proof fn lemma_delta_after_create(u: Seq<(AccountId, AccountUpdate)>, id: AccountId, address: Address, t: u16)
    requires
        u.len() >= 1,
        u[0] == (id, AccountUpdate::Create { address, nonce: Nonce(0) }),
    ensures
        balance_delta(u, t) == balance_delta(u.subrange(1, u.len() as int), t),
    decreases u.len(),
{
    if u.len() == 1 {
        reveal_with_fuel(balance_delta, 2);
        assert(u.drop_last().len() == 0);
        assert(u.subrange(1, 1).len() == 0);
    } else {
        lemma_delta_after_create(u.drop_last(), id, address, t);
        assert(u.drop_last().subrange(1, u.len() - 1) =~= u.subrange(1, u.len() as int).drop_last());
    }
}

/// A move's records change token `t` in total by the credit less the debit
/// of the legs that touch `t`.
pub proof fn lemma_move_delta(m: Map<u32, AccountModel>, from: u32, tf: u16, debit: int, to: u32, tt: u16, credit: nat, t: u16)
    requires
        m.contains_key(from),
        m.contains_key(to),
        m[from].balances[tf] >= debit,
        debit >= 0,
        m[from].nonce < u32::MAX,
        credit_fits(debited(m, from, tf, debit), to, tt, credit),
    ensures
        balance_delta(move_updates(m, from, tf, debit, to, tt, credit), t)
            == (if tt == t { credit as int } else { 0 }) - (if tf == t { debit as int } else { 0 }),
{
    let u = move_updates(m, from, tf, debit, to, tt, credit);
    reveal_with_fuel(balance_delta, 3);
    assert(u.drop_last().drop_last() =~= Seq::<(AccountId, AccountUpdate)>::empty());
    assert(u.drop_last() =~= seq![u[0]]);
}

} // verus!
