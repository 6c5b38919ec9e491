//! Estimate of the base-chain gas that committing and verifying a block will
//! cost; it decides how many operations a block may take.

use vstd::prelude::*;
use crate::tx::ChangePubKeyAuth;
use crate::zkdpos_op::ZkDposOp;

verus! {

/// Gas that one base-chain transaction may spend.
pub const TX_GAS_LIMIT: u64 = 4_000_000;

/// Withdrawals completed by one `completeWithdrawals` call.
pub const MAX_WITHDRAWALS_TO_COMPLETE_IN_A_CALL: u64 = 20;

/// Costs of processing each kind in the commit call.
#[derive(Debug)]
pub struct CommitCost;

impl CommitCost {
    pub const BASE_COST: u64 = 40_000;
    pub const DEPOSIT_COST: u64 = 7_000;
    pub const OLD_CHANGE_PUBKEY_COST_OFFCHAIN: u64 = 15_000;
    pub const CHANGE_PUBKEY_COST_OFFCHAIN: u64 = 11_050;
    pub const CHANGE_PUBKEY_COST_ONCHAIN: u64 = 4_000;
    pub const TRANSFER_COST: u64 = 250;
    pub const EXCHANGE_COST: u64 = 250;
    pub const ADDLIQUIDITY_COST: u64 = 250;
    pub const REMOVELIQUIDITY_COST: u64 = 250;
    pub const TRANSFER_TO_NEW_COST: u64 = 780;
    pub const FULL_EXIT_COST: u64 = 7_000;
    pub const WITHDRAW_COST: u64 = 3_500;
    pub const FORCED_EXIT_COST: u64 = 3_500;

    pub open spec fn cost(op: ZkDposOp) -> u64 {
        match op {
            ZkDposOp::Noop(_) => 0,
            ZkDposOp::Deposit(_) => Self::DEPOSIT_COST,
            ZkDposOp::ChangePubKeyOffchain(c) => if c.tx.auth == ChangePubKeyAuth::ECDSA {
                Self::CHANGE_PUBKEY_COST_OFFCHAIN
            } else {
                Self::CHANGE_PUBKEY_COST_ONCHAIN
            },
            ZkDposOp::Transfer(_) => Self::TRANSFER_COST,
            ZkDposOp::Exchange(_) => Self::EXCHANGE_COST,
            ZkDposOp::AddLiquidity(_) => Self::ADDLIQUIDITY_COST,
            ZkDposOp::RemoveLiquidity(_) => Self::REMOVELIQUIDITY_COST,
            ZkDposOp::TransferToNew(_) => Self::TRANSFER_TO_NEW_COST,
            ZkDposOp::FullExit(_) => Self::FULL_EXIT_COST,
            ZkDposOp::Withdraw(_) => Self::WITHDRAW_COST,
            ZkDposOp::ForcedExit(_) => Self::FORCED_EXIT_COST,
            ZkDposOp::Close(_) => 0,
        }
    }

    /// Cost of a commit call with no operations.
    pub fn base_cost() -> (r: u64)
        ensures
            r == Self::BASE_COST,
    {
        Self::BASE_COST
    }

    /// Commit cost of one operation. Closing is disabled and has no cost.
    pub fn op_cost(op: &ZkDposOp) -> (r: u64)
        requires
            !(op is Close),
        ensures
            r == Self::cost(*op),
    {
        match op {
            ZkDposOp::Noop(_) => 0,
            ZkDposOp::Deposit(_) => Self::DEPOSIT_COST,
            ZkDposOp::ChangePubKeyOffchain(change_pubkey) => {
                if change_pubkey.tx.is_ecdsa() {
                    Self::CHANGE_PUBKEY_COST_OFFCHAIN
                } else {
                    Self::CHANGE_PUBKEY_COST_ONCHAIN
                }
            },
            ZkDposOp::Transfer(_) => Self::TRANSFER_COST,
            ZkDposOp::Exchange(_) => Self::EXCHANGE_COST,
            ZkDposOp::AddLiquidity(_) => Self::ADDLIQUIDITY_COST,
            ZkDposOp::RemoveLiquidity(_) => Self::REMOVELIQUIDITY_COST,
            ZkDposOp::TransferToNew(_) => Self::TRANSFER_TO_NEW_COST,
            ZkDposOp::FullExit(_) => Self::FULL_EXIT_COST,
            ZkDposOp::Withdraw(_) => Self::WITHDRAW_COST,
            ZkDposOp::ForcedExit(_) => Self::FORCED_EXIT_COST,
            ZkDposOp::Close(_) => 0,
        }
    }
}

/// Costs of processing each kind in the verify call.
#[derive(Debug)]
pub struct VerifyCost;

impl VerifyCost {
    pub const BASE_COST: u64 = 10_000;
    pub const DEPOSIT_COST: u64 = 50;
    pub const CHANGE_PUBKEY_COST: u64 = 0;
    pub const TRANSFER_COST: u64 = 0;
    pub const EXCHANGE_COST: u64 = 0;
    pub const ADDLIQUIDITY_COST: u64 = 0;
    pub const REMOVELIQUIDITY_COST: u64 = 0;
    pub const TRANSFER_TO_NEW_COST: u64 = 0;
    pub const FULL_EXIT_COST: u64 = 30_000;
    pub const WITHDRAW_COST: u64 = 48_000;
    pub const FORCED_EXIT_COST: u64 = 48_000;

    pub open spec fn cost(op: ZkDposOp) -> u64 {
        match op {
            ZkDposOp::Noop(_) => 0,
            ZkDposOp::Deposit(_) => Self::DEPOSIT_COST,
            ZkDposOp::ChangePubKeyOffchain(_) => Self::CHANGE_PUBKEY_COST,
            ZkDposOp::Transfer(_) => Self::TRANSFER_COST,
            ZkDposOp::Exchange(_) => Self::EXCHANGE_COST,
            ZkDposOp::AddLiquidity(_) => Self::ADDLIQUIDITY_COST,
            ZkDposOp::RemoveLiquidity(_) => Self::REMOVELIQUIDITY_COST,
            ZkDposOp::TransferToNew(_) => Self::TRANSFER_TO_NEW_COST,
            ZkDposOp::FullExit(_) => Self::FULL_EXIT_COST,
            ZkDposOp::Withdraw(_) => Self::WITHDRAW_COST,
            ZkDposOp::ForcedExit(_) => Self::FORCED_EXIT_COST,
            ZkDposOp::Close(_) => 0,
        }
    }

    /// Cost of a verify call with no operations.
    pub fn base_cost() -> (r: u64)
        ensures
            r == Self::BASE_COST,
    {
        Self::BASE_COST
    }

    /// Verify cost of one operation. Closing is disabled and has no cost.
    pub fn op_cost(op: &ZkDposOp) -> (r: u64)
        requires
            !(op is Close),
        ensures
            r == Self::cost(*op),
    {
        match op {
            ZkDposOp::Noop(_) => 0,
            ZkDposOp::Deposit(_) => Self::DEPOSIT_COST,
            ZkDposOp::ChangePubKeyOffchain(_) => Self::CHANGE_PUBKEY_COST,
            ZkDposOp::Transfer(_) => Self::TRANSFER_COST,
            ZkDposOp::Exchange(_) => Self::EXCHANGE_COST,
            ZkDposOp::AddLiquidity(_) => Self::ADDLIQUIDITY_COST,
            ZkDposOp::RemoveLiquidity(_) => Self::REMOVELIQUIDITY_COST,
            ZkDposOp::TransferToNew(_) => Self::TRANSFER_TO_NEW_COST,
            ZkDposOp::FullExit(_) => Self::FULL_EXIT_COST,
            ZkDposOp::Withdraw(_) => Self::WITHDRAW_COST,
            ZkDposOp::ForcedExit(_) => Self::FORCED_EXIT_COST,
            ZkDposOp::Close(_) => 0,
        }
    }
}

/// `v` raised by 30%, rounded down.
pub open spec fn scaled(v: int) -> int {
    v * 130 / 100
}

/// The operation does not fit into the block.
#[derive(Debug, Clone, Copy, PartialEq, Eq, Structural)]
pub struct WrongTransaction;

/// Running commit and verify cost estimates of the block being filled.
#[derive(Debug, Clone, Copy)]
pub struct GasCounter {
    pub commit_cost: u64,
    pub verify_cost: u64,
}

impl GasCounter {
    /// Base cost of a `completeWithdrawals` call.
    pub const COMPLETE_WITHDRAWALS_BASE_COST: u64 = 30_307;
    /// Cost of one withdrawal in a `completeWithdrawals` call.
    pub const COMPLETE_WITHDRAWALS_COST: u64 = 41_641;
    /// Upper bound of the cost of a token withdrawal.
    pub const COMPLETE_WITHDRAWALS_ERC20_COST: u64 = 200_000;
    pub const BASE_COMMIT_BLOCKS_TX_COST: u64 = 450_000;
    pub const BASE_EXECUTE_BLOCKS_TX_COST: u64 = 450_000;
    pub const BASE_PROOF_BLOCKS_TX_COST: u64 = 1_500_000;

    /// A counter of an empty block.
    pub fn new() -> (r: GasCounter)
        ensures
            r.commit_cost == CommitCost::BASE_COST,
            r.verify_cost == VerifyCost::BASE_COST,
    {
        GasCounter { commit_cost: CommitCost::base_cost(), verify_cost: VerifyCost::base_cost() }
    }

    /// Raises a value by 30%.
    fn scale_up(value: u64) -> (r: u128)
        ensures
            r == scaled(value as int),
    {
        (value as u128) * 130 / 100
    }

    /// Adds the operation's costs if both scaled totals stay within
    /// `TX_GAS_LIMIT`; otherwise changes nothing and the block must be
    /// sealed without the operation.
    pub fn add_op(&mut self, op: &ZkDposOp) -> (r: Result<(), WrongTransaction>)
        requires
            !(op is Close),
        ensures
            r is Ok <==> (scaled(old(self).commit_cost + CommitCost::cost(*op)) <= TX_GAS_LIMIT
                && scaled(old(self).verify_cost + VerifyCost::cost(*op)) <= TX_GAS_LIMIT),
            r is Ok ==> final(self).commit_cost == old(self).commit_cost + CommitCost::cost(*op)
                && final(self).verify_cost == old(self).verify_cost + VerifyCost::cost(*op),
            r is Err ==> *final(self) == *old(self),
    {
        let commit_op = CommitCost::op_cost(op);
        if self.commit_cost > u64::MAX - commit_op {
            return Err(WrongTransaction);
        }
        let new_commit_cost = self.commit_cost + commit_op;
        if Self::scale_up(new_commit_cost) > TX_GAS_LIMIT as u128 {
            return Err(WrongTransaction);
        }
        let verify_op = VerifyCost::op_cost(op);
        if self.verify_cost > u64::MAX - verify_op {
            return Err(WrongTransaction);
        }
        let new_verify_cost = self.verify_cost + verify_op;
        if Self::scale_up(new_verify_cost) > TX_GAS_LIMIT as u128 {
            return Err(WrongTransaction);
        }
        self.commit_cost = new_commit_cost;
        self.verify_cost = new_verify_cost;
        Ok(())
    }

    /// Gas limit of the commit transaction: the commit cost raised by 30%.
    pub fn commit_gas_limit(&self) -> (r: u128)
        ensures
            r == scaled(self.commit_cost as int),
    {
        Self::scale_up(self.commit_cost)
    }

    /// Gas limit of the verify transaction: the verify cost raised by 30%.
    pub fn verify_gas_limit(&self) -> (r: u128)
        ensures
            r == scaled(self.verify_cost as int),
    {
        Self::scale_up(self.verify_cost)
    }

    /// Upper bound of a `completeWithdrawals` call, raised by 30%.
    pub fn complete_withdrawals_gas_limit() -> (r: u128)
        ensures
            r == scaled(Self::COMPLETE_WITHDRAWALS_BASE_COST + MAX_WITHDRAWALS_TO_COMPLETE_IN_A_CALL
                * Self::COMPLETE_WITHDRAWALS_ERC20_COST),
    {
        let approx_limit = Self::COMPLETE_WITHDRAWALS_BASE_COST + MAX_WITHDRAWALS_TO_COMPLETE_IN_A_CALL
            * Self::COMPLETE_WITHDRAWALS_ERC20_COST;
        Self::scale_up(approx_limit)
    }

    /// Gas limit of one call committing several blocks, given each block's commit limit.
    pub fn commit_gas_limit_aggregated(block_limits: &[u64]) -> (r: u128)
        ensures
            r == Self::BASE_COMMIT_BLOCKS_TX_COST + sum_of(block_limits@),
    {
        Self::BASE_COMMIT_BLOCKS_TX_COST as u128 + sum_limits(block_limits)
    }

    /// Gas limit of one call executing several blocks, given each block's verify limit.
    pub fn execute_gas_limit_aggregated(block_limits: &[u64]) -> (r: u128)
        ensures
            r == Self::BASE_EXECUTE_BLOCKS_TX_COST + sum_of(block_limits@),
    {
        Self::BASE_EXECUTE_BLOCKS_TX_COST as u128 + sum_limits(block_limits)
    }
}

pub open spec fn sum_of(s: Seq<u64>) -> int
    decreases s.len(),
{
    if s.len() == 0 {
        0
    } else {
        sum_of(s.drop_last()) + s.last()
    }
}

proof fn lemma_sum_bound(s: Seq<u64>)
    ensures
        0 <= sum_of(s) <= s.len() * (u64::MAX as int),
    decreases s.len(),
{
    if s.len() > 0 {
        lemma_sum_bound(s.drop_last());
    }
}

fn sum_limits(block_limits: &[u64]) -> (r: u128)
    ensures
        r == sum_of(block_limits@),
        r <= u128::MAX - 0x1_0000_0000,
{
    let mut acc: u128 = 0;
    let mut i: usize = 0;
    let n = block_limits.len();
    while i < n
        invariant
            n == block_limits@.len(),
            0 <= i <= n,
            acc == sum_of(block_limits@.subrange(0, i as int)),
            acc <= i * (u64::MAX as int),
        decreases n - i,
    {
        assert(block_limits@.subrange(0, i + 1).drop_last() =~= block_limits@.subrange(0, i as int));
        assert(i * (u64::MAX as int) + (u64::MAX as int) == (i + 1) * (u64::MAX as int)) by (nonlinear_arith);
        assert((i + 1) * (u64::MAX as int) <= 0x1_0000_0000_0000_0000 * (u64::MAX as int)) by (nonlinear_arith)
            requires
                i < 0x1_0000_0000_0000_0000,
        ;
        acc = acc + block_limits[i] as u128;
        i = i + 1;
    }
    assert(block_limits@.subrange(0, n as int) =~= block_limits@);
    assert(n * (u64::MAX as int) <= u128::MAX - 0x1_0000_0000) by (nonlinear_arith)
        requires
            n <= usize::MAX,
            usize::MAX <= u64::MAX,
    ;
    acc
}

} // verus!
