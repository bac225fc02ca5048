//! The share-accounting ledger.
//!
//! The [`Vault`] holds the pool's two running totals: the quantity of the
//! underlying asset it owns (`total_lp_tokens`) and the claims issued
//! against that quantity (`total_shares`).  A deposit credits the pool and
//! grants shares at the pool's exchange rate; a withdrawal burns shares and
//! releases the proportional quantity of the asset.  Moving the asset and
//! the share tokens themselves is the token ledger's work, done by the
//! caller around these functions; the functions here decide every quantity
//! and keep the ledger's invariants.

use vstd::arithmetic::div_mod::{
    lemma_div_is_ordered, lemma_div_multiples_vanish, lemma_div_pos_is_pos,
    lemma_multiply_divide_le, lemma_multiply_divide_lt,
};
use vstd::arithmetic::mul::{lemma_mul_nonnegative, lemma_mul_upper_bound};
use vstd::prelude::*;

use crate::errors::CustomError;

verus! {

/// The vault's persisted record: derivation byte, the address of the token
/// account holding the pooled asset, and the two running totals.
#[derive(Clone, Copy, Debug)]
pub struct Vault {
    /// Derivation proof byte, fixed at creation and never mutated.
    pub bump: u8,
    /// Address of the token account holding the pool's deposited asset;
    /// immutable after initialization.
    pub lp_token_account: [u8; 32],
    /// Total quantity of the underlying asset the vault currently owns.
    pub total_lp_tokens: u64,
    /// Total outstanding claims on `total_lp_tokens`.
    pub total_shares: u64,
}

impl Vault {
    /// The ledger's invariant: every share is backed by at least one pooled
    /// unit per share, and the totals reach zero together.
    pub open spec fn wf(self) -> bool {
        &&& self.total_shares <= self.total_lp_tokens
        &&& (self.total_shares == 0 ==> self.total_lp_tokens == 0)
    }
}

/// The shares granted for depositing `amount` into a pool of
/// `total_lp_tokens` units with `total_shares` outstanding: the amount
/// itself into an empty pool, otherwise the deposit's proportion of the
/// post-credit pool, rounded down.
pub open spec fn shares_for_deposit(total_lp_tokens: u64, total_shares: u64, amount: u64) -> int {
    if total_shares == 0 {
        amount as int
    } else {
        (amount * total_shares) / (total_lp_tokens + amount)
    }
}

/// The units released for burning `shares`: their proportion of the
/// pre-mutation pool, rounded down.
pub open spec fn units_for_withdraw(total_lp_tokens: u64, total_shares: u64, shares: u64) -> int
    recommends
        total_shares > 0,
{
    (shares * total_lp_tokens) / (total_shares as int)
}

/// Whether a deposit of `amount` is accepted: it must be positive and must
/// not overflow the pooled total.
pub open spec fn deposit_accepted(v: Vault, amount: u64) -> bool {
    &&& amount > 0
    &&& v.total_lp_tokens + amount <= u64::MAX
}

/// Whether a withdrawal of `shares` is accepted: positive and no more than
/// the outstanding total.
pub open spec fn withdraw_accepted(v: Vault, shares: u64) -> bool {
    0 < shares <= v.total_shares
}

/// The ledger after a deposit: both totals credited where the deposit is
/// accepted, the ledger unchanged where it is rejected.
pub open spec fn spec_deposit(v: Vault, amount: u64) -> Vault {
    if deposit_accepted(v, amount) {
        Vault {
            bump: v.bump,
            lp_token_account: v.lp_token_account,
            total_lp_tokens: (v.total_lp_tokens + amount) as u64,
            total_shares: (v.total_shares
                + shares_for_deposit(v.total_lp_tokens, v.total_shares, amount)) as u64,
        }
    } else {
        v
    }
}

/// The ledger after a withdrawal: both totals debited where the withdrawal
/// is accepted, the ledger unchanged where it is rejected.
pub open spec fn spec_withdraw(v: Vault, shares: u64) -> Vault {
    if withdraw_accepted(v, shares) {
        Vault {
            bump: v.bump,
            lp_token_account: v.lp_token_account,
            total_lp_tokens: (v.total_lp_tokens
                - units_for_withdraw(v.total_lp_tokens, v.total_shares, shares)) as u64,
            total_shares: (v.total_shares - shares) as u64,
        }
    } else {
        v
    }
}

/// A deposit into a backed, non-empty pool grants strictly fewer shares
/// than the units deposited, so the grant fits every bound the ledger
/// needs.
proof fn lemma_deposit_share_bound(t: u64, s: u64, a: u64)
    requires
        1 <= s,
        s <= t,
        1 <= a,
    ensures
        0 <= (a * s) / (t + a),
        (a * s) / (t + a) < a,
{
    lemma_mul_nonnegative(a as int, s as int);
    lemma_div_pos_is_pos(a * s, t + a);
    assert(a * s < (t + a) * a) by (nonlinear_arith)
        requires
            1 <= a,
            s <= t,
    ;
    lemma_multiply_divide_lt(a * s, t + a, a as int);
}

/// Bounds on the units released by burning `sh` of `s` outstanding shares
/// against `t` pooled units: the payout fits in the pool, burning every
/// share drains the pool exactly, and the remaining shares stay backed by
/// the remaining units.
proof fn lemma_withdraw_units_bound(t: u64, s: u64, sh: u64)
    requires
        s <= t,
        1 <= sh,
        sh <= s,
    ensures
        0 <= (sh * t) / (s as int),
        (sh * t) / (s as int) <= t,
        sh == s ==> (sh * t) / (s as int) == t,
        s - sh <= t - (sh * t) / (s as int),
{
    lemma_mul_nonnegative(sh as int, t as int);
    lemma_div_pos_is_pos(sh * t, s as int);
    assert(sh * t <= (s as int) * (t as int)) by (nonlinear_arith)
        requires
            sh <= s,
    ;
    lemma_div_is_ordered(sh * t, (s as int) * (t as int), s as int);
    lemma_div_multiples_vanish(t as int, s as int);
    assert(sh * t <= (s as int) * (t - s + sh)) by (nonlinear_arith)
        requires
            sh <= s,
            s <= t,
    ;
    lemma_multiply_divide_le(sh * t, s as int, t - s + sh);
}

/// Produces a fresh ledger: zero pooled units, zero outstanding shares.
pub fn initialize_vault(bump: u8, lp_token_account: [u8; 32]) -> (v: Vault)
    ensures
        v.bump == bump,
        v.lp_token_account == lp_token_account,
        v.total_lp_tokens == 0,
        v.total_shares == 0,
        v.wf(),
{
    Vault { bump, lp_token_account, total_lp_tokens: 0, total_shares: 0 }
}

impl Vault {
    /// Credits a deposit of `amount` pooled units and grants the depositor
    /// shares at the pool's exchange rate.
    ///
    /// The first deposit bootstraps a one-to-one rate; later deposits are
    /// granted their proportion of the post-credit pool, rounded down.  The
    /// multiplication runs in 128-bit arithmetic, so no intermediate step
    /// wraps.  A deposit of zero, or one that would overflow the pooled
    /// total, is rejected as `InvalidAmount` with the ledger untouched.
    pub fn deposit(&mut self, amount: u64) -> (r: Result<u64, CustomError>)
        requires
            old(self).wf(),
        ensures
            *final(self) == spec_deposit(*old(self), amount),
            final(self).wf(),
            deposit_accepted(*old(self), amount) ==> r == Ok::<u64, CustomError>(
                shares_for_deposit(
                    old(self).total_lp_tokens,
                    old(self).total_shares,
                    amount,
                ) as u64,
            ),
            !deposit_accepted(*old(self), amount) ==> r == Err::<u64, CustomError>(
                CustomError::InvalidAmount,
            ) && *final(self) == *old(self),
    {
        if amount == 0 {
            return Err(CustomError::InvalidAmount);
        }
        if amount > u64::MAX - self.total_lp_tokens {
            return Err(CustomError::InvalidAmount);
        }
        let new_total: u64 = self.total_lp_tokens + amount;
        let shares: u64 = if self.total_shares == 0 {
            amount
        } else {
            proof {
                lemma_deposit_share_bound(self.total_lp_tokens, self.total_shares, amount);
                lemma_mul_upper_bound(
                    amount as int,
                    u64::MAX as int,
                    self.total_shares as int,
                    u64::MAX as int,
                );
            }
            let wide: u128 = (amount as u128) * (self.total_shares as u128);
            (wide / (new_total as u128)) as u64
        };
        self.total_lp_tokens = new_total;
        self.total_shares = self.total_shares + shares;
        Ok(shares)
    }

    /// Burns `shares` of the caller's claims and releases their proportion
    /// of the pool, computed against the pre-mutation totals.
    ///
    /// A request for zero shares, or for more than are outstanding, is
    /// rejected as `InvalidSharesAmount` with the ledger untouched.
    pub fn withdraw(&mut self, shares: u64) -> (r: Result<u64, CustomError>)
        requires
            old(self).wf(),
        ensures
            *final(self) == spec_withdraw(*old(self), shares),
            final(self).wf(),
            withdraw_accepted(*old(self), shares) ==> r == Ok::<u64, CustomError>(
                units_for_withdraw(
                    old(self).total_lp_tokens,
                    old(self).total_shares,
                    shares,
                ) as u64,
            ),
            !withdraw_accepted(*old(self), shares) ==> r == Err::<u64, CustomError>(
                CustomError::InvalidSharesAmount,
            ) && *final(self) == *old(self),
    {
        let total_shares: u64 = self.total_shares;
        let total_lp_tokens: u64 = self.total_lp_tokens;
        if shares == 0 || shares > total_shares {
            return Err(CustomError::InvalidSharesAmount);
        }
        proof {
            lemma_withdraw_units_bound(total_lp_tokens, total_shares, shares);
            lemma_mul_upper_bound(
                shares as int,
                u64::MAX as int,
                total_lp_tokens as int,
                u64::MAX as int,
            );
        }
        let wide: u128 = (shares as u128) * (total_lp_tokens as u128);
        let amount: u64 = (wide / (total_shares as u128)) as u64;
        self.total_shares = total_shares - shares;
        self.total_lp_tokens = total_lp_tokens - amount;
        Ok(amount)
    }
}

/// One ledger mutation: what a depositor or withdrawer submits.
#[derive(Clone, Copy, Debug, PartialEq, Eq, Structural)]
pub enum LedgerOp {
    /// A deposit of `amount` pooled units.
    Deposit { amount: u64 },
    /// A withdrawal burning `shares` claims.
    Withdraw { shares: u64 },
}

/// The ledger after one operation: the accepted mutation, or the ledger
/// unchanged where the operation is rejected.
pub open spec fn apply_op(v: Vault, op: LedgerOp) -> Vault {
    match op {
        LedgerOp::Deposit { amount } => spec_deposit(v, amount),
        LedgerOp::Withdraw { shares } => spec_withdraw(v, shares),
    }
}

/// The ledger after a whole sequence of operations, applied in order.
pub open spec fn apply_ops(v: Vault, ops: Seq<LedgerOp>) -> Vault
    decreases ops.len(),
{
    if ops.len() == 0 {
        v
    } else {
        apply_ops(apply_op(v, ops[0]), ops.drop_first())
    }
}

/// One deposit or withdrawal, accepted or rejected, keeps the ledger
/// well-formed.
pub proof fn lemma_op_preserves_wf(v: Vault, op: LedgerOp)
    requires
        v.wf(),
    ensures
        apply_op(v, op).wf(),
{
    match op {
        LedgerOp::Deposit { amount } => {
            if deposit_accepted(v, amount) && v.total_shares > 0 {
                lemma_deposit_share_bound(v.total_lp_tokens, v.total_shares, amount);
            }
        },
        LedgerOp::Withdraw { shares } => {
            if withdraw_accepted(v, shares) {
                lemma_withdraw_units_bound(v.total_lp_tokens, v.total_shares, shares);
            }
        },
    }
}

/// Share conservation: from a well-formed ledger, every sequence of
/// deposits and withdrawals leaves the ledger well-formed — the shares
/// outstanding never exceed the pooled units, and `total_lp_tokens` is zero
/// whenever `total_shares` is zero.
pub proof fn lemma_share_conservation(v: Vault, ops: Seq<LedgerOp>)
    requires
        v.wf(),
    ensures
        apply_ops(v, ops).wf(),
    decreases ops.len(),
{
    if ops.len() > 0 {
        lemma_op_preserves_wf(v, ops[0]);
        lemma_share_conservation(apply_op(v, ops[0]), ops.drop_first());
    }
}

/// Withdraw round-trip bound: a withdrawal of `0 < shares <= total_shares`
/// releases exactly `floor(shares * total_lp_tokens / total_shares)` units,
/// the released units never exceed the pool, neither total can go below
/// zero, and burning every outstanding share releases exactly
/// `total_lp_tokens`, leaving both totals zero.
pub proof fn lemma_withdraw_round_trip(v: Vault, shares: u64)
    requires
        v.wf(),
        0 < shares,
        shares <= v.total_shares,
    ensures
        withdraw_accepted(v, shares),
        units_for_withdraw(v.total_lp_tokens, v.total_shares, shares) == (shares
            * v.total_lp_tokens) / (v.total_shares as int),
        0 <= units_for_withdraw(v.total_lp_tokens, v.total_shares, shares),
        units_for_withdraw(v.total_lp_tokens, v.total_shares, shares) <= v.total_lp_tokens,
        spec_withdraw(v, shares).total_shares == v.total_shares - shares,
        spec_withdraw(v, shares).total_lp_tokens == v.total_lp_tokens - units_for_withdraw(
            v.total_lp_tokens,
            v.total_shares,
            shares,
        ),
        shares == v.total_shares ==> spec_withdraw(v, shares).total_lp_tokens == 0
            && spec_withdraw(v, shares).total_shares == 0,
{
    lemma_withdraw_units_bound(v.total_lp_tokens, v.total_shares, shares);
}

} // verus!
