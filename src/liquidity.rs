use vstd::prelude::*;

use crate::contract::Contract;
use crate::error::PoolError;
use crate::wallet::set_balances;

verus! {

/// The state a successful operation leaves, or the error of a refused one.
pub open spec fn settle(r: Result<(), PoolError>, before: Contract, after: Contract, outcome: Result<Contract, PoolError>) -> bool {
    match outcome {
        Ok(s) => r is Ok && after == s,
        Err(e) => r == Err::<(), PoolError>(e) && after == before,
    }
}

impl Contract {
    /// The pool after the owner moves `amounts` from deposit to liquidity.
    pub open spec fn add_liquidity_outcome(self, caller: Seq<char>, amounts: [u128; 2]) -> Result<
        Contract,
        PoolError,
    > {
        if caller != self.owner_id@ {
            Err(PoolError::PermissionDenied)
        } else if self.swap_in_flight {
            Err(PoolError::Busy)
        } else if !self.is_active() {
            Err(PoolError::WalletNotProvisioned)
        } else {
            let (w1, w2) = (self.wallet1(), self.wallet2());
            if w1.deposit < amounts[0] || w2.deposit < amounts[1] {
                Err(PoolError::InsufficientDeposit)
            } else if w1.liquidity + amounts[0] > u128::MAX || w2.liquidity + amounts[1]
                > u128::MAX {
                Err(PoolError::LiquidityOverflow)
            } else {
                Ok(
                    Contract {
                        token1_wallet: Some(
                            w1.with_balances(
                                (w1.deposit - amounts[0]) as u128,
                                (w1.liquidity + amounts[0]) as u128,
                            ),
                        ),
                        token2_wallet: Some(
                            w2.with_balances(
                                (w2.deposit - amounts[1]) as u128,
                                (w2.liquidity + amounts[1]) as u128,
                            ),
                        ),
                        ..self
                    },
                )
            }
        }
    }

    /// The pool after the owner moves `amounts` from liquidity back to deposit.
    pub open spec fn remove_liquidity_outcome(self, caller: Seq<char>, amounts: [u128; 2]) -> Result<
        Contract,
        PoolError,
    > {
        if caller != self.owner_id@ {
            Err(PoolError::PermissionDenied)
        } else if self.swap_in_flight {
            Err(PoolError::Busy)
        } else if !self.is_active() {
            Err(PoolError::WalletNotProvisioned)
        } else {
            let (w1, w2) = (self.wallet1(), self.wallet2());
            if w1.liquidity < amounts[0] || w2.liquidity < amounts[1] {
                Err(PoolError::InsufficientLiquidity)
            } else if w1.deposit + amounts[0] > u128::MAX || w2.deposit + amounts[1] > u128::MAX {
                Err(PoolError::DepositOverflow)
            } else {
                Ok(
                    Contract {
                        token1_wallet: Some(
                            w1.with_balances(
                                (w1.deposit + amounts[0]) as u128,
                                (w1.liquidity - amounts[0]) as u128,
                            ),
                        ),
                        token2_wallet: Some(
                            w2.with_balances(
                                (w2.deposit + amounts[1]) as u128,
                                (w2.liquidity - amounts[1]) as u128,
                            ),
                        ),
                        ..self
                    },
                )
            }
        }
    }

    /// Moves `amounts` of each asset from the owner's deposit into the pool's
    /// liquidity. Both assets are checked before either is changed.
    pub fn add_liquidity(&mut self, caller: &String, amounts: [u128; 2]) -> (r: Result<(), PoolError>)
        ensures
            settle(r, *old(self), *final(self), old(self).add_liquidity_outcome(caller@, amounts)),
            old(self).wf() ==> final(self).wf(),
    {
        if !self.is_owner(caller) {
            return Err(PoolError::PermissionDenied);
        }
        if self.swap_in_flight {
            return Err(PoolError::Busy);
        }
        let (d1, l1, d2, l2) = match (&self.token1_wallet, &self.token2_wallet) {
            (Some(w1), Some(w2)) => (w1.deposit, w1.liquidity, w2.deposit, w2.liquidity),
            _ => {
                return Err(PoolError::WalletNotProvisioned);
            },
        };
        let a1 = amounts[0];
        let a2 = amounts[1];
        if d1 < a1 || d2 < a2 {
            return Err(PoolError::InsufficientDeposit);
        }
        let (n1, n2) = match (l1.checked_add(a1), l2.checked_add(a2)) {
            (Some(n1), Some(n2)) => (n1, n2),
            _ => {
                return Err(PoolError::LiquidityOverflow);
            },
        };
        set_balances(&mut self.token1_wallet, d1 - a1, n1);
        set_balances(&mut self.token2_wallet, d2 - a2, n2);
        Ok(())
    }

    /// Moves `amounts` of each asset from the pool's liquidity back to the
    /// owner's deposit. Both assets are checked before either is changed; the
    /// pool may be drained completely.
    pub fn remove_liquidity(&mut self, caller: &String, amounts: [u128; 2]) -> (r: Result<
        (),
        PoolError,
    >)
        ensures
            settle(r, *old(self), *final(self), old(self).remove_liquidity_outcome(caller@, amounts)),
            old(self).wf() ==> final(self).wf(),
    {
        if !self.is_owner(caller) {
            return Err(PoolError::PermissionDenied);
        }
        if self.swap_in_flight {
            return Err(PoolError::Busy);
        }
        let (d1, l1, d2, l2) = match (&self.token1_wallet, &self.token2_wallet) {
            (Some(w1), Some(w2)) => (w1.deposit, w1.liquidity, w2.deposit, w2.liquidity),
            _ => {
                return Err(PoolError::WalletNotProvisioned);
            },
        };
        let a1 = amounts[0];
        let a2 = amounts[1];
        if l1 < a1 || l2 < a2 {
            return Err(PoolError::InsufficientLiquidity);
        }
        let (n1, n2) = match (d1.checked_add(a1), d2.checked_add(a2)) {
            (Some(n1), Some(n2)) => (n1, n2),
            _ => {
                return Err(PoolError::DepositOverflow);
            },
        };
        set_balances(&mut self.token1_wallet, n1, l1 - a1);
        set_balances(&mut self.token2_wallet, n2, l2 - a2);
        Ok(())
    }
}

} // verus!
