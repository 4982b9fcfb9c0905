use vstd::prelude::*;

use crate::contract::Contract;
use crate::error::PoolError;
use crate::liquidity::settle;
use crate::swap::PendingSwap;
use crate::wallet::set_balances;

verus! {

/// The kind of command an inbound transfer can carry.
#[derive(Clone, Copy, Debug, PartialEq, Eq, Structural)]
pub enum TransferType {
    Swap,
}

/// The command carried in an inbound transfer's message.
#[derive(Clone, Copy, Debug, PartialEq, Eq, Structural)]
pub struct TransferCommand {
    pub transfer_type: TransferType,
}

/// What the pool answers to an inbound transfer.
#[derive(Clone, Debug, PartialEq, Eq)]
pub enum TransferReply {
    /// The transfer is settled; `refund` goes back to the sender (all of it
    /// on failure, nothing on success).
    Settled { refund: u128 },
    /// A swap was accepted; its outgoing transfer is to be made.
    Pending(PendingSwap),
}

/// Whether a parsed message asks for a swap. A message that could not be
/// parsed comes as `None`.
pub open spec fn is_swap_command(command: Option<TransferCommand>) -> bool {
    match command {
        Some(c) => match c.transfer_type {
            TransferType::Swap => true,
        },
        None => false,
    }
}

impl Contract {
    /// The pool after the owner deposits `amount` of `token_id`.
    pub open spec fn deposit_outcome(self, sender: Seq<char>, token_id: Seq<char>, amount: u128) -> Result<
        Contract,
        PoolError,
    > {
        if sender != self.owner_id@ {
            Err(PoolError::PermissionDenied)
        } else if self.swap_in_flight {
            Err(PoolError::Busy)
        } else {
            match self.existing_slot_of(token_id) {
                Err(e) => Err(e),
                Ok(first) => {
                    let w = if first {
                        self.wallet1()
                    } else {
                        self.wallet2()
                    };
                    if w.deposit + amount > u128::MAX {
                        Err(PoolError::DepositOverflow)
                    } else {
                        let n = w.with_balances((w.deposit + amount) as u128, w.liquidity);
                        if first {
                            Ok(Contract { token1_wallet: Some(n), ..self })
                        } else {
                            Ok(Contract { token2_wallet: Some(n), ..self })
                        }
                    }
                },
            }
        }
    }

    /// The reply to an inbound transfer and the pool it leaves.
    pub open spec fn transfer_outcome(
        self,
        sender_id: String,
        token_id: String,
        amount: u128,
        command: Option<TransferCommand>,
    ) -> (TransferReply, Contract) {
        if is_swap_command(command) {
            match self.swap_tokens_failure(token_id@, amount) {
                Some(_) => (TransferReply::Settled { refund: amount }, self),
                None => (
                    TransferReply::Pending(self.staged_swap(sender_id, token_id@, amount)),
                    Contract { swap_in_flight: true, ..self },
                ),
            }
        } else {
            match self.deposit_outcome(sender_id@, token_id@, amount) {
                Ok(s) => (TransferReply::Settled { refund: 0 }, s),
                Err(_) => (TransferReply::Settled { refund: amount }, self),
            }
        }
    }

    /// Adds an inbound transfer of the owner to the deposit of its asset,
    /// whose wallet must exist.
    pub fn on_transfer_deposit(&mut self, sender_id: &String, token_id: &String, amount: u128) -> (r:
        Result<(), PoolError>)
        ensures
            settle(r, *old(self), *final(self), old(self).deposit_outcome(sender_id@, token_id@, amount)),
            old(self).wf() ==> final(self).wf(),
    {
        if !self.is_owner(sender_id) {
            return Err(PoolError::PermissionDenied);
        }
        if self.swap_in_flight {
            return Err(PoolError::Busy);
        }
        let first = match self.find_existing_slot(token_id) {
            Ok(first) => first,
            Err(e) => {
                return Err(e);
            },
        };
        let (deposit, liquidity) = match if first {
            &self.token1_wallet
        } else {
            &self.token2_wallet
        } {
            Some(w) => (w.deposit, w.liquidity),
            None => {
                return Err(PoolError::WalletNotProvisioned);
            },
        };
        let deposit = match deposit.checked_add(amount) {
            Some(d) => d,
            None => {
                return Err(PoolError::DepositOverflow);
            },
        };
        if first {
            set_balances(&mut self.token1_wallet, deposit, liquidity);
        } else {
            set_balances(&mut self.token2_wallet, deposit, liquidity);
        }
        Ok(())
    }

    /// Handles an inbound transfer of `amount` of `token_id` from `sender_id`.
    ///
    /// A swap command starts a swap; anything else, including a message that
    /// could not be parsed, is a deposit. Whatever fails is refunded in full
    /// and leaves the pool as it was.
    pub fn ft_on_transfer(
        &mut self,
        sender_id: String,
        token_id: String,
        amount: u128,
        command: Option<TransferCommand>,
    ) -> (r: TransferReply)
        ensures
            (r, *final(self)) == old(self).transfer_outcome(sender_id, token_id, amount, command),
            (command is None && sender_id@ != old(self).owner_id@) ==> (r == (TransferReply::Settled {
                refund: amount,
            }) && *final(self) == *old(self)),
            old(self).wf() ==> final(self).wf(),
    {
        let is_swap = match command {
            Some(TransferCommand { transfer_type: TransferType::Swap }) => true,
            None => false,
        };
        if is_swap {
            match self.swap_tokens(sender_id, &token_id, amount) {
                Ok(stage) => TransferReply::Pending(stage),
                Err(_) => TransferReply::Settled { refund: amount },
            }
        } else {
            match self.on_transfer_deposit(&sender_id, &token_id, amount) {
                Ok(()) => TransferReply::Settled { refund: 0 },
                Err(_) => TransferReply::Settled { refund: amount },
            }
        }
    }
}

} // verus!
