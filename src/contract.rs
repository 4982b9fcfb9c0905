use vstd::prelude::*;

use crate::error::PoolError;
use crate::wallet::{set_balances, AssetMetadata, TokenWallet};
use crate::wide::{compute_tokens_ratio, decimal_digits, wide_to_decimal};

verus! {

/// One NEAR in yoctoNEAR: the collateral of one wallet registration.
pub const ONE_NEAR: u128 = 1_000_000_000_000_000_000_000_000;

/// Whether the contract accepts storage operations.
#[derive(Clone, Copy, Debug, PartialEq, Eq, Structural)]
pub enum RunningState {
    Running,
    Paused,
}

/// The pool's state: its owner, its running flag, the two wallet slots and
/// the single-flight guard of swaps.
///
/// While `swap_in_flight` is set, a swap waits for its outgoing transfer and
/// every operation that writes balances (swap, deposit, adding or removing
/// liquidity) is refused with `Busy`; the waiting swap's staged wallets can
/// then replace the current ones without losing anything.
#[derive(Clone, Debug)]
pub struct Contract {
    pub owner_id: String,
    pub running_state: RunningState,
    pub token1_wallet: Option<TokenWallet>,
    pub token2_wallet: Option<TokenWallet>,
    pub swap_in_flight: bool,
}

/// The host's part of wallet creation: for each asset, fetch its metadata
/// and register the pool with it, attaching `collateral_per_wallet`; then
/// report both outcomes to `Contract::on_created_tokens_wallets`.
#[derive(Clone, Debug, PartialEq, Eq)]
pub struct ProvisionRequest {
    pub token1: String,
    pub token2: String,
    pub collateral_per_wallet: u128,
}

/// What `get_pool` shows of an active pool.
#[derive(Clone, Debug, PartialEq, Eq)]
pub struct PoolView {
    pub token_ids: [String; 2],
    pub decimals: [u8; 2],
    pub amounts: [u128; 2],
    pub ratio: String,
}

/// The wallet slot that `Contract::install` leaves, and what it reports.
pub open spec fn install_slot(
    slot: Option<TokenWallet>,
    other: Option<TokenWallet>,
    token_id: String,
    metadata: Option<AssetMetadata>,
    registered: bool,
) -> (Option<TokenWallet>, Result<(), PoolError>) {
    if slot is Some {
        if slot->Some_0.token_id@ == token_id@ {
            (slot, Ok(()))
        } else {
            (slot, Err(PoolError::UnsupportedAsset))
        }
    } else if metadata is None || !registered {
        (slot, Err(PoolError::ExternalCallFailed))
    } else if other is Some && other->Some_0.token_id@ == token_id@ {
        (slot, Err(PoolError::UnsupportedAsset))
    } else {
        (
            Some(TokenWallet { token_id, metadata: metadata->Some_0, deposit: 0, liquidity: 0 }),
            Ok(()),
        )
    }
}

/// The request that creates the wallets of `token1` and `token2`.
pub open spec fn provision_request_of(token1: String, token2: String) -> ProvisionRequest {
    ProvisionRequest { token1, token2, collateral_per_wallet: ONE_NEAR }
}

impl Contract {
    /// Well-formedness: the two wallets, when both exist, belong to different assets.
    pub open spec fn wf(self) -> bool {
        (self.token1_wallet is Some && self.token2_wallet is Some) ==> self.token1_wallet->Some_0.token_id@
            != self.token2_wallet->Some_0.token_id@
    }

    /// Both wallets exist: the pool can be queried and swapped.
    pub open spec fn is_active(self) -> bool {
        self.token1_wallet is Some && self.token2_wallet is Some
    }

    pub open spec fn wallet1(self) -> TokenWallet {
        self.token1_wallet->Some_0
    }

    pub open spec fn wallet2(self) -> TokenWallet {
        self.token2_wallet->Some_0
    }

    /// Which slot holds the wallet of `token_id` (`true` for the first),
    /// or why none does.
    pub open spec fn slot_of(self, token_id: Seq<char>) -> Result<bool, PoolError> {
        if !self.is_active() {
            Err(PoolError::WalletNotProvisioned)
        } else if token_id == self.wallet1().token_id@ {
            Ok(true)
        } else if token_id == self.wallet2().token_id@ {
            Ok(false)
        } else {
            Err(PoolError::UnsupportedAsset)
        }
    }

    /// Which existing wallet belongs to `token_id` (`true` for the first),
    /// or why none does: while a slot is empty the asset may yet get it.
    pub open spec fn existing_slot_of(self, token_id: Seq<char>) -> Result<bool, PoolError> {
        if self.token1_wallet is Some && token_id == self.wallet1().token_id@ {
            Ok(true)
        } else if self.token2_wallet is Some && token_id == self.wallet2().token_id@ {
            Ok(false)
        } else if !self.is_active() {
            Err(PoolError::WalletNotProvisioned)
        } else {
            Err(PoolError::UnsupportedAsset)
        }
    }

    /// The new contract, with no wallets, and the wallet creation to start
    /// when `tokens` names the two assets.
    pub fn init(owner_id: String, tokens: Option<(String, String)>) -> (r: (
        Contract,
        Option<ProvisionRequest>,
    ))
        ensures
            r.0 == (Contract {
                owner_id,
                running_state: RunningState::Running,
                token1_wallet: None,
                token2_wallet: None,
                swap_in_flight: false,
            }),
            r.0.wf(),
            match tokens {
                Some(t) => r.1 == Some(provision_request_of(t.0, t.1)),
                None => r.1 is None,
            },
    {
        let contract = Contract {
            owner_id,
            running_state: RunningState::Running,
            token1_wallet: None,
            token2_wallet: None,
            swap_in_flight: false,
        };
        let request = match tokens {
            Some((token1, token2)) => Some(Self::create_wallets(token1, token2)),
            None => None,
        };
        (contract, request)
    }

    fn create_wallets(token1: String, token2: String) -> (r: ProvisionRequest)
        ensures
            r == provision_request_of(token1, token2),
    {
        ProvisionRequest { token1, token2, collateral_per_wallet: ONE_NEAR }
    }

    /// Whether `account_id` is the owner.
    pub fn is_owner(&self, account_id: &String) -> (r: bool)
        ensures
            r == (account_id@ == self.owner_id@),
    {
        *account_id == self.owner_id
    }

    /// Fails with `ContractPaused` exactly when the contract is paused.
    pub fn assert_contract_running(&self) -> (r: Result<(), PoolError>)
        ensures
            r == if self.running_state == RunningState::Running {
                Ok::<(), PoolError>(())
            } else {
                Err(PoolError::ContractPaused)
            },
    {
        match self.running_state {
            RunningState::Running => Ok(()),
            RunningState::Paused => Err(PoolError::ContractPaused),
        }
    }

    /// Fails with `PermissionDenied` unless `caller` is the owner.
    pub fn assert_owner(&self, caller: &String) -> (r: Result<(), PoolError>)
        ensures
            r == if caller@ == self.owner_id@ {
                Ok::<(), PoolError>(())
            } else {
                Err(PoolError::PermissionDenied)
            },
    {
        if self.is_owner(caller) {
            Ok(())
        } else {
            Err(PoolError::PermissionDenied)
        }
    }

    /// Which slot holds the wallet of `token_id`: `true` for the first.
    pub(crate) fn find_slot(&self, token_id: &String) -> (r: Result<bool, PoolError>)
        ensures
            r == self.slot_of(token_id@),
    {
        match (&self.token1_wallet, &self.token2_wallet) {
            (Some(w1), Some(w2)) => {
                if *token_id == w1.token_id {
                    Ok(true)
                } else if *token_id == w2.token_id {
                    Ok(false)
                } else {
                    Err(PoolError::UnsupportedAsset)
                }
            },
            _ => Err(PoolError::WalletNotProvisioned),
        }
    }

    /// Which existing wallet belongs to `token_id`: `true` for the first.
    pub(crate) fn find_existing_slot(&self, token_id: &String) -> (r: Result<bool, PoolError>)
        ensures
            r == self.existing_slot_of(token_id@),
    {
        match &self.token1_wallet {
            Some(w) => {
                if *token_id == w.token_id {
                    return Ok(true);
                }
            },
            None => {},
        }
        match &self.token2_wallet {
            Some(w) => {
                if *token_id == w.token_id {
                    return Ok(false);
                }
            },
            None => {},
        }
        if self.token1_wallet.is_none() || self.token2_wallet.is_none() {
            Err(PoolError::WalletNotProvisioned)
        } else {
            Err(PoolError::UnsupportedAsset)
        }
    }
}

impl Contract {
    /// The pool's assets, their decimals, their liquidity and the product of
    /// the two liquidity amounts, written in decimal.
    pub fn get_pool(&self) -> (r: Result<PoolView, PoolError>)
        ensures
            !self.is_active() ==> r == Err::<PoolView, PoolError>(PoolError::WalletNotProvisioned),
            self.is_active() ==> r is Ok,
            r is Ok ==> {
                let v = r->Ok_0;
                &&& v.token_ids[0]@ == self.wallet1().token_id@
                &&& v.token_ids[1]@ == self.wallet2().token_id@
                &&& v.decimals[0] == self.wallet1().metadata.decimals
                &&& v.decimals[1] == self.wallet2().metadata.decimals
                &&& v.amounts[0] == self.wallet1().liquidity
                &&& v.amounts[1] == self.wallet2().liquidity
                &&& v.ratio@ == decimal_digits((self.wallet1().liquidity * self.wallet2().liquidity) as nat)
            },
    {
        let (w1, w2) = match (&self.token1_wallet, &self.token2_wallet) {
            (Some(w1), Some(w2)) => (w1, w2),
            _ => {
                return Err(PoolError::WalletNotProvisioned);
            },
        };
        let ratio = match compute_tokens_ratio(w1.liquidity, w2.liquidity) {
            Ok(p) => p,
            Err(e) => {
                return Err(e);
            },
        };
        Ok(PoolView {
            token_ids: [w1.token_id.clone(), w2.token_id.clone()],
            decimals: [w1.metadata.decimals, w2.metadata.decimals],
            amounts: [w1.liquidity, w2.liquidity],
            ratio: wide_to_decimal(ratio),
        })
    }
}

} // verus!
