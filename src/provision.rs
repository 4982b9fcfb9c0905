use vstd::prelude::*;

use crate::contract::{install_slot, provision_request_of, Contract, ProvisionRequest, ONE_NEAR};
use crate::error::PoolError;
use crate::wallet::{AssetMetadata, TokenWallet};

verus! {

impl Contract {
    /// Why the owner's request to create the wallets of `token1` and `token2`
    /// is refused, if it is.
    pub open spec fn create_wallets_failure(
        self,
        caller: Seq<char>,
        attached_deposit: u128,
        token1: Seq<char>,
        token2: Seq<char>,
    ) -> Option<PoolError> {
        if attached_deposit != 2 * ONE_NEAR {
            Some(PoolError::WrongCollateral)
        } else if caller != self.owner_id@ {
            Some(PoolError::PermissionDenied)
        } else if token1 == token2 {
            Some(PoolError::UnsupportedAsset)
        } else if self.token1_wallet is Some && self.wallet1().token_id@ != token1 {
            Some(PoolError::UnsupportedAsset)
        } else if self.token2_wallet is Some && self.wallet2().token_id@ != token2 {
            Some(PoolError::UnsupportedAsset)
        } else {
            None
        }
    }

    /// The owner asks for the wallets of `token1` (first slot) and `token2`
    /// (second slot), attaching the collateral of both registrations.
    ///
    /// A slot that already holds a wallet keeps it: the request must then name
    /// the same asset for it. Nothing changes until the host reports back.
    pub fn owner_create_wallets(
        &self,
        caller: &String,
        attached_deposit: u128,
        token1: String,
        token2: String,
    ) -> (r: Result<ProvisionRequest, PoolError>)
        ensures
            match self.create_wallets_failure(caller@, attached_deposit, token1@, token2@) {
                Some(e) => r == Err::<ProvisionRequest, PoolError>(e),
                None => r == Ok::<ProvisionRequest, PoolError>(provision_request_of(token1, token2)),
            },
    {
        if attached_deposit != 2 * ONE_NEAR {
            return Err(PoolError::WrongCollateral);
        }
        if !self.is_owner(caller) {
            return Err(PoolError::PermissionDenied);
        }
        if token1 == token2 {
            return Err(PoolError::UnsupportedAsset);
        }
        match &self.token1_wallet {
            Some(w) => {
                if w.token_id != token1 {
                    return Err(PoolError::UnsupportedAsset);
                }
            },
            None => {},
        }
        match &self.token2_wallet {
            Some(w) => {
                if w.token_id != token2 {
                    return Err(PoolError::UnsupportedAsset);
                }
            },
            None => {},
        }
        Ok(ProvisionRequest { token1, token2, collateral_per_wallet: ONE_NEAR })
    }

    /// The host reports the metadata fetch and the registration of each
    /// asset. An asset's wallet is installed, with zero balances, only when
    /// both of its steps succeeded, its slot is empty and the other slot does
    /// not hold the same asset. The two slots are decided independently,
    /// the first one first; an installed wallet is never replaced.
    pub fn on_created_tokens_wallets(
        &mut self,
        token1_id: String,
        token2_id: String,
        token1_metadata: Option<AssetMetadata>,
        token1_registered: bool,
        token2_metadata: Option<AssetMetadata>,
        token2_registered: bool,
    ) -> (r: (Result<(), PoolError>, Result<(), PoolError>))
        ensures
            ({
                let first = install_slot(
                    old(self).token1_wallet,
                    old(self).token2_wallet,
                    token1_id,
                    token1_metadata,
                    token1_registered,
                );
                let second = install_slot(
                    old(self).token2_wallet,
                    first.0,
                    token2_id,
                    token2_metadata,
                    token2_registered,
                );
                &&& *final(self) == Contract {
                    token1_wallet: first.0,
                    token2_wallet: second.0,
                    ..*old(self)
                }
                &&& r == (first.1, second.1)
            }),
            old(self).wf() ==> final(self).wf(),
    {
        let r1 = Self::install(
            &mut self.token1_wallet,
            &self.token2_wallet,
            token1_id,
            token1_metadata,
            token1_registered,
        );
        let r2 = Self::install(
            &mut self.token2_wallet,
            &self.token1_wallet,
            token2_id,
            token2_metadata,
            token2_registered,
        );
        (r1, r2)
    }

    fn install(
        slot: &mut Option<TokenWallet>,
        other: &Option<TokenWallet>,
        token_id: String,
        metadata: Option<AssetMetadata>,
        registered: bool,
    ) -> (r: Result<(), PoolError>)
        ensures
            (*final(slot), r) == install_slot(*old(slot), *other, token_id, metadata, registered),
    {
        match slot {
            Some(w) => {
                return if w.token_id == token_id {
                    Ok(())
                } else {
                    Err(PoolError::UnsupportedAsset)
                };
            },
            None => {},
        }
        let metadata = match metadata {
            Some(m) => m,
            None => {
                return Err(PoolError::ExternalCallFailed);
            },
        };
        if !registered {
            return Err(PoolError::ExternalCallFailed);
        }
        match other {
            Some(w) => {
                if w.token_id == token_id {
                    return Err(PoolError::UnsupportedAsset);
                }
            },
            None => {},
        }
        *slot = Some(TokenWallet::new(token_id, metadata));
        Ok(())
    }
}

} // verus!
