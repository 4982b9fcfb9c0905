use vstd::prelude::*;

verus! {

/// What the pool keeps of an asset's metadata.
#[derive(Clone, Debug, PartialEq, Eq)]
pub struct AssetMetadata {
    pub symbol: String,
    pub decimals: u8,
}

/// The pool's record of one asset: its metadata, the owner's uncommitted
/// deposit and the liquidity committed to swaps.
#[derive(Clone, Debug, PartialEq, Eq)]
pub struct TokenWallet {
    pub token_id: String,
    pub metadata: AssetMetadata,
    pub deposit: u128,
    pub liquidity: u128,
}

impl TokenWallet {
    /// The same wallet with both balances replaced.
    pub open spec fn with_balances(self, deposit: u128, liquidity: u128) -> TokenWallet {
        TokenWallet {
            token_id: self.token_id,
            metadata: self.metadata,
            deposit,
            liquidity,
        }
    }

    /// The same wallet with its liquidity replaced.
    pub open spec fn with_liquidity(self, liquidity: u128) -> TokenWallet {
        self.with_balances(self.deposit, liquidity)
    }

    /// A fresh wallet for an asset: both balances are zero.
    pub fn new(token_id: String, metadata: AssetMetadata) -> (r: TokenWallet)
        ensures
            r == (TokenWallet { token_id, metadata, deposit: 0, liquidity: 0 }),
    {
        TokenWallet { token_id, metadata, deposit: 0, liquidity: 0 }
    }

    /// A copy of this wallet whose liquidity is `liquidity`.
    pub(crate) fn snapshot(&self, liquidity: u128) -> (r: TokenWallet)
        ensures
            r == self.with_liquidity(liquidity),
    {
        TokenWallet {
            token_id: self.token_id.clone(),
            metadata: AssetMetadata {
                symbol: self.metadata.symbol.clone(),
                decimals: self.metadata.decimals,
            },
            deposit: self.deposit,
            liquidity,
        }
    }
}

/// Writes both balances of the wallet in `slot`, if there is one.
pub(crate) fn set_balances(slot: &mut Option<TokenWallet>, deposit: u128, liquidity: u128)
    ensures
        *final(slot) == match *old(slot) {
            Some(w) => Some(w.with_balances(deposit, liquidity)),
            None => None,
        },
{
    match slot {
        Some(w) => {
            w.deposit = deposit;
            w.liquidity = liquidity;
        },
        None => {},
    }
}

} // verus!
