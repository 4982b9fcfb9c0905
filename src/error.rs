use vstd::prelude::*;

verus! {

/// Every way in which an operation of the pool can fail.
#[derive(Clone, Copy, Debug, PartialEq, Eq, Structural)]
pub enum PoolError {
    /// The caller is not the pool's owner.
    PermissionDenied,
    /// The contract is paused.
    ContractPaused,
    /// The caller has no storage registration.
    NotRegistered,
    /// The asset is not one of the pool's two assets.
    UnsupportedAsset,
    /// A wide-integer computation overflowed or divided by zero.
    ComputationOverflow,
    /// The pool's liquidity cannot cover the request.
    InsufficientLiquidity,
    /// The owner's deposit cannot cover the request.
    InsufficientDeposit,
    /// A liquidity balance would exceed 128 bits.
    LiquidityOverflow,
    /// A deposit balance would exceed 128 bits.
    DepositOverflow,
    /// One of the two wallets has not been created yet.
    WalletNotProvisioned,
    /// An external call (metadata fetch, registration, transfer) failed.
    ExternalCallFailed,
    /// A swap is waiting for its outgoing transfer; balances are frozen until it resolves.
    Busy,
    /// The attached collateral is not exactly what the registrations cost.
    /// This is a host-level precondition: the host aborts the call.
    WrongCollateral,
}

} // verus!
