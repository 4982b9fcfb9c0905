use vstd::prelude::*;
use vstd::arithmetic::div_mod::{lemma_div_by_multiple, lemma_div_is_ordered};

use crate::contract::Contract;
use crate::error::PoolError;
use crate::wallet::TokenWallet;
use crate::wide::{
    compute_tokens_ratio,
    lemma_wide_limit,
    wide_checked_add,
    wide_checked_div,
    wide_checked_sub,
    wide_to_u128,
    widen,
};

verus! {

/// The output of a swap of `amount_in` into a pool whose input side holds
/// `l_in` and output side `l_out`, with truncating division.
///
/// When the input is the first asset the output side keeps
/// `l_in * l_out / (l_in + amount_in)`; when it is the second the output is
/// `l_in * l_out / (l_in - amount_in) - l_out`.
pub open spec fn swap_output(l_in: int, l_out: int, input_is_first: bool, amount_in: int) -> int {
    if input_is_first {
        l_out - (l_in * l_out) / (l_in + amount_in)
    } else {
        (l_in * l_out) / (l_in - amount_in) - l_out
    }
}

/// Why a swap of `amount_in` on liquidity `l_in`/`l_out` is refused, if it is.
pub open spec fn swap_failure(l_in: int, l_out: int, input_is_first: bool, amount_in: int) -> Option<
    PoolError,
> {
    if !input_is_first && l_in < amount_in {
        Some(PoolError::InsufficientLiquidity)
    } else if (input_is_first && l_in + amount_in == 0) || (!input_is_first && l_in == amount_in) {
        Some(PoolError::ComputationOverflow)
    } else if l_in + amount_in > u128::MAX {
        Some(PoolError::ComputationOverflow)
    } else if swap_output(l_in, l_out, input_is_first, amount_in) > l_out {
        Some(PoolError::InsufficientLiquidity)
    } else {
        None
    }
}

/// A swap whose outgoing transfer has been requested: the staged wallets
/// that replace the pool's wallets once the transfer succeeds.
///
/// The host transfers `amount_out` of `token_out` to `sender_id` and then
/// reports the outcome to `Contract::on_swap_complete`.
#[derive(Clone, Debug, PartialEq, Eq)]
pub struct PendingSwap {
    pub sender_id: String,
    pub token_out: String,
    pub amount_in: u128,
    pub amount_out: u128,
    pub token1_is_input: bool,
    pub wallet_in: TokenWallet,
    pub wallet_out: TokenWallet,
}

/// With the divisor at least `l_in`, the output side never grows.
proof fn lemma_quotient_at_most(l_in: nat, l_out: nat, d: nat)
    requires
        0 < d,
        l_in <= d,
    ensures
        (l_in * l_out) / d <= l_out,
{
    assert(l_in * l_out <= l_out * d) by (nonlinear_arith)
        requires
            l_in <= d,
    ;
    lemma_div_is_ordered((l_in * l_out) as int, (l_out * d) as int, d as int);
    lemma_div_by_multiple(l_out as int, d as int);
}

/// With the divisor at most `l_in`, the quotient is at least `l_out`.
proof fn lemma_quotient_at_least(l_in: nat, l_out: nat, d: nat)
    requires
        0 < d,
        d <= l_in,
    ensures
        l_out <= (l_in * l_out) / d,
{
    assert(l_out * d <= l_in * l_out) by (nonlinear_arith)
        requires
            d <= l_in,
    ;
    lemma_div_is_ordered((l_out * d) as int, (l_in * l_out) as int, d as int);
    lemma_div_by_multiple(l_out as int, d as int);
}

/// An accepted swap pays out between nothing and the whole output side.
pub proof fn lemma_swap_output_range(l_in: int, l_out: int, input_is_first: bool, amount_in: int)
    requires
        0 <= l_in,
        0 <= l_out,
        0 <= amount_in,
        swap_failure(l_in, l_out, input_is_first, amount_in) is None,
    ensures
        0 <= swap_output(l_in, l_out, input_is_first, amount_in) <= l_out,
{
    if input_is_first {
        lemma_quotient_at_most(l_in as nat, l_out as nat, (l_in + amount_in) as nat);
    } else {
        lemma_quotient_at_least(l_in as nat, l_out as nat, (l_in - amount_in) as nat);
    }
}

/// The output amount of a swap of `amount_in` on liquidity `l_in`/`l_out`,
/// computed at 256 bits, or why the swap is refused.
pub fn compute_swap_amount(l_in: u128, l_out: u128, input_is_first: bool, amount_in: u128) -> (r:
    Result<u128, PoolError>)
    ensures
        match swap_failure(l_in as int, l_out as int, input_is_first, amount_in as int) {
            Some(e) => r == Err::<u128, PoolError>(e),
            None => r == Ok::<u128, PoolError>(
                swap_output(l_in as int, l_out as int, input_is_first, amount_in as int) as u128,
            ),
        },
{
    proof {
        lemma_wide_limit();
    }
    let k = match compute_tokens_ratio(l_in, l_out) {
        Ok(k) => k,
        Err(e) => {
            return Err(e);
        },
    };
    let out = if input_is_first {
        let d = match wide_checked_add(widen(l_in), widen(amount_in)) {
            Some(d) => d,
            None => {
                return Err(PoolError::ComputationOverflow);
            },
        };
        let q = match wide_checked_div(k, d) {
            Some(q) => q,
            None => {
                return Err(PoolError::ComputationOverflow);
            },
        };
        proof {
            lemma_quotient_at_most(l_in as nat, l_out as nat, d.value());
        }
        match wide_checked_sub(widen(l_out), q) {
            Some(o) => o,
            None => {
                return Err(PoolError::ComputationOverflow);
            },
        }
    } else {
        if l_in < amount_in {
            return Err(PoolError::InsufficientLiquidity);
        }
        let d = widen(l_in - amount_in);
        let q = match wide_checked_div(k, d) {
            Some(q) => q,
            None => {
                return Err(PoolError::ComputationOverflow);
            },
        };
        proof {
            lemma_quotient_at_least(l_in as nat, l_out as nat, d.value());
        }
        match wide_checked_sub(q, widen(l_out)) {
            Some(o) => o,
            None => {
                return Err(PoolError::ComputationOverflow);
            },
        }
    };
    if l_in > u128::MAX - amount_in {
        return Err(PoolError::ComputationOverflow);
    }
    let amount_out = match wide_to_u128(out) {
        Some(x) => x,
        None => {
            return Err(PoolError::InsufficientLiquidity);
        },
    };
    if amount_out > l_out {
        return Err(PoolError::InsufficientLiquidity);
    }
    Ok(amount_out)
}

impl Contract {
    /// The input and output wallets of a swap whose input is the first asset
    /// exactly when `input_is_first`.
    pub open spec fn swap_sides(self, input_is_first: bool) -> (TokenWallet, TokenWallet) {
        if input_is_first {
            (self.wallet1(), self.wallet2())
        } else {
            (self.wallet2(), self.wallet1())
        }
    }

    /// Why a swap of `amount_in` of `token_in` is refused, if it is.
    pub open spec fn swap_tokens_failure(self, token_in: Seq<char>, amount_in: u128) -> Option<
        PoolError,
    > {
        if self.swap_in_flight {
            Some(PoolError::Busy)
        } else {
            match self.slot_of(token_in) {
                Err(e) => Some(e),
                Ok(first) => {
                    let (w_in, w_out) = self.swap_sides(first);
                    swap_failure(w_in.liquidity as int, w_out.liquidity as int, first, amount_in as int)
                },
            }
        }
    }

    /// The staged result of an accepted swap of `amount_in` of `token_in`.
    pub open spec fn staged_swap(self, sender_id: String, token_in: Seq<char>, amount_in: u128) -> PendingSwap {
        let first = self.slot_of(token_in)->Ok_0;
        let (w_in, w_out) = self.swap_sides(first);
        let out = swap_output(w_in.liquidity as int, w_out.liquidity as int, first, amount_in as int);
        PendingSwap {
            sender_id,
            token_out: w_out.token_id,
            amount_in,
            amount_out: out as u128,
            token1_is_input: first,
            wallet_in: w_in.with_liquidity((w_in.liquidity + amount_in) as u128),
            wallet_out: w_out.with_liquidity((w_out.liquidity - out) as u128),
        }
    }

    /// Whether `stage` still describes the pool's two wallets, slot by slot.
    pub open spec fn stage_matches(self, stage: PendingSwap) -> bool {
        &&& self.is_active()
        &&& self.swap_sides(stage.token1_is_input).0.token_id@ == stage.wallet_in.token_id@
        &&& self.swap_sides(stage.token1_is_input).1.token_id@ == stage.wallet_out.token_id@
    }

    /// The pool after a stage is committed.
    pub open spec fn committed(self, stage: PendingSwap) -> Contract {
        if stage.token1_is_input {
            Contract {
                token1_wallet: Some(stage.wallet_in),
                token2_wallet: Some(stage.wallet_out),
                swap_in_flight: false,
                ..self
            }
        } else {
            Contract {
                token1_wallet: Some(stage.wallet_out),
                token2_wallet: Some(stage.wallet_in),
                swap_in_flight: false,
                ..self
            }
        }
    }

    /// Starts a swap of `amount_in` of `token_id_in` for `sender_id`.
    ///
    /// On success the pool's wallets are untouched: the returned stage holds
    /// the new wallets, and the pool refuses balance changes until
    /// `on_swap_complete` resolves it. On failure nothing changes, and the
    /// caller refunds the whole input.
    pub fn swap_tokens(&mut self, sender_id: String, token_id_in: &String, amount_in: u128) -> (r:
        Result<PendingSwap, PoolError>)
        ensures
            match old(self).swap_tokens_failure(token_id_in@, amount_in) {
                Some(e) => r == Err::<PendingSwap, PoolError>(e) && *final(self) == *old(self),
                None => r == Ok::<PendingSwap, PoolError>(
                    old(self).staged_swap(sender_id, token_id_in@, amount_in),
                ) && *final(self) == (Contract { swap_in_flight: true, ..*old(self) }),
            },
            old(self).wf() ==> final(self).wf(),
    {
        if self.swap_in_flight {
            return Err(PoolError::Busy);
        }
        let first = match self.find_slot(token_id_in) {
            Ok(first) => first,
            Err(e) => {
                return Err(e);
            },
        };
        let stage = {
            let (w_in, w_out) = match (&self.token1_wallet, &self.token2_wallet) {
                (Some(w1), Some(w2)) => if first {
                    (w1, w2)
                } else {
                    (w2, w1)
                },
                _ => {
                    return Err(PoolError::WalletNotProvisioned);
                },
            };
            let amount_out = match compute_swap_amount(
                w_in.liquidity,
                w_out.liquidity,
                first,
                amount_in,
            ) {
                Ok(x) => x,
                Err(e) => {
                    return Err(e);
                },
            };
            proof {
                lemma_swap_output_range(
                    w_in.liquidity as int,
                    w_out.liquidity as int,
                    first,
                    amount_in as int,
                );
            }
            PendingSwap {
                sender_id,
                token_out: w_out.token_id.clone(),
                amount_in,
                amount_out,
                token1_is_input: first,
                wallet_in: w_in.snapshot(w_in.liquidity + amount_in),
                wallet_out: w_out.snapshot(w_out.liquidity - amount_out),
            }
        };
        self.swap_in_flight = true;
        Ok(stage)
    }

    /// The host reports the outcome of a swap's outgoing transfer.
    ///
    /// On success the staged wallets replace the pool's wallets and nothing is
    /// refunded. On failure nothing was committed, and the whole input is
    /// refunded. Either way the pool accepts balance changes again.
    ///
    /// A stage that no longer names the pool's wallets is never committed and
    /// its input is refunded, even when the transfer succeeded. The library's
    /// own functions never produce that case: while a stage is pending, the
    /// single-flight guard refuses every balance change, and an installed
    /// wallet is never replaced, so the stage still names the pool's wallets
    /// when its outcome arrives. Only a stage made up by the host, or one
    /// reported twice, can reach it.
    pub fn on_swap_complete(&mut self, stage: PendingSwap, transfer_succeeded: bool) -> (refund: u128)
        ensures
            if transfer_succeeded && old(self).stage_matches(stage) {
                *final(self) == old(self).committed(stage) && refund == 0
            } else {
                *final(self) == (Contract { swap_in_flight: false, ..*old(self) }) && refund
                    == stage.amount_in
            },
            old(self).wf() ==> final(self).wf(),
    {
        self.swap_in_flight = false;
        let matches = match (&self.token1_wallet, &self.token2_wallet) {
            (Some(w1), Some(w2)) => if stage.token1_is_input {
                w1.token_id == stage.wallet_in.token_id && w2.token_id == stage.wallet_out.token_id
            } else {
                w2.token_id == stage.wallet_in.token_id && w1.token_id == stage.wallet_out.token_id
            },
            _ => false,
        };
        if !transfer_succeeded || !matches {
            return stage.amount_in;
        }
        if stage.token1_is_input {
            self.token1_wallet = Some(stage.wallet_in);
            self.token2_wallet = Some(stage.wallet_out);
        } else {
            self.token1_wallet = Some(stage.wallet_out);
            self.token2_wallet = Some(stage.wallet_in);
        }
        0
    }
}

} // verus!
