//! Laws that relate the pool's operations to one another.
use vstd::prelude::*;
use vstd::arithmetic::div_mod::{lemma_div_by_multiple, lemma_fundamental_div_mod};

use crate::contract::{install_slot, Contract};
use crate::wallet::{AssetMetadata, TokenWallet};
use crate::error::PoolError;
use crate::swap::{lemma_swap_output_range, swap_output};

verus! {

/// Adding liquidity and then removing the same amounts, with nothing in
/// between, gives back the pool exactly as it was, deposits and liquidity
/// alike.
pub proof fn lemma_add_then_remove_restores(pool: Contract, caller: Seq<char>, amounts: [u128; 2])
    requires
        pool.add_liquidity_outcome(caller, amounts) is Ok,
    ensures
        pool.add_liquidity_outcome(caller, amounts)->Ok_0.remove_liquidity_outcome(caller, amounts)
            == Ok::<Contract, PoolError>(pool),
{
    let added = pool.add_liquidity_outcome(caller, amounts)->Ok_0;
    assert(added.wallet1() == pool.wallet1().with_balances(
        (pool.wallet1().deposit - amounts[0]) as u128,
        (pool.wallet1().liquidity + amounts[0]) as u128,
    ));
}

/// A swap of nothing pays out nothing, and committing it leaves every
/// balance as it was, provided the input side holds some liquidity.
pub proof fn lemma_zero_swap_changes_nothing(pool: Contract, sender_id: String, token_in: Seq<char>)
    requires
        !pool.swap_in_flight,
        pool.slot_of(token_in) is Ok,
        pool.swap_sides(pool.slot_of(token_in)->Ok_0).0.liquidity > 0,
    ensures
        pool.swap_tokens_failure(token_in, 0) is None,
        pool.staged_swap(sender_id, token_in, 0).amount_out == 0,
        pool.committed(pool.staged_swap(sender_id, token_in, 0)) == pool,
{
    let first = pool.slot_of(token_in)->Ok_0;
    let (w_in, w_out) = pool.swap_sides(first);
    lemma_div_by_multiple(w_out.liquidity as int, w_in.liquidity as int);
    assert(w_in.liquidity * w_out.liquidity == w_out.liquidity * w_in.liquidity) by (nonlinear_arith);
    assert(swap_output(w_in.liquidity as int, w_out.liquidity as int, first, 0) == 0);
    let stage = pool.staged_swap(sender_id, token_in, 0);
    assert(stage.wallet_in == w_in);
    assert(stage.wallet_out == w_out);
}

/// A swap that would take more than the output side holds, or more than the
/// input side holds when it is subtracted from it, is refused with
/// `InsufficientLiquidity` when the new input side fits in 128 bits; a
/// refused swap leaves the pool unchanged (see `Contract::swap_tokens`).
pub proof fn lemma_overdrawn_swap_refused(pool: Contract, token_in: Seq<char>, amount_in: u128)
    requires
        !pool.swap_in_flight,
        pool.slot_of(token_in) is Ok,
        ({
            let first = pool.slot_of(token_in)->Ok_0;
            let (w_in, w_out) = pool.swap_sides(first);
            &&& w_in.liquidity + amount_in <= u128::MAX
            &&& {
                ||| (!first && w_in.liquidity < amount_in)
                ||| (first && w_in.liquidity + amount_in != 0 && swap_output(
                    w_in.liquidity as int,
                    w_out.liquidity as int,
                    first,
                    amount_in as int,
                ) > w_out.liquidity)
                ||| (!first && w_in.liquidity > amount_in && swap_output(
                    w_in.liquidity as int,
                    w_out.liquidity as int,
                    first,
                    amount_in as int,
                ) > w_out.liquidity)
            }
        }),
    ensures
        pool.swap_tokens_failure(token_in, amount_in) == Some(PoolError::InsufficientLiquidity),
{
}

/// A swap whose new input side would exceed 128 bits is refused with
/// `ComputationOverflow`, unless it takes more than the input side holds
/// from it.
pub proof fn lemma_input_overflow_refused(pool: Contract, token_in: Seq<char>, amount_in: u128)
    requires
        !pool.swap_in_flight,
        pool.slot_of(token_in) is Ok,
        ({
            let first = pool.slot_of(token_in)->Ok_0;
            let w_in = pool.swap_sides(first).0;
            &&& w_in.liquidity + amount_in > u128::MAX
            &&& (first || amount_in < w_in.liquidity)
        }),
    ensures
        pool.swap_tokens_failure(token_in, amount_in) == Some(PoolError::ComputationOverflow),
{
}

/// A committed swap never lowers the product of the two liquidity amounts
/// when its input is the first asset and the new output side
/// `l_in * l_out / (l_in + amount_in)` comes out exact, or when it swaps
/// nothing.
pub proof fn lemma_swap_keeps_product(pool: Contract, sender_id: String, token_in: Seq<char>, amount_in: u128)
    requires
        pool.swap_tokens_failure(token_in, amount_in) is None,
        ({
            let first = pool.slot_of(token_in)->Ok_0;
            let (w_in, w_out) = pool.swap_sides(first);
            ||| amount_in == 0
            ||| (first && (w_in.liquidity * w_out.liquidity) % (w_in.liquidity + amount_in) == 0)
        }),
    ensures
        ({
            let after = pool.committed(pool.staged_swap(sender_id, token_in, amount_in));
            after.wallet1().liquidity * after.wallet2().liquidity >= pool.wallet1().liquidity
                * pool.wallet2().liquidity
        }),
{
    let first = pool.slot_of(token_in)->Ok_0;
    let (w_in, w_out) = pool.swap_sides(first);
    let l_in = w_in.liquidity as int;
    let l_out = w_out.liquidity as int;
    let a = amount_in as int;
    let k = l_in * l_out;
    let stage = pool.staged_swap(sender_id, token_in, amount_in);
    let after = pool.committed(stage);
    assert(l_in * l_out == l_out * l_in) by (nonlinear_arith);
    if amount_in == 0 {
        lemma_div_by_multiple(l_out, l_in);
        assert(swap_output(l_in, l_out, first, a) == 0);
        assert(after.wallet1().liquidity * after.wallet2().liquidity == pool.wallet1().liquidity
            * pool.wallet2().liquidity);
    } else {
        let d = l_in + a;
        lemma_swap_output_range(l_in, l_out, first, a);
        lemma_fundamental_div_mod(k, d);
        assert(stage.wallet_out.liquidity == k / d);
        assert(d * (k / d) == k);
        assert(after.wallet1().liquidity * after.wallet2().liquidity == d * (k / d));
    }
}

/// When the second asset's registration fails, its slot stays empty and the
/// pool stays inactive, so `get_pool` fails with `WalletNotProvisioned`,
/// whatever becomes of the first asset.
pub proof fn lemma_failed_registration_leaves_pool_inactive(
    pool: Contract,
    token1_id: String,
    token2_id: String,
    token1_metadata: Option<AssetMetadata>,
    token1_registered: bool,
    token2_metadata: Option<AssetMetadata>,
)
    requires
        pool.token2_wallet is None,
    ensures
        ({
            let first = install_slot(
                pool.token1_wallet,
                pool.token2_wallet,
                token1_id,
                token1_metadata,
                token1_registered,
            );
            let second = install_slot(pool.token2_wallet, first.0, token2_id, token2_metadata, false);
            let after = Contract { token1_wallet: first.0, token2_wallet: second.0, ..pool };
            &&& second.1 == Err::<(), PoolError>(PoolError::ExternalCallFailed)
            &&& !after.is_active()
        }),
{
}

/// A pool whose first wallet is installed and whose second is missing
/// becomes active when a later provisioning names the first asset again and
/// both steps of a different second asset succeed; the first wallet is left
/// exactly as it was, whatever the first asset's steps report this time.
pub proof fn lemma_second_wallet_completes_pool(
    pool: Contract,
    token1_id: String,
    token2_id: String,
    token1_metadata: Option<AssetMetadata>,
    token1_registered: bool,
    token2_metadata: AssetMetadata,
)
    requires
        pool.token1_wallet is Some,
        pool.token2_wallet is None,
        token1_id@ == pool.wallet1().token_id@,
        token2_id@ != pool.wallet1().token_id@,
    ensures
        ({
            let first = install_slot(
                pool.token1_wallet,
                pool.token2_wallet,
                token1_id,
                token1_metadata,
                token1_registered,
            );
            let second = install_slot(
                pool.token2_wallet,
                first.0,
                token2_id,
                Some(token2_metadata),
                true,
            );
            let after = Contract { token1_wallet: first.0, token2_wallet: second.0, ..pool };
            &&& (first.1, second.1) == (Ok::<(), PoolError>(()), Ok::<(), PoolError>(()))
            &&& after.token1_wallet == pool.token1_wallet
            &&& after.token2_wallet == Some(
                TokenWallet { token_id: token2_id, metadata: token2_metadata, deposit: 0, liquidity: 0 },
            )
            &&& after.is_active()
            &&& after.wf()
        }),
{
}

} // verus!
