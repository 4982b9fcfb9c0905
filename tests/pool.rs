use swap_pool::{
    compute_swap_amount, compute_tokens_ratio, AssetMetadata, Contract, PendingSwap, PoolError,
    PoolView, RunningState, TransferCommand, TransferReply, TransferType, ONE_NEAR,
};

const ONE_USDT: u128 = 1_000_000; // 6 decimals
const ONE_USDN: u128 = 1_000_000; // 6 decimals
const ONE_ETH: u128 = 1_000_000_000_000_000_000; // 18 decimals

const OWNER: &str = "owner.test.near";
const USER: &str = "user.test.near";
const USDT: &str = "usdt.fakes.testnet";
const USDN: &str = "usdn.testnet";
const ETH: &str = "eth.fakes.testnet";

fn s(x: &str) -> String {
    x.to_string()
}

fn meta(symbol: &str, decimals: u8) -> Option<AssetMetadata> {
    Some(AssetMetadata { symbol: s(symbol), decimals })
}

fn swap_command() -> Option<TransferCommand> {
    Some(TransferCommand { transfer_type: TransferType::Swap })
}

/// A pool owned by `OWNER` whose two wallets were created.
fn pool_with(token1: &str, decimals1: u8, token2: &str, decimals2: u8) -> Contract {
    let (mut pool, request) = Contract::init(s(OWNER), Some((s(token1), s(token2))));
    let request = request.unwrap();
    assert_eq!(request.token1, token1);
    assert_eq!(request.token2, token2);
    assert_eq!(request.collateral_per_wallet, ONE_NEAR);
    let r = pool.on_created_tokens_wallets(
        request.token1,
        request.token2,
        meta("T1", decimals1),
        true,
        meta("T2", decimals2),
        true,
    );
    assert_eq!(r, (Ok(()), Ok(())));
    pool
}

fn deposit(pool: &mut Contract, token: &str, amount: u128) {
    let r = pool.ft_on_transfer(s(OWNER), s(token), amount, None);
    assert_eq!(r, TransferReply::Settled { refund: 0 });
}

/// Swaps through an inbound transfer whose outgoing transfer succeeds.
fn swap(pool: &mut Contract, token_in: &str, amount: u128) -> PendingSwap {
    let stage = match pool.ft_on_transfer(s(USER), s(token_in), amount, swap_command()) {
        TransferReply::Pending(stage) => stage,
        other => panic!("swap refused: {:?}", other),
    };
    assert!(pool.swap_in_flight);
    assert_eq!(pool.on_swap_complete(stage.clone(), true), 0);
    assert!(!pool.swap_in_flight);
    stage
}

fn view(pool: &Contract) -> PoolView {
    pool.get_pool().unwrap()
}

#[test]
fn test_create_wallets() {
    let (mut pool, request) = Contract::init(s(USER), None);
    assert!(request.is_none());
    let request = pool
        .owner_create_wallets(&s(USER), 2 * ONE_NEAR, s(USDN), s(USDT))
        .unwrap();
    pool.on_created_tokens_wallets(
        request.token1,
        request.token2,
        meta("USDN", 6),
        true,
        meta("USDT", 6),
        true,
    );
    let v = view(&pool);
    assert_eq!(v.token_ids, [s(USDN), s(USDT)]);
    assert_eq!(v.decimals, [6, 6]);
}

#[test]
fn test_liquidity() {
    let mut pool = pool_with(USDN, 6, USDT, 6);
    deposit(&mut pool, USDN, 100_000 * ONE_USDN);
    deposit(&mut pool, USDT, 100_000 * ONE_USDT);

    let owner = s(OWNER);
    pool.add_liquidity(&owner, [50_000 * ONE_USDT, 50_000 * ONE_USDN]).unwrap();
    let v = view(&pool);
    assert_eq!(v.amounts, [50_000 * ONE_USDT, 50_000 * ONE_USDN]);
    assert_eq!(v.ratio, 2_500_000_000_000_000_000_000u128.to_string());

    pool.add_liquidity(&owner, [500 * ONE_USDT, 100 * ONE_USDN]).unwrap();
    pool.remove_liquidity(&owner, [150 * ONE_USDT, 10 * ONE_USDN]).unwrap();
    let v = view(&pool);
    assert_eq!(v.amounts, [50_350 * ONE_USDT, 50_090 * ONE_USDN]);
    assert_eq!(v.ratio, 2_522_031_500_000_000_000_000u128.to_string());
}

#[test]
fn test_swap_usdn_usdt() {
    let mut pool = pool_with(USDN, 6, USDT, 6);
    deposit(&mut pool, USDN, 100_000 * ONE_USDN);
    deposit(&mut pool, USDT, 100_000 * ONE_USDT);
    pool.add_liquidity(&s(OWNER), [50_000 * ONE_USDN, 50_000 * ONE_USDT]).unwrap();

    swap(&mut pool, USDN, 1_000 * ONE_USDN);
    let v = view(&pool);
    assert_eq!(v.amounts, [51_000 * ONE_USDN, 49_019_607_843]);
    assert_eq!(v.ratio, 2_499_999_999_993_000_000_000u128.to_string());

    swap(&mut pool, USDT, 1_000 * ONE_USDT);
    let v = view(&pool);
    assert_eq!(v.amounts, [49_937_933_851, 50_019_607_843]);
    assert_eq!(v.ratio, 2_497_875_867_716_694_793_393u128.to_string());
}

#[test]
fn test_swap_eth_usdt() {
    let mut pool = pool_with(ETH, 18, USDT, 6);
    deposit(&mut pool, ETH, 50 * ONE_ETH);
    deposit(&mut pool, USDT, 100_000 * ONE_USDT);
    pool.add_liquidity(&s(OWNER), [50 * ONE_ETH, 100_000 * ONE_USDT]).unwrap();

    swap(&mut pool, ETH, ONE_ETH);
    let v = view(&pool);
    assert_eq!(v.amounts, [51 * ONE_ETH, 98_039_215_686]);
    assert_eq!(v.ratio, "4999999999986000000000000000000");

    swap(&mut pool, USDT, 2_000 * ONE_USDT);
    let v = view(&pool);
    assert_eq!(v.amounts, [49_937_933_850_548_209_693, 100_039_215_686]);
    assert_eq!(v.ratio, "4995751735388192838819182844398");
}

#[test]
fn liquidity_scenario_small_pool() {
    let mut pool = pool_with(USDN, 6, USDT, 6);
    deposit(&mut pool, USDN, 2_000);
    deposit(&mut pool, USDT, 2_000);
    let owner = s(OWNER);
    pool.add_liquidity(&owner, [1000, 1000]).unwrap();
    assert_eq!(view(&pool).ratio, "1000000");
    pool.add_liquidity(&owner, [500, 100]).unwrap();
    pool.remove_liquidity(&owner, [150, 10]).unwrap();
    let v = view(&pool);
    assert_eq!(v.amounts, [1350, 1090]);
    assert_eq!(v.ratio, "1471500");
    let w1 = pool.token1_wallet.as_ref().unwrap();
    let w2 = pool.token2_wallet.as_ref().unwrap();
    assert_eq!((w1.deposit, w2.deposit), (650, 910));
}

#[test]
fn add_then_remove_restores_balances() {
    let mut pool = pool_with(USDN, 6, USDT, 6);
    deposit(&mut pool, USDN, 700);
    deposit(&mut pool, USDT, 900);
    let owner = s(OWNER);
    pool.add_liquidity(&owner, [100, 200]).unwrap();
    let before = pool.clone();
    pool.add_liquidity(&owner, [300, 40]).unwrap();
    assert_eq!(pool.token1_wallet.as_ref().unwrap().deposit, 300);
    pool.remove_liquidity(&owner, [300, 40]).unwrap();
    assert_eq!(pool.token1_wallet, before.token1_wallet);
    assert_eq!(pool.token2_wallet, before.token2_wallet);
}

#[test]
fn swap_output_side_is_truncated_down() {
    let mut pool = pool_with(USDN, 6, USDT, 6);
    deposit(&mut pool, USDN, 50_000 * ONE_USDN);
    deposit(&mut pool, USDT, 50_000 * ONE_USDT);
    pool.add_liquidity(&s(OWNER), [50_000 * ONE_USDN, 50_000 * ONE_USDT]).unwrap();
    let stage = swap(&mut pool, USDN, 1_000 * ONE_USDN);
    // 2.5e21 / 5.1e10 = 49019607843.137..., kept as 49019607843
    assert_eq!(stage.amount_out, 980_392_157);
    assert_eq!(stage.sender_id, USER);
    assert_eq!(stage.token_out, USDT);
    assert!(stage.token1_is_input);
    assert_eq!(stage.wallet_in.liquidity, 51_000 * ONE_USDN);
    assert_eq!(stage.wallet_out.liquidity, 49_019_607_843);
    let v = view(&pool);
    assert_eq!(v.amounts, [51_000_000_000, 49_019_607_843]);
    assert_eq!(v.ratio, "2499999999993000000000");
    // deposits are not touched by a swap
    assert_eq!(pool.token1_wallet.as_ref().unwrap().deposit, 0);
}

#[test]
fn zero_swap_changes_nothing() {
    let mut pool = pool_with(USDN, 6, USDT, 6);
    deposit(&mut pool, USDN, 5_000);
    deposit(&mut pool, USDT, 7_000);
    pool.add_liquidity(&s(OWNER), [5_000, 7_000]).unwrap();
    let before = pool.clone();
    let stage = swap(&mut pool, USDT, 0);
    assert_eq!(stage.amount_out, 0);
    assert_eq!(pool.token1_wallet, before.token1_wallet);
    assert_eq!(pool.token2_wallet, before.token2_wallet);
    let stage = swap(&mut pool, USDN, 0);
    assert_eq!(stage.amount_out, 0);
    assert_eq!(pool.token1_wallet, before.token1_wallet);
    assert_eq!(pool.token2_wallet, before.token2_wallet);
}

#[test]
fn swap_quotes() {
    // first asset in: 100 * 100 / 200 = 50 stays, 50 goes out
    assert_eq!(compute_swap_amount(100, 100, true, 100), Ok(50));
    // second asset in: 100 * 100 / 80 - 100 = 25
    assert_eq!(compute_swap_amount(100, 100, false, 20), Ok(25));
    assert_eq!(compute_swap_amount(100, 100, false, 101), Err(PoolError::InsufficientLiquidity));
    assert_eq!(compute_swap_amount(100, 100, false, 100), Err(PoolError::ComputationOverflow));
    assert_eq!(compute_swap_amount(100, 100, false, 60), Err(PoolError::InsufficientLiquidity));
    assert_eq!(compute_swap_amount(0, 0, true, 0), Err(PoolError::ComputationOverflow));
    assert_eq!(compute_swap_amount(0, 10, true, 5), Ok(10));
    assert_eq!(compute_swap_amount(u128::MAX, 10, true, 1), Err(PoolError::ComputationOverflow));
    assert_eq!(compute_swap_amount(u128::MAX, u128::MAX, true, 0), Ok(0));
    // the input side overflowing is reported before the output bound
    assert_eq!(
        compute_swap_amount(u128::MAX, 1, false, u128::MAX - 4),
        Err(PoolError::ComputationOverflow)
    );
}

#[test]
fn input_overflow_comes_before_output_bound() {
    let mut pool = pool_with(USDN, 6, USDT, 6);
    deposit(&mut pool, USDN, 1);
    deposit(&mut pool, USDT, u128::MAX);
    pool.add_liquidity(&s(OWNER), [1, u128::MAX]).unwrap();
    let before = pool.clone();
    assert_eq!(
        pool.swap_tokens(s(USER), &s(USDT), u128::MAX - 4).unwrap_err(),
        PoolError::ComputationOverflow
    );
    assert_eq!(pool.token1_wallet, before.token1_wallet);
    assert_eq!(pool.token2_wallet, before.token2_wallet);
    assert!(!pool.swap_in_flight);
}

#[test]
fn exact_swap_keeps_product() {
    let mut pool = pool_with(USDN, 6, USDT, 6);
    deposit(&mut pool, USDN, 100);
    deposit(&mut pool, USDT, 100);
    pool.add_liquidity(&s(OWNER), [100, 100]).unwrap();
    deposit(&mut pool, USDN, 0);
    swap(&mut pool, USDN, 100);
    let v = view(&pool);
    assert_eq!(v.amounts, [200, 50]);
    assert_eq!(v.ratio, "10000");
}

#[test]
fn overdrawn_swap_is_refunded_and_changes_nothing() {
    let mut pool = pool_with(USDN, 6, USDT, 6);
    deposit(&mut pool, USDN, 100);
    deposit(&mut pool, USDT, 100);
    pool.add_liquidity(&s(OWNER), [100, 100]).unwrap();
    let before = pool.clone();
    for amount in [60u128, 100, 101] {
        let r = pool.ft_on_transfer(s(USER), s(USDT), amount, swap_command());
        assert_eq!(r, TransferReply::Settled { refund: amount });
        assert_eq!(pool.token1_wallet, before.token1_wallet);
        assert_eq!(pool.token2_wallet, before.token2_wallet);
        assert!(!pool.swap_in_flight);
    }
    let mut p = pool.clone();
    assert_eq!(p.swap_tokens(s(USER), &s(USDT), 101).unwrap_err(), PoolError::InsufficientLiquidity);
    assert_eq!(p.swap_tokens(s(USER), &s(USDT), 100).unwrap_err(), PoolError::ComputationOverflow);
}

#[test]
fn failed_outgoing_transfer_refunds_input() {
    let mut pool = pool_with(USDN, 6, USDT, 6);
    deposit(&mut pool, USDN, 1_000);
    deposit(&mut pool, USDT, 1_000);
    pool.add_liquidity(&s(OWNER), [1_000, 1_000]).unwrap();
    let before = pool.clone();
    let stage = pool.swap_tokens(s(USER), &s(USDN), 10).unwrap();
    assert_eq!(pool.on_swap_complete(stage, false), 10);
    assert_eq!(pool.token1_wallet, before.token1_wallet);
    assert_eq!(pool.token2_wallet, before.token2_wallet);
    assert!(!pool.swap_in_flight);
}

#[test]
fn pending_swap_freezes_balances() {
    let mut pool = pool_with(USDN, 6, USDT, 6);
    deposit(&mut pool, USDN, 2_000);
    deposit(&mut pool, USDT, 2_000);
    let owner = s(OWNER);
    pool.add_liquidity(&owner, [1_000, 1_000]).unwrap();
    let stage = pool.swap_tokens(s(USER), &s(USDN), 10).unwrap();
    assert_eq!(pool.swap_tokens(s(USER), &s(USDT), 10).unwrap_err(), PoolError::Busy);
    assert_eq!(pool.add_liquidity(&owner, [1, 1]), Err(PoolError::Busy));
    assert_eq!(pool.remove_liquidity(&owner, [1, 1]), Err(PoolError::Busy));
    assert_eq!(pool.on_transfer_deposit(&owner, &s(USDN), 1), Err(PoolError::Busy));
    let r = pool.ft_on_transfer(s(USER), s(USDT), 5, swap_command());
    assert_eq!(r, TransferReply::Settled { refund: 5 });
    assert_eq!(pool.on_swap_complete(stage, true), 0);
    assert_eq!(view(&pool).amounts, [1_010, 990]);
    pool.add_liquidity(&owner, [1, 1]).unwrap();
}

#[test]
fn partial_provisioning_then_second_wallet() {
    let (mut pool, _) = Contract::init(s(OWNER), None);
    let owner = s(OWNER);
    let request = pool.owner_create_wallets(&owner, 2 * ONE_NEAR, s(USDN), s(USDT)).unwrap();
    let r = pool.on_created_tokens_wallets(
        request.token1,
        request.token2,
        meta("USDN", 6),
        true,
        meta("USDT", 6),
        false,
    );
    assert_eq!(r, (Ok(()), Err(PoolError::ExternalCallFailed)));
    assert_eq!(pool.get_pool(), Err(PoolError::WalletNotProvisioned));
    // the installed wallet already takes deposits; the missing one does not
    deposit(&mut pool, USDN, 77);
    assert_eq!(pool.on_transfer_deposit(&owner, &s(USDT), 1), Err(PoolError::WalletNotProvisioned));
    assert_eq!(pool.add_liquidity(&owner, [1, 0]), Err(PoolError::WalletNotProvisioned));
    let first = pool.token1_wallet.clone().unwrap();
    assert_eq!(first.token_id, USDN);
    assert_eq!((first.deposit, first.liquidity), (77, 0));

    let request = pool.owner_create_wallets(&owner, 2 * ONE_NEAR, s(USDN), s(USDT)).unwrap();
    let r = pool.on_created_tokens_wallets(
        request.token1,
        request.token2,
        meta("OTHER", 9),
        true,
        meta("USDT", 6),
        true,
    );
    assert_eq!(r, (Ok(()), Ok(())));
    assert_eq!(pool.token1_wallet, Some(first));
    let v = view(&pool);
    assert_eq!(v.token_ids, [s(USDN), s(USDT)]);
    assert_eq!(v.decimals, [6, 6]);
    assert_eq!(v.ratio, "0");
}

#[test]
fn provisioning_failures() {
    let (mut pool, _) = Contract::init(s(OWNER), None);
    let owner = s(OWNER);
    assert_eq!(
        pool.owner_create_wallets(&owner, ONE_NEAR, s(USDN), s(USDT)),
        Err(PoolError::WrongCollateral)
    );
    assert_eq!(
        pool.owner_create_wallets(&s(USER), 2 * ONE_NEAR, s(USDN), s(USDT)),
        Err(PoolError::PermissionDenied)
    );
    assert_eq!(
        pool.owner_create_wallets(&owner, 2 * ONE_NEAR, s(USDN), s(USDN)),
        Err(PoolError::UnsupportedAsset)
    );
    let r = pool.on_created_tokens_wallets(s(USDN), s(USDN), meta("A", 6), true, meta("A", 6), true);
    assert_eq!(r, (Ok(()), Err(PoolError::UnsupportedAsset)));
    assert!(pool.token2_wallet.is_none());
    assert_eq!(
        pool.owner_create_wallets(&owner, 2 * ONE_NEAR, s(ETH), s(USDT)),
        Err(PoolError::UnsupportedAsset)
    );
    let r = pool.on_created_tokens_wallets(s(ETH), s(USDT), meta("E", 18), true, None, true);
    assert_eq!(r, (Err(PoolError::UnsupportedAsset), Err(PoolError::ExternalCallFailed)));
    assert_eq!(pool.token1_wallet.as_ref().unwrap().token_id, USDN);
}

#[test]
fn unparsed_message_from_stranger_is_refunded() {
    let mut pool = pool_with(USDN, 6, USDT, 6);
    deposit(&mut pool, USDN, 500);
    let before = pool.clone();
    let r = pool.ft_on_transfer(s(USER), s(USDN), 123, None);
    assert_eq!(r, TransferReply::Settled { refund: 123 });
    assert_eq!(pool.token1_wallet, before.token1_wallet);
    assert_eq!(pool.token2_wallet, before.token2_wallet);
}

#[test]
fn deposit_errors() {
    let mut pool = pool_with(USDN, 6, USDT, 6);
    let owner = s(OWNER);
    assert_eq!(pool.on_transfer_deposit(&s(USER), &s(USDN), 1), Err(PoolError::PermissionDenied));
    assert_eq!(pool.on_transfer_deposit(&owner, &s(ETH), 1), Err(PoolError::UnsupportedAsset));
    pool.on_transfer_deposit(&owner, &s(USDT), u128::MAX).unwrap();
    assert_eq!(pool.on_transfer_deposit(&owner, &s(USDT), 1), Err(PoolError::DepositOverflow));
    assert_eq!(pool.token2_wallet.as_ref().unwrap().deposit, u128::MAX);
    let (mut empty, _) = Contract::init(s(OWNER), None);
    assert_eq!(empty.on_transfer_deposit(&owner, &s(USDN), 1), Err(PoolError::WalletNotProvisioned));
    let r = empty.ft_on_transfer(s(OWNER), s(USDN), 9, None);
    assert_eq!(r, TransferReply::Settled { refund: 9 });
}

#[test]
fn liquidity_errors() {
    let (mut empty, _) = Contract::init(s(OWNER), None);
    let owner = s(OWNER);
    assert_eq!(empty.add_liquidity(&owner, [0, 0]), Err(PoolError::WalletNotProvisioned));
    let mut pool = pool_with(USDN, 6, USDT, 6);
    assert_eq!(pool.add_liquidity(&s(USER), [0, 0]), Err(PoolError::PermissionDenied));
    assert_eq!(pool.remove_liquidity(&s(USER), [0, 0]), Err(PoolError::PermissionDenied));
    deposit(&mut pool, USDN, 10);
    deposit(&mut pool, USDT, 10);
    assert_eq!(pool.add_liquidity(&owner, [10, 11]), Err(PoolError::InsufficientDeposit));
    pool.add_liquidity(&owner, [10, 5]).unwrap();
    assert_eq!(pool.remove_liquidity(&owner, [10, 6]), Err(PoolError::InsufficientLiquidity));
    pool.remove_liquidity(&owner, [10, 5]).unwrap();
    assert_eq!(view(&pool).amounts, [0, 0]);

    deposit(&mut pool, USDN, u128::MAX - 10);
    pool.add_liquidity(&owner, [u128::MAX, 0]).unwrap();
    deposit(&mut pool, USDN, 1);
    assert_eq!(pool.add_liquidity(&owner, [1, 0]), Err(PoolError::LiquidityOverflow));
    pool.remove_liquidity(&owner, [0, 0]).unwrap();
    deposit(&mut pool, USDN, u128::MAX - 1);
    assert_eq!(pool.remove_liquidity(&owner, [1, 0]), Err(PoolError::DepositOverflow));
}

#[test]
fn swap_errors() {
    let (mut empty, _) = Contract::init(s(OWNER), None);
    assert_eq!(empty.swap_tokens(s(USER), &s(USDN), 1).unwrap_err(), PoolError::WalletNotProvisioned);
    let mut pool = pool_with(USDN, 6, USDT, 6);
    assert_eq!(pool.swap_tokens(s(USER), &s(ETH), 1).unwrap_err(), PoolError::UnsupportedAsset);
    let r = pool.ft_on_transfer(s(USER), s(ETH), 4, swap_command());
    assert_eq!(r, TransferReply::Settled { refund: 4 });
}

#[test]
fn running_state_and_owner() {
    let (mut pool, _) = Contract::init(s(OWNER), None);
    assert_eq!(pool.assert_contract_running(), Ok(()));
    pool.running_state = RunningState::Paused;
    assert_eq!(pool.assert_contract_running(), Err(PoolError::ContractPaused));
    assert!(pool.is_owner(&s(OWNER)));
    assert!(!pool.is_owner(&s(USER)));
    assert_eq!(pool.assert_owner(&s(USER)), Err(PoolError::PermissionDenied));
    assert_eq!(pool.assert_owner(&s(OWNER)), Ok(()));
}

#[test]
fn wide_products() {
    assert_eq!(compute_tokens_ratio(3, 5).unwrap().limbs, [15, 0, 0, 0]);
    assert_eq!(compute_tokens_ratio(1 << 64, 1 << 64).unwrap().limbs, [0, 0, 1, 0]);
    assert_eq!(
        compute_tokens_ratio(u128::MAX, u128::MAX).unwrap().limbs,
        [1, 0, u64::MAX - 1, u64::MAX]
    );
}
