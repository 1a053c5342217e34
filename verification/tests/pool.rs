use fair_launch::account::AccountId;
use fair_launch::pool_creation::deposit;
use fair_launch::pool_creation::initialize_pool;
use fair_launch::pool_creation::withdraw;
use fair_launch::pool_creation::ErrorCode;
use fair_launch::pool_creation::LiquidityPool;

fn mint() -> AccountId {
    AccountId { lo: 42, hi: 7 }
}

#[test]
fn pool_starts_empty() {
    let mut pool = LiquidityPool { lp_mint: AccountId::unset(), total_supply: 99 };
    initialize_pool(&mut pool, mint());
    assert_eq!(pool, LiquidityPool { lp_mint: mint(), total_supply: 0 });
}

#[test]
fn pool_deposit_and_withdraw() {
    let mut pool = LiquidityPool { lp_mint: mint(), total_supply: 0 };
    assert_eq!(deposit(&mut pool, 100), Ok(()));
    assert_eq!(deposit(&mut pool, 50), Ok(()));
    assert_eq!(pool.total_supply, 150);
    assert_eq!(withdraw(&mut pool, 151), Err(ErrorCode::InsufficientLiquidity));
    assert_eq!(pool.total_supply, 150);
    assert_eq!(withdraw(&mut pool, 150), Ok(()));
    assert_eq!(pool.total_supply, 0);
    assert_eq!(withdraw(&mut pool, 1), Err(ErrorCode::InsufficientLiquidity));
    assert_eq!(withdraw(&mut pool, 0), Ok(()));
    assert_eq!(pool.lp_mint, mint());
}

#[test]
fn pool_deposit_rejected_on_overflow() {
    let mut pool = LiquidityPool { lp_mint: mint(), total_supply: u64::MAX - 1 };
    assert_eq!(deposit(&mut pool, 2), Err(ErrorCode::SupplyOverflow));
    assert_eq!(pool.total_supply, u64::MAX - 1);
    assert_eq!(deposit(&mut pool, 1), Ok(()));
    assert_eq!(pool.total_supply, u64::MAX);
}
