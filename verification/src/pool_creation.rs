//! A plain liquidity pool: deposits and withdrawals against one running
//! total.

use crate::account::AccountId;
use vstd::prelude::*;

verus! {

/// Why a pool request was rejected. A rejected request changes nothing.
#[derive(Clone, Copy, Debug, PartialEq, Eq, Structural)]
pub enum ErrorCode {
    /// The pool holds less than was asked for.
    InsufficientLiquidity,
    /// The pool's total would no longer fit in 64 bits.
    SupplyOverflow,
}

/// A liquidity pool.
#[derive(Clone, Copy, Debug, PartialEq, Eq, Structural)]
pub struct LiquidityPool {
    pub lp_mint: AccountId,
    pub total_supply: u64,
}

/// Sets the pool up for `lp_mint`, holding nothing.
pub fn initialize_pool(pool: &mut LiquidityPool, lp_mint: AccountId)
    ensures
        *final(pool) == (LiquidityPool { lp_mint, total_supply: 0 }),
{
    pool.lp_mint = lp_mint;
    pool.total_supply = 0;
}

/// Records a deposit of `amount`. On success the caller moves `amount` from
/// the depositor to the pool.
pub fn deposit(pool: &mut LiquidityPool, amount: u64) -> (r: Result<(), ErrorCode>)
    ensures
        r is Ok <==> old(pool).total_supply + amount <= u64::MAX,
        r is Ok ==> *final(pool) == (LiquidityPool {
            total_supply: (old(pool).total_supply + amount) as u64,
            ..*old(pool)
        }),
        r is Err ==> r == Err::<(), ErrorCode>(ErrorCode::SupplyOverflow) && *final(pool) == *old(
            pool,
        ),
{
    if amount > u64::MAX - pool.total_supply {
        return Err(ErrorCode::SupplyOverflow);
    }
    pool.total_supply = pool.total_supply + amount;
    Ok(())
}

/// Records a withdrawal of `amount`. On success the caller moves `amount`
/// from the pool to the withdrawer.
pub fn withdraw(pool: &mut LiquidityPool, amount: u64) -> (r: Result<(), ErrorCode>)
    ensures
        r is Ok <==> amount <= old(pool).total_supply,
        r is Ok ==> *final(pool) == (LiquidityPool {
            total_supply: (old(pool).total_supply - amount) as u64,
            ..*old(pool)
        }),
        r is Err ==> r == Err::<(), ErrorCode>(ErrorCode::InsufficientLiquidity) && *final(pool)
            == *old(pool),
{
    if pool.total_supply < amount {
        return Err(ErrorCode::InsufficientLiquidity);
    }
    pool.total_supply = pool.total_supply - amount;
    Ok(())
}

} // verus!
