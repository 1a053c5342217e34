//! Units of the native value, the fixed rates of the launch, and the integer
//! share arithmetic that every fee and every pro-rata amount goes through.

use vstd::prelude::*;

verus! {

/// The amount, in lamports, that stands for the command to refund: 0.0002
/// SOL.
pub const REFUND_COMMAND: u64 = 200_000;

/// The amount, in lamports, that stands for the command to claim: 0.0002 SOL.
pub const CLAIM_COMMAND: u64 = 200_000;

/// The amount, in lamports, that stands for the command to start trading:
/// 0.0005 SOL.
pub const START_COMMAND: u64 = 500_000;

/// The amount, in lamports, that stands for the command to mint: 0.0001 SOL.
pub const MINT_COMMAND: u64 = 100_000;

/// Smallest contribution that the standard parameters accept, in lamports:
/// 0.0001 SOL.
pub const MINIMAL_FUND: u64 = 100_000;

/// Protocol fee taken at finalization, in basis points of the raised value.
pub const LAUNCH_FEE_RATE: u64 = 30;

/// Share of the raised value routed to the refund-fee recipient at
/// finalization, in basis points.
pub const REFUND_RECIPIENT_RATE: u64 = 10;

/// Share of the raised value routed to the project owner at finalization, in
/// basis points.
pub const PROJECT_OWNER_RATE: u64 = 20;

/// One whole, in basis points.
pub const BASIS_POINTS: u64 = 10_000;

/// Lamports in one SOL, as a mathematical integer.
pub open spec fn spec_lamports_per_sol() -> int {
    1_000_000_000
}

/// Reads `solana_program::native_token::LAMPORTS_PER_SOL`.
///
/// Trusted: the contract states the value that the constant is declared with,
/// ten to the ninth.
#[verifier::external_body]
pub(crate) fn lamports_per_sol() -> (r: u64)
    ensures
        r == spec_lamports_per_sol(),
{
    solana_program::native_token::LAMPORTS_PER_SOL
}

/// The per-account limit of the standard parameters: ten SOL, in lamports.
pub open spec fn spec_standard_fund_limit() -> int {
    10 * spec_lamports_per_sol()
}

/// The per-account limit of the standard parameters.
pub fn standard_fund_limit() -> (r: u64)
    ensures
        r == spec_standard_fund_limit(),
        r == 10_000_000_000u64,
{
    10 * lamports_per_sol()
}

/// `amount * numer / denom`, rounded down. With `denom == 0` the share is 0:
/// nothing is owed out of nothing.
pub open spec fn share(amount: int, numer: int, denom: int) -> int {
    if denom > 0 {
        (amount * numer) / denom
    } else {
        0
    }
}

/// A share is never negative and never above the product, and where the
/// numerator does not exceed the denominator it is at most the amount.
pub proof fn lemma_share_bounds(amount: int, numer: int, denom: int)
    requires
        0 <= amount,
        0 <= numer,
    ensures
        0 <= share(amount, numer, denom),
        numer <= denom ==> share(amount, numer, denom) <= amount,
        share(amount, numer, denom) <= amount * numer,
{
    if denom > 0 {
        let p = amount * numer;
        assert(0 <= p) by (nonlinear_arith)
            requires
                p == amount * numer,
                0 <= amount,
                0 <= numer,
        ;
        assert(0 <= p / denom <= p) by (nonlinear_arith)
            requires
                0 <= p,
                denom > 0,
        ;
        if numer <= denom {
            assert(p <= amount * denom) by (nonlinear_arith)
                requires
                    p == amount * numer,
                    0 <= amount,
                    numer <= denom,
            ;
            assert(p / denom <= amount) by (nonlinear_arith)
                requires
                    p <= amount * denom,
                    denom > 0,
            ;
        }
    } else {
        assert(0 <= amount * numer) by (nonlinear_arith)
            requires
                0 <= amount,
                0 <= numer,
        ;
    }
}

/// Rounding down each of two shares never gives more than rounding down the
/// share of the sum: the remainder stays with the whole.
pub proof fn lemma_share_superadditive(a: int, b: int, numer: int, denom: int)
    requires
        0 <= a,
        0 <= b,
        0 <= numer,
    ensures
        share(a, numer, denom) + share(b, numer, denom) <= share(a + b, numer, denom),
{
    if denom > 0 {
        let x = a * numer;
        let y = b * numer;
        assert((a + b) * numer == x + y) by (nonlinear_arith)
            requires
                x == a * numer,
                y == b * numer,
        ;
        assert(0 <= x && 0 <= y) by (nonlinear_arith)
            requires
                x == a * numer,
                y == b * numer,
                0 <= a,
                0 <= b,
                0 <= numer,
        ;
        assert(x / denom + y / denom <= (x + y) / denom) by (nonlinear_arith)
            requires
                0 <= x,
                0 <= y,
                denom > 0,
        ;
    }
}

/// Amount and numerator can change places: the product is the same.
pub proof fn lemma_share_commutes(amount: int, numer: int, denom: int)
    ensures
        share(amount, numer, denom) == share(numer, amount, denom),
{
    assert(amount * numer == numer * amount) by (nonlinear_arith);
}

/// The share of the whole is the numerator itself: `whole * numer / whole`
/// leaves no remainder.
pub proof fn lemma_share_of_whole(whole: int, numer: int)
    requires
        0 < whole,
    ensures
        share(whole, numer, whole) == numer,
{
    assert((whole * numer) / whole == numer) by (nonlinear_arith)
        requires
            0 < whole,
    ;
}

/// Computes `share(amount, numer, denom)` where the numerator does not exceed
/// the denominator, so that the share is at most the amount. The product is
/// taken in 128 bits and cannot overflow.
pub fn share_of(amount: u64, numer: u64, denom: u64) -> (r: u64)
    requires
        numer <= denom,
    ensures
        r == share(amount as int, numer as int, denom as int),
        r <= amount,
{
    if denom == 0 {
        return 0;
    }
    proof {
        lemma_share_bounds(amount as int, numer as int, denom as int);
    }
    let wide_amount: u128 = amount as u128;
    let wide_numer: u128 = numer as u128;
    assert(wide_amount * wide_numer <= u128::MAX) by (nonlinear_arith)
        requires
            wide_amount <= u64::MAX,
            wide_numer <= u64::MAX,
    ;
    let product: u128 = wide_amount * wide_numer;
    let quotient: u128 = product / (denom as u128);
    quotient as u64
}

} // verus!
