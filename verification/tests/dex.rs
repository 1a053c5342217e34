use fair_launch::account::AccountId;
use fair_launch::account::Clock;
use fair_launch::fair_launch_dex::distribute_tokens;
use fair_launch::fair_launch_dex::fair_launch_space;
use fair_launch::fair_launch_dex::fund;
use fair_launch::fair_launch_dex::initialize;
use fair_launch::fair_launch_dex::start_trading;
use fair_launch::fair_launch_dex::ErrorCode;
use fair_launch::fair_launch_dex::FairLaunch;

fn id(n: u128) -> AccountId {
    AccountId { lo: n, hi: 0 }
}

fn at(t: i64) -> Clock {
    Clock { slot: 0, unix_timestamp: t }
}

const SOL: u64 = 1_000_000_000;

fn started(supply: u64, contributions: &[(u128, u64)]) -> FairLaunch {
    let mut launch = initialize(id(1), supply, 100, at(0)).unwrap();
    for (who, amount) in contributions {
        fund(&mut launch, id(*who), *amount, at(1)).unwrap();
    }
    start_trading(&mut launch, at(100)).unwrap();
    launch
}

#[test]
fn record_space() {
    assert_eq!(fair_launch_space(), 7280);
}

#[test]
fn dex_launch_opens_with_ten_sol_limit() {
    let launch = initialize(id(1), 1_000_000, 3600, at(1_000)).unwrap();
    assert_eq!(launch.authority(), id(1));
    assert_eq!(launch.total_supply(), 1_000_000);
    assert_eq!(launch.end_time(), 4_600);
    assert_eq!(launch.total_sol(), 0);
    assert_eq!(launch.lp_max_limit(), 10_000_000_000);
    assert!(!launch.has_started());
    assert!(!launch.has_distributed());
    assert!(launch.contributors().is_empty());
}

#[test]
fn dex_launch_rejects_unrepresentable_end_time() {
    assert_eq!(
        initialize(id(1), 1, 1, at(i64::MAX)).err(),
        Some(ErrorCode::EndTimeOutOfRange)
    );
    assert_eq!(
        initialize(id(1), 1, -1, at(i64::MIN)).err(),
        Some(ErrorCode::EndTimeOutOfRange)
    );
    assert_eq!(initialize(id(1), 1, 0, at(i64::MAX)).unwrap().end_time(), i64::MAX);
}

#[test]
fn dex_contributions() {
    let mut launch = initialize(id(1), 1_000_000, 100, at(0)).unwrap();
    assert_eq!(fund(&mut launch, id(5), 3_000_000_000, at(1)), Ok(()));
    assert_eq!(fund(&mut launch, id(6), 2_000_000_000, at(2)), Ok(()));
    assert_eq!(fund(&mut launch, id(5), 1_000_000_000, at(3)), Ok(()));
    assert_eq!(launch.total_sol(), 6_000_000_000);
    assert_eq!(launch.contribution_of(id(5)), Some(4_000_000_000));
    assert_eq!(launch.contribution_of(id(6)), Some(2_000_000_000));
    assert_eq!(launch.contribution_of(id(7)), None);
    assert_eq!(launch.contributors(), vec![id(5), id(6)]);
    assert_eq!(
        fund(&mut launch, id(7), 4_000_000_001, at(4)),
        Err(ErrorCode::LpMaxLimitExceeded)
    );
    assert_eq!(fund(&mut launch, id(7), u64::MAX, at(4)), Err(ErrorCode::LpMaxLimitExceeded));
    assert_eq!(launch.total_sol(), 6_000_000_000);
    assert_eq!(launch.contributors(), vec![id(5), id(6)]);
    assert_eq!(fund(&mut launch, id(7), 4_000_000_000, at(99)), Ok(()));
    assert_eq!(launch.total_sol(), 10_000_000_000);
    assert_eq!(fund(&mut launch, id(7), 1, at(100)), Err(ErrorCode::FairMintEnded));
    assert_eq!(fund(&mut launch, id(7), 1, at(101)), Err(ErrorCode::FairMintEnded));
}

#[test]
fn dex_trading_starts_after_the_end() {
    let mut launch = initialize(id(1), 1_000_001, 100, at(0)).unwrap();
    fund(&mut launch, id(5), 10 * SOL, at(1)).unwrap();
    assert_eq!(start_trading(&mut launch, at(99)), Err(ErrorCode::FairMintNotEnded));
    assert!(!launch.has_started());
    assert_eq!(start_trading(&mut launch, at(100)), Ok(500_000));
    assert!(launch.has_started());
}

#[test]
fn dex_trading_starts_only_once() {
    let mut launch = initialize(id(1), 1_000_000, 100, at(0)).unwrap();
    fund(&mut launch, id(5), 10 * SOL, at(1)).unwrap();
    assert_eq!(start_trading(&mut launch, at(100)), Ok(500_000));
    assert_eq!(start_trading(&mut launch, at(100)), Err(ErrorCode::TradingAlreadyStarted));
    assert_eq!(start_trading(&mut launch, at(500)), Err(ErrorCode::TradingAlreadyStarted));
    assert_eq!(start_trading(&mut launch, at(5)), Err(ErrorCode::FairMintNotEnded));
    assert!(launch.has_started());
    assert_eq!(launch.total_sol(), 10 * SOL);
}

#[test]
fn dex_contribution_rejected_once_trading_has_started() {
    let mut launch = initialize(id(1), 1_000_000, 100, at(0)).unwrap();
    fund(&mut launch, id(5), SOL, at(1)).unwrap();
    start_trading(&mut launch, at(100)).unwrap();
    assert_eq!(fund(&mut launch, id(6), 1, at(1)), Err(ErrorCode::TradingAlreadyStarted));
    assert_eq!(fund(&mut launch, id(6), 1, at(200)), Err(ErrorCode::TradingAlreadyStarted));
    assert_eq!(launch.total_sol(), SOL);
    assert_eq!(launch.contributors(), vec![id(5)]);
}

#[test]
fn dex_undersubscribed_launch_sends_the_sold_part() {
    // a quarter of the limit raised: a quarter of the liquidity reservation
    let mut launch = initialize(id(1), 1_000_000, 100, at(0)).unwrap();
    fund(&mut launch, id(5), 2 * SOL + SOL / 2, at(1)).unwrap();
    assert_eq!(start_trading(&mut launch, at(100)), Ok(125_000));
    let d = distribute_tokens(&mut launch, at(100)).unwrap();
    assert_eq!(d.burn_amount, 375_000);
}

#[test]
fn dex_nothing_raised_sends_nothing() {
    let mut launch = initialize(id(1), 1_000, 100, at(0)).unwrap();
    assert_eq!(start_trading(&mut launch, at(100)), Ok(0));
    let d = distribute_tokens(&mut launch, at(100)).unwrap();
    assert_eq!(d.rent_fee, 0);
    assert!(d.mints.is_empty());
    assert_eq!(d.burn_amount, 500);
}

#[test]
fn dex_distribution_needs_the_end_and_the_start() {
    let mut launch = initialize(id(1), 1_000_000, 100, at(0)).unwrap();
    fund(&mut launch, id(5), 700, at(1)).unwrap();
    assert_eq!(
        distribute_tokens(&mut launch, at(99)).err(),
        Some(ErrorCode::FairMintNotEnded)
    );
    assert_eq!(
        distribute_tokens(&mut launch, at(100)).err(),
        Some(ErrorCode::TradingNotStarted)
    );
    assert!(!launch.has_distributed());
    start_trading(&mut launch, at(100)).unwrap();
    assert!(distribute_tokens(&mut launch, at(100)).is_ok());
    assert!(launch.has_distributed());
}

#[test]
fn dex_distribution() {
    let mut launch = started(1_000_000, &[(5, 700), (6, 300)]);
    let d = distribute_tokens(&mut launch, at(100)).unwrap();
    // rent fee 2% of 1000
    assert_eq!(d.rent_fee, 20);
    assert_eq!(d.mints.len(), 2);
    assert_eq!(d.mints[0].who, id(5));
    // 500_000 * 700 / 1000
    assert_eq!(d.mints[0].amount, 350_000);
    assert_eq!(d.mints[1].who, id(6));
    assert_eq!(d.mints[1].amount, 150_000);
    // 500_000 * 1000 / 10_000_000_000 rounds down to 0: all of the liquidity
    // reservation is unsold
    assert_eq!(d.burn_amount, 500_000);
}

#[test]
fn dex_distribution_is_made_only_once() {
    let mut launch = started(1_000_000, &[(5, 700), (6, 300)]);
    assert!(distribute_tokens(&mut launch, at(100)).is_ok());
    assert_eq!(
        distribute_tokens(&mut launch, at(100)).err(),
        Some(ErrorCode::AlreadyDistributed)
    );
    assert_eq!(
        distribute_tokens(&mut launch, at(900)).err(),
        Some(ErrorCode::AlreadyDistributed)
    );
    assert_eq!(
        distribute_tokens(&mut launch, at(1)).err(),
        Some(ErrorCode::FairMintNotEnded)
    );
    assert!(launch.has_distributed());
    assert_eq!(launch.total_sol(), 1_000);
}

#[test]
fn dex_distribution_rounds_down() {
    let mut launch = started(201, &[(5, 33), (6, 34), (7, 34)]);
    let d = distribute_tokens(&mut launch, at(100)).unwrap();
    // rent fee 101 * 2 / 100 = 2.02
    assert_eq!(d.rent_fee, 2);
    // reservation 101: 101 * 33 / 101 = 33, 101 * 34 / 101 = 34
    assert_eq!(d.mints[0].amount, 33);
    assert_eq!(d.mints[1].amount, 34);
    assert_eq!(d.mints[2].amount, 34);
    let mut launch = started(21, &[(5, 1), (6, 1), (7, 1)]);
    let d = distribute_tokens(&mut launch, at(100)).unwrap();
    // reservation 11: 11 * 1 / 3 = 3.67
    assert_eq!(d.mints[0].amount, 3);
    assert_eq!(d.mints[1].amount, 3);
    assert_eq!(d.mints[2].amount, 3);
    assert!(d.mints.iter().map(|e| e.amount).sum::<u64>() <= 11);
    assert_eq!(d.burn_amount, 10);
}

#[test]
fn dex_distribution_stays_within_the_supply() {
    let mut launch = initialize(id(1), 100, 100, at(0)).unwrap();
    fund(&mut launch, id(5), 1_000, at(1)).unwrap();
    let to_dex = start_trading(&mut launch, at(100)).unwrap();
    let d = distribute_tokens(&mut launch, at(100)).unwrap();
    assert_eq!(d.mints[0].amount, 50);
    assert_eq!(to_dex, 0);
    assert_eq!(d.burn_amount, 50);
    assert!(to_dex + d.burn_amount + d.mints[0].amount <= 100);
}

#[test]
fn dex_distribution_at_the_limit() {
    let mut launch = initialize(id(1), 1_000, 100, at(0)).unwrap();
    fund(&mut launch, id(5), 10 * SOL, at(1)).unwrap();
    assert_eq!(start_trading(&mut launch, at(100)), Ok(500));
    let d = distribute_tokens(&mut launch, at(100)).unwrap();
    assert_eq!(d.rent_fee, 200_000_000);
    assert_eq!(d.mints[0].amount, 500);
    assert_eq!(d.burn_amount, 0);
}
