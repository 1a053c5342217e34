use fair_launch::account::AccountId;
use fair_launch::account::Clock;
use fair_launch::campaign::Terms;
use fair_launch::claims::ClaimSet;
use fair_launch::fair_launch::fund;
use fair_launch::fair_launch::initialize;
use fair_launch::fair_launch::mint_token;
use fair_launch::fair_launch::start_trading;
use fair_launch::fair_launch::FairLaunch;
use fair_launch::fair_launch::FairLaunchError;
use fair_launch::fair_launch::FairLaunchParams;
use fair_launch::fair_launch::RaydiumParams;
use fair_launch::fair_launch::Snapshot;
use fair_launch::fair_launch_dex;
use fair_launch::history::apply;
use fair_launch::history::Outcome;
use fair_launch::history::Request;
use fair_launch::ledger::Entry;
use fair_launch::ledger::Ledger;
use fair_launch::units::share_of;

fn id(n: u128) -> AccountId {
    AccountId { lo: n, hi: 0 }
}

fn at(slot: u64) -> Clock {
    Clock { slot, unix_timestamp: slot as i64 }
}

fn terms(cap: Option<u64>) -> Terms {
    Terms {
        authority: id(1),
        refund_fee_to: id(2),
        project_owner: id(3),
        asset_total_supply: 100,
        asset_reserved_for_participants: 50,
        asset_reserved_for_liquidity: 50,
        deadline: 10,
        liquidity_ceiling: Some(5),
        per_participant_cap: cap,
        minimum_contribution: 1,
        refund_fee_rate: 100,
        burn_unsold: false,
        venue_bootstrap_params: RaydiumParams {
            nonce: 1,
            open_time: 2,
            init_pc_amount: 3,
            init_coin_amount: 4,
        },
    }
}

fn snapshot(cap: Option<u64>, total: u64, finalized: bool, entries: Vec<Entry>) -> Snapshot {
    Snapshot {
        terms: terms(cap),
        name: String::from("n"),
        symbol: String::from("s"),
        meta: String::from("m"),
        total_value_raised: total,
        is_finalized: finalized,
        entries,
        asset_claimed: Vec::new(),
        excess_claimed: Vec::new(),
    }
}

fn entry(who: u128, amount: u64) -> Entry {
    Entry { who: id(who), amount }
}

fn open() -> FairLaunch {
    let p = FairLaunchParams {
        name: String::from("Meme"),
        symbol: String::from("MEME"),
        meta: String::from("meta"),
        total_supply: 1_000,
        after_slot: 10,
        liquidity_ceiling: Some(50),
        per_participant_cap: Some(100),
        minimum_contribution: 1,
        refund_fee_rate: 1_000,
        burn_unsold: false,
        raydium_params: RaydiumParams {
            nonce: 1,
            open_time: 2,
            init_pc_amount: 3,
            init_coin_amount: 4,
        },
    };
    initialize(id(1), id(2), id(3), p, at(0)).unwrap()
}

#[test]
fn snapshot_round_trip() {
    let mut fl = open();
    fund(&mut fl, id(10), 40, at(1)).unwrap();
    fund(&mut fl, id(11), 60, at(1)).unwrap();
    start_trading(&mut fl, at(10)).unwrap();
    mint_token(&mut fl, id(11), at(11)).unwrap();
    let snap = fl.snapshot();
    assert_eq!(snap.total_value_raised, 100);
    assert!(snap.is_finalized);
    assert_eq!(snap.entries, vec![entry(10, 40), entry(11, 60)]);
    assert_eq!(snap.asset_claimed, vec![id(11)]);
    assert!(snap.excess_claimed.is_empty());
    assert_eq!(snap.name, "Meme");
    assert_eq!(snap.terms.deadline, 10);
    let mut back = FairLaunch::restore(snap).unwrap();
    assert_eq!(back.total_value_raised(), 100);
    assert!(back.is_finalized());
    assert_eq!(back.contribution_of(id(10)), Some(40));
    assert!(back.has_claimed_asset(id(11)));
    assert_eq!(mint_token(&mut back, id(11), at(12)).err(), Some(FairLaunchError::AlreadyClaimed));
    assert_eq!(mint_token(&mut back, id(10), at(12)).unwrap().amount, 200);
}

#[test]
fn restore_accepts_consistent_values() {
    let s = snapshot(Some(7), 10, false, vec![entry(10, 3), entry(11, 7)]);
    let fl = FairLaunch::restore(s).unwrap();
    assert_eq!(fl.total_value_raised(), 10);
    assert_eq!(fl.participants(), 2);
}

#[test]
fn restore_rejects_repeated_participant() {
    let s = snapshot(None, 10, false, vec![entry(10, 3), entry(11, 4), entry(10, 3)]);
    assert!(FairLaunch::restore(s).is_none());
}

#[test]
fn restore_rejects_total_that_is_not_the_sum() {
    let s = snapshot(None, 11, false, vec![entry(10, 3), entry(11, 7)]);
    assert!(FairLaunch::restore(s).is_none());
    let s = snapshot(None, 0, false, vec![entry(10, u64::MAX), entry(11, 1)]);
    assert!(FairLaunch::restore(s).is_none());
}

#[test]
fn restore_rejects_entry_above_cap() {
    let s = snapshot(Some(6), 10, false, vec![entry(10, 3), entry(11, 7)]);
    assert!(FairLaunch::restore(s).is_none());
}

#[test]
fn restore_rejects_settlement_before_finalization() {
    let mut s = snapshot(None, 3, false, vec![entry(10, 3)]);
    s.asset_claimed.push(id(10));
    assert!(FairLaunch::restore(s).is_none());
    let mut s = snapshot(None, 3, false, vec![entry(10, 3)]);
    s.excess_claimed.push(id(10));
    assert!(FairLaunch::restore(s).is_none());
    let mut s = snapshot(None, 3, true, vec![entry(10, 3)]);
    s.asset_claimed.push(id(10));
    assert!(FairLaunch::restore(s).is_some());
}

#[test]
fn restore_rejects_invalid_terms() {
    let mut s = snapshot(None, 0, false, Vec::new());
    s.terms.asset_reserved_for_liquidity = 51;
    assert!(FairLaunch::restore(s).is_none());
    let mut s = snapshot(None, 0, false, Vec::new());
    s.terms.refund_fee_rate = 10_001;
    assert!(FairLaunch::restore(s).is_none());
    let mut s = snapshot(None, 0, false, Vec::new());
    s.terms.asset_reserved_for_participants = 101;
    assert!(FairLaunch::restore(s).is_none());
    assert!(terms(None).is_valid());
}

#[test]
fn dex_restore() {
    let ok = fair_launch_dex::FairLaunch::restore(
        id(1),
        1_000,
        50,
        10,
        20,
        true,
        false,
        vec![entry(5, 4), entry(6, 6)],
    )
    .unwrap();
    assert_eq!(ok.total_sol(), 10);
    assert!(ok.has_started());
    assert!(!ok.has_distributed());
    assert_eq!(ok.contributions(), vec![entry(5, 4), entry(6, 6)]);
    assert_eq!(ok.contributors(), vec![id(5), id(6)]);
    let dex = |total, limit, started, distributed, entries| {
        fair_launch_dex::FairLaunch::restore(
            id(1),
            1,
            1,
            total,
            limit,
            started,
            distributed,
            entries,
        )
    };
    assert!(dex(10, 20, false, false, vec![entry(5, 10)]).is_some());
    assert!(dex(10, 20, true, true, vec![entry(5, 10)]).is_some());
    assert!(dex(10, 9, false, false, vec![entry(5, 10)]).is_none());
    assert!(dex(9, 20, false, false, vec![entry(5, 10)]).is_none());
    assert!(dex(10, 20, false, false, vec![entry(5, 5), entry(5, 5)]).is_none());
    assert!(dex(10, 20, false, true, vec![entry(5, 10)]).is_none());
}

#[test]
fn address_bytes() {
    let mut bytes = [0u8; 32];
    for (i, b) in bytes.iter_mut().enumerate() {
        *b = i as u8 + 1;
    }
    let read = AccountId::from_bytes(&bytes).unwrap();
    assert_eq!(read.lo, 0x100f0e0d0c0b0a090807060504030201);
    assert_eq!(read.hi, 0x201f1e1d1c1b1a191817161514131211);
    assert_eq!(read.to_bytes(), bytes.to_vec());
    assert_eq!(AccountId::from_bytes(&bytes[..31]), None);
    assert_eq!(AccountId::from_bytes(&[0u8; 33]), None);
    assert_eq!(AccountId::from_bytes(&[0u8; 32]), Some(AccountId::unset()));
    let one = AccountId { lo: 1, hi: 2 };
    let written = one.to_bytes();
    assert_eq!(written.len(), 32);
    assert_eq!(written[0], 1);
    assert_eq!(written[16], 2);
    assert_eq!(AccountId::from_bytes(&written), Some(one));
}

#[test]
fn requests_are_served_like_the_operations() {
    let mut fl = open();
    let r = apply(&mut fl, Request::Fund { user: id(10), amount: 40, clock: at(1) }).unwrap();
    match r {
        Outcome::Funded(ev) => assert_eq!(ev.amount, 40),
        _ => panic!("a contribution was asked for"),
    }
    apply(&mut fl, Request::Fund { user: id(11), amount: 60, clock: at(1) }).unwrap();
    let r = apply(&mut fl, Request::Refund { user: id(10), clock: at(2) }).unwrap();
    match r {
        Outcome::Refunded(refunded) => {
            assert_eq!(refunded.event.fee, 4);
            assert_eq!(refunded.event.amount, 36);
            assert_eq!(refunded.fee_recipient, Some(id(2)));
        },
        _ => panic!("a refund was asked for"),
    }
    assert_eq!(
        apply(&mut fl, Request::MintToken { user: id(11), clock: at(3) }).err(),
        Some(FairLaunchError::NotFinalized)
    );
    let r = apply(&mut fl, Request::StartTrading { clock: at(10) }).unwrap();
    match r {
        Outcome::Finalized(f) => {
            assert_eq!(f.event.total_sol, 60);
            assert_eq!(f.event.total_add, 50);
        },
        _ => panic!("finalization was asked for"),
    }
    assert_eq!(
        apply(&mut fl, Request::StartTrading { clock: at(10) }).err(),
        Some(FairLaunchError::AlreadyFinalized)
    );
    match apply(&mut fl, Request::MintToken { user: id(11), clock: at(11) }).unwrap() {
        Outcome::Minted(ev) => assert_eq!(ev.amount, 500),
        _ => panic!("an asset claim was asked for"),
    }
    match apply(&mut fl, Request::ClaimExtraSol { user: id(11), clock: at(11) }).unwrap() {
        Outcome::Claimed(ev) => assert_eq!(ev.amount, 10),
        _ => panic!("a claim on the surplus was asked for"),
    }
    assert_eq!(
        apply(&mut fl, Request::ClaimExtraSol { user: id(11), clock: at(12) }).err(),
        Some(FairLaunchError::AlreadyClaimed)
    );
}

#[test]
fn ledger_operations() {
    let mut ledger = Ledger::new();
    assert_eq!(ledger.len(), 0);
    assert_eq!(ledger.sum(), Some(0));
    ledger.credit(id(1), 5);
    ledger.credit(id(2), 7);
    ledger.credit(id(1), 1);
    assert_eq!(ledger.get(id(1)), Some(6));
    assert_eq!(ledger.get(id(2)), Some(7));
    assert_eq!(ledger.get(id(3)), None);
    assert!(ledger.contains(id(2)));
    assert!(!ledger.contains(id(3)));
    assert_eq!(ledger.sum(), Some(13));
    assert!(ledger.all_within(7));
    assert!(!ledger.all_within(6));
    assert_eq!(ledger.to_entries(), vec![entry(1, 6), entry(2, 7)]);
    assert_eq!(ledger.remove(id(3)), None);
    assert_eq!(ledger.remove(id(1)), Some(6));
    assert_eq!(ledger.remove(id(1)), None);
    assert_eq!(ledger.len(), 1);
    assert_eq!(ledger.sum(), Some(7));
    assert_eq!(ledger.entry_at(0), Some(entry(2, 7)));
    assert_eq!(ledger.entry_at(1), None);
}

#[test]
fn ledger_from_entries() {
    assert!(Ledger::from_entries(vec![entry(1, 1), entry(2, 1), entry(3, 1)]).is_some());
    assert!(Ledger::from_entries(vec![entry(1, 1), entry(2, 1), entry(1, 9)]).is_none());
    assert!(Ledger::from_entries(vec![entry(2, 1), entry(2, 1)]).is_none());
    assert!(Ledger::from_entries(Vec::new()).is_some());
    let big = Ledger::from_entries(vec![entry(1, u64::MAX), entry(2, 1)]).unwrap();
    assert_eq!(big.sum(), None);
}

#[test]
fn claim_set_operations() {
    let mut set = ClaimSet::new();
    assert!(set.is_empty());
    assert!(!set.contains(id(1)));
    set.insert(id(1));
    set.insert(id(2));
    set.insert(id(1));
    assert!(set.contains(id(1)));
    assert!(set.contains(id(2)));
    assert!(!set.contains(id(3)));
    assert!(!set.is_empty());
    assert_eq!(set.members(), vec![id(1), id(2)]);
    let again = ClaimSet::from_members(vec![id(4), id(4)]);
    assert!(again.contains(id(4)));
    assert!(!again.contains(id(1)));
}

#[test]
fn share_arithmetic() {
    assert_eq!(share_of(500_000, 4, 10), 200_000);
    assert_eq!(share_of(6, 2, 10), 1);
    assert_eq!(share_of(4, 2, 10), 0);
    assert_eq!(share_of(4, 500, 10_000), 0);
    assert_eq!(share_of(u64::MAX, u64::MAX, u64::MAX), u64::MAX);
    assert_eq!(share_of(u64::MAX, u64::MAX - 1, u64::MAX), u64::MAX - 1);
    assert_eq!(share_of(1_000_000, 30, 10_000), 3_000);
    assert_eq!(share_of(u64::MAX, 10_000, 10_000), u64::MAX);
    assert_eq!(share_of(9, 1, 2), 4);
    assert_eq!(share_of(9, 0, 0), 0);
}
