//! Fair-launch fundraising: contribution intake, refunds, finalization and
//! pro-rata settlement, with every rule stated as a contract.

pub mod account;
pub mod campaign;
pub mod claims;
pub mod cpamm;
pub mod fair_launch;
pub mod fair_launch_dex;
pub mod history;
pub mod ledger;
pub mod pool_creation;
pub mod units;
