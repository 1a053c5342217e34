//! The simplified launch: contributions up to one overall limit until an end
//! time, then, once, the sold part of the liquidity reservation to the
//! exchange, and, once, a distribution of the participants' reservation to all
//! contributors.

use crate::account::AccountId;
use crate::account::Clock;
use crate::ledger::amount_of;
use crate::ledger::credited;
use crate::ledger::distinct;
use crate::ledger::holds;
use crate::ledger::lemma_credited;
use crate::ledger::lemma_shares_bounded;
use crate::ledger::lemma_total_bounds;
use crate::ledger::shares_of;
use crate::ledger::total_of;
use crate::ledger::Entry;
use crate::ledger::Ledger;
use crate::units::lamports_per_sol;
use crate::units::lemma_share_bounds;
use crate::units::lemma_share_commutes;
use crate::units::lemma_share_of_whole;
use crate::units::share;
use crate::units::share_of;
use crate::units::spec_lamports_per_sol;
use vstd::prelude::*;

verus! {

/// Why a request was rejected. A rejected request changes nothing.
#[derive(Clone, Copy, Debug, PartialEq, Eq, Structural)]
pub enum ErrorCode {
    /// The contribution period is over.
    FairMintEnded,
    /// The contribution period is not over yet.
    FairMintNotEnded,
    /// The contribution would take the raised value above the limit.
    LpMaxLimitExceeded,
    /// The end time is no representable time.
    EndTimeOutOfRange,
    /// Trading has started: contributions and a second start are over.
    TradingAlreadyStarted,
    /// Trading has not started: nothing is distributed yet.
    TradingNotStarted,
    /// The distribution has been made.
    AlreadyDistributed,
}

/// Most contributors that the persisted record has room for.
pub const MAX_CONTRIBUTORS: usize = 100;

/// Most contributions that the persisted record has room for.
pub const MAX_CONTRIBUTIONS: usize = 100;

/// The rent fee taken at distribution, in hundredths of the raised value.
pub const RENT_FEE_PERCENTAGE: u64 = 2;

/// The bytes of the launch's record without its two flags: the
/// discriminator, the authority, four 8-byte numbers, and the two lists with
/// their 4-byte length prefixes.
pub fn fair_launch_space() -> (r: usize)
    ensures
        r == 8 + 32 + 8 + 8 + 8 + 8 + (4 + 32 * MAX_CONTRIBUTORS) + (4 + (32 + 8)
            * MAX_CONTRIBUTIONS),
        r == 7280,
{
    8 + 32 + 8 + 8 + 8 + 8 + 4 + (32 * MAX_CONTRIBUTORS) + 4 + (32 + 8) * MAX_CONTRIBUTIONS
}

/// The simplified launch as a mathematical value.
pub struct Launch {
    pub authority: AccountId,
    pub total_supply: u64,
    pub end_time: i64,
    pub total_sol: u64,
    pub lp_max_limit: u64,
    /// Whether trading has started: the launch is finalized.
    pub started: bool,
    /// Whether the distribution has been made: every contributor is settled.
    pub distributed: bool,
    pub contributions: Seq<Entry>,
}

/// One request to a simplified launch, with the clock reading it is made at.
#[derive(Clone, Copy, Debug)]
pub enum LaunchRequest {
    Fund { user: AccountId, amount: u64, clock: Clock },
    StartTrading { clock: Clock },
    DistributeTokens { clock: Clock },
}

impl Launch {
    /// One entry per contributor, the raised value equal to the sum of the
    /// contributions and within the limit, and no distribution before trading
    /// has started.
    pub open spec fn wf(self) -> bool {
        &&& distinct(self.contributions)
        &&& self.total_sol == total_of(self.contributions)
        &&& self.total_sol <= self.lp_max_limit
        &&& self.distributed ==> self.started
    }

    /// The contributors, in the order of their first contribution.
    pub open spec fn contributors(self) -> Seq<AccountId> {
        Seq::new(self.contributions.len(), |i: int| self.contributions[i].who)
    }

    /// The asset units reserved for liquidity: half the supply, rounded down.
    pub open spec fn reserved_for_liquidity(self) -> int {
        self.total_supply as int / 2
    }

    /// The asset units reserved for the contributors: the rest of the supply.
    pub open spec fn reserved_for_participants(self) -> int {
        self.total_supply - self.total_supply as int / 2
    }

    // ---- contributions ----

    /// Why a contribution is rejected, `None` where it is accepted.
    pub open spec fn fund_rejection(self, amount: u64, clock: Clock) -> Option<ErrorCode> {
        if self.started {
            Some(ErrorCode::TradingAlreadyStarted)
        } else if clock.unix_timestamp >= self.end_time {
            Some(ErrorCode::FairMintEnded)
        } else if self.total_sol + amount > self.lp_max_limit {
            Some(ErrorCode::LpMaxLimitExceeded)
        } else {
            None
        }
    }

    /// The launch after `user` has contributed `amount`.
    pub open spec fn after_fund(self, user: AccountId, amount: u64) -> Launch {
        Launch {
            total_sol: (self.total_sol + amount) as u64,
            contributions: credited(self.contributions, user, amount),
            ..self
        }
    }

    // ---- the start of trading ----

    /// Why the start of trading is rejected, `None` where it is accepted.
    pub open spec fn start_rejection(self, clock: Clock) -> Option<ErrorCode> {
        if clock.unix_timestamp < self.end_time {
            Some(ErrorCode::FairMintNotEnded)
        } else if self.started {
            Some(ErrorCode::TradingAlreadyStarted)
        } else {
            None
        }
    }

    /// The asset units that go to the exchange: nothing where nothing was
    /// raised; the liquidity reservation where the limit was reached; else the
    /// part of it in proportion of the raised value to the limit, rounded down.
    pub open spec fn tokens_to_dex(self) -> int {
        if self.total_sol == 0 {
            0
        } else if self.total_sol < self.lp_max_limit {
            share(self.reserved_for_liquidity(), self.total_sol as int, self.lp_max_limit as int)
        } else {
            self.reserved_for_liquidity()
        }
    }

    /// The launch after trading has started.
    pub open spec fn after_start(self) -> Launch {
        Launch { started: true, ..self }
    }

    // ---- the distribution ----

    /// Why the distribution is rejected, `None` where it is accepted.
    pub open spec fn distribute_rejection(self, clock: Clock) -> Option<ErrorCode> {
        if clock.unix_timestamp < self.end_time {
            Some(ErrorCode::FairMintNotEnded)
        } else if !self.started {
            Some(ErrorCode::TradingNotStarted)
        } else if self.distributed {
            Some(ErrorCode::AlreadyDistributed)
        } else {
            None
        }
    }

    /// The rent fee: two hundredths of the raised value, rounded down.
    pub open spec fn rent_fee(self) -> int {
        share(self.total_sol as int, RENT_FEE_PERCENTAGE as int, 100)
    }

    /// What the contributor at place `i` is minted: the participants'
    /// reservation in proportion of the contribution to the raised value,
    /// rounded down.
    pub open spec fn token_amount(self, i: int) -> int {
        share(
            self.reserved_for_participants(),
            self.contributions[i].amount as int,
            self.total_sol as int,
        )
    }

    /// What each contributor is minted, in the order of the ledger.
    pub open spec fn mints(self) -> Seq<Entry> {
        Seq::new(
            self.contributions.len(),
            |i: int|
                Entry { who: self.contributions[i].who, amount: self.token_amount(i) as u64 },
        )
    }

    /// What is burned: the unsold part of the liquidity reservation, which is
    /// the reservation less what goes to the exchange.
    pub open spec fn burn_amount(self) -> int {
        self.reserved_for_liquidity() - self.tokens_to_dex()
    }

    /// The launch after the distribution.
    pub open spec fn after_distribute(self) -> Launch {
        Launch { distributed: true, ..self }
    }

    // ---- histories ----

    /// Why `request` is rejected, `None` where it is accepted.
    pub open spec fn rejection(self, request: LaunchRequest) -> Option<ErrorCode> {
        match request {
            LaunchRequest::Fund { user, amount, clock } => self.fund_rejection(amount, clock),
            LaunchRequest::StartTrading { clock } => self.start_rejection(clock),
            LaunchRequest::DistributeTokens { clock } => self.distribute_rejection(clock),
        }
    }

    /// The launch after `request`: changed as the operation says where the
    /// request is accepted, unchanged where it is rejected.
    pub open spec fn step(self, request: LaunchRequest) -> Launch {
        if self.rejection(request) is Some {
            self
        } else {
            match request {
                LaunchRequest::Fund { user, amount, clock } => self.after_fund(user, amount),
                LaunchRequest::StartTrading { clock } => self.after_start(),
                LaunchRequest::DistributeTokens { clock } => self.after_distribute(),
            }
        }
    }

    /// The launch after every request of `history`, in order.
    pub open spec fn run(self, history: Seq<LaunchRequest>) -> Launch
        decreases history.len(),
    {
        if history.len() == 0 {
            self
        } else {
            self.run(history.drop_last()).step(history.last())
        }
    }
}

/// What a distribution mints, burns and pays.
#[derive(Debug)]
pub struct Distribution {
    /// The asset units to mint, contributor by contributor.
    pub mints: Vec<Entry>,
    /// The asset units to burn.
    pub burn_amount: u64,
    /// The value to pay to the rent fee account.
    pub rent_fee: u64,
}

/// The state of the simplified launch.
pub struct FairLaunch {
    authority: AccountId,
    total_supply: u64,
    end_time: i64,
    total_sol: u64,
    lp_max_limit: u64,
    started: bool,
    distributed: bool,
    contributions: Ledger,
}

impl View for FairLaunch {
    type V = Launch;

    closed spec fn view(&self) -> Launch {
        Launch {
            authority: self.authority,
            total_supply: self.total_supply,
            end_time: self.end_time,
            total_sol: self.total_sol,
            lp_max_limit: self.lp_max_limit,
            started: self.started,
            distributed: self.distributed,
            contributions: self.contributions.entries(),
        }
    }
}

impl FairLaunch {
    /// The launch's invariants hold.
    pub open spec fn wf(&self) -> bool {
        self@.wf()
    }

    /// Takes persisted values back as a launch, if they satisfy the launch's
    /// invariants: one entry per contributor, the raised value equal to the sum
    /// of the contributions and within the limit, and no distribution before
    /// trading has started.
    pub fn restore(
        authority: AccountId,
        total_supply: u64,
        end_time: i64,
        total_sol: u64,
        lp_max_limit: u64,
        started: bool,
        distributed: bool,
        contributions: Vec<Entry>,
    ) -> (r: Option<FairLaunch>)
        ensures
            ({
                let target = Launch {
                    authority,
                    total_supply,
                    end_time,
                    total_sol,
                    lp_max_limit,
                    started,
                    distributed,
                    contributions: contributions@,
                };
                match r {
                    Some(launch) => target.wf() && launch.wf() && launch@ == target,
                    None => !target.wf(),
                }
            }),
    {
        if total_sol > lp_max_limit {
            return None;
        }
        if distributed && !started {
            return None;
        }
        let ledger = match Ledger::from_entries(contributions) {
            Some(ledger) => ledger,
            None => {
                return None;
            },
        };
        match ledger.sum() {
            Some(sum) => {
                if sum != total_sol {
                    return None;
                }
            },
            None => {
                return None;
            },
        }
        Some(
            FairLaunch {
                authority,
                total_supply,
                end_time,
                total_sol,
                lp_max_limit,
                started,
                distributed,
                contributions: ledger,
            },
        )
    }

    /// The contributions, in the order of each contributor's first.
    pub fn contributions(&self) -> (r: Vec<Entry>)
        ensures
            r@ == self@.contributions,
    {
        self.contributions.to_entries()
    }

    pub fn authority(&self) -> (r: AccountId)
        ensures
            r == self@.authority,
    {
        self.authority
    }

    pub fn total_supply(&self) -> (r: u64)
        ensures
            r == self@.total_supply,
    {
        self.total_supply
    }

    /// The time from which contributions are over.
    pub fn end_time(&self) -> (r: i64)
        ensures
            r == self@.end_time,
    {
        self.end_time
    }

    /// The value raised so far.
    pub fn total_sol(&self) -> (r: u64)
        ensures
            r == self@.total_sol,
    {
        self.total_sol
    }

    /// The most that may be raised in all.
    pub fn lp_max_limit(&self) -> (r: u64)
        ensures
            r == self@.lp_max_limit,
    {
        self.lp_max_limit
    }

    /// Whether trading has started.
    pub fn has_started(&self) -> (r: bool)
        ensures
            r == self@.started,
    {
        self.started
    }

    /// Whether the distribution has been made.
    pub fn has_distributed(&self) -> (r: bool)
        ensures
            r == self@.distributed,
    {
        self.distributed
    }

    /// What `who` has contributed, if anything.
    pub fn contribution_of(&self, who: AccountId) -> (r: Option<u64>)
        requires
            self.wf(),
        ensures
            r == (if holds(self@.contributions, who) {
                Some(amount_of(self@.contributions, who) as u64)
            } else {
                None
            }),
    {
        self.contributions.get(who)
    }

    /// The contributors, in the order of their first contribution.
    pub fn contributors(&self) -> (r: Vec<AccountId>)
        ensures
            r@ == self@.contributors(),
    {
        let mut out: Vec<AccountId> = Vec::new();
        let n = self.contributions.len();
        let mut i: usize = 0;
        while i < n
            invariant
                n == self.contributions.entries().len(),
                i <= n,
                out@.len() == i,
                forall|j: int| 0 <= j < i ==> out@[j] == self.contributions.entries()[j].who,
            decreases n - i,
        {
            match self.contributions.entry_at(i) {
                Some(entry) => {
                    out.push(entry.who);
                },
                None => {},
            }
            i += 1;
        }
        assert(out@ =~= self@.contributors());
        out
    }
}

/// Opens a launch of `total_supply` asset units that takes contributions for
/// `duration` seconds from now, up to ten SOL in all.
pub fn initialize(authority: AccountId, total_supply: u64, duration: i64, clock: Clock) -> (r:
    Result<FairLaunch, ErrorCode>)
    ensures
        match r {
            Ok(launch) => {
                &&& i64::MIN <= clock.unix_timestamp + duration <= i64::MAX
                &&& launch.wf()
                &&& launch@ == (Launch {
                    authority,
                    total_supply,
                    end_time: (clock.unix_timestamp + duration) as i64,
                    total_sol: 0,
                    lp_max_limit: (10 * spec_lamports_per_sol()) as u64,
                    started: false,
                    distributed: false,
                    contributions: Seq::empty(),
                })
            },
            Err(e) => {
                &&& !(i64::MIN <= clock.unix_timestamp + duration <= i64::MAX)
                &&& e == ErrorCode::EndTimeOutOfRange
            },
        },
{
    let end_time: i64 = match clock.unix_timestamp.checked_add(duration) {
        Some(t) => t,
        None => {
            return Err(ErrorCode::EndTimeOutOfRange);
        },
    };
    Ok(
        FairLaunch {
            authority,
            total_supply,
            end_time,
            total_sol: 0,
            lp_max_limit: 10 * lamports_per_sol(),
            started: false,
            distributed: false,
            contributions: Ledger::new(),
        },
    )
}

/// Takes a contribution of `amount` from `user`. On success the caller moves
/// `amount` from the contributor into custody.
pub fn fund(launch: &mut FairLaunch, user: AccountId, amount: u64, clock: Clock) -> (r: Result<
    (),
    ErrorCode,
>)
    requires
        old(launch).wf(),
    ensures
        final(launch).wf(),
        match r {
            Ok(_) => {
                &&& old(launch)@.fund_rejection(amount, clock) is None
                &&& final(launch)@ == old(launch)@.after_fund(user, amount)
            },
            Err(e) => {
                &&& old(launch)@.fund_rejection(amount, clock) == Some(e)
                &&& final(launch)@ == old(launch)@
            },
        },
{
    if launch.started {
        return Err(ErrorCode::TradingAlreadyStarted);
    }
    if clock.unix_timestamp >= launch.end_time {
        return Err(ErrorCode::FairMintEnded);
    }
    if amount > launch.lp_max_limit - launch.total_sol {
        return Err(ErrorCode::LpMaxLimitExceeded);
    }
    launch.contributions.credit(user, amount);
    launch.total_sol = launch.total_sol + amount;
    Ok(())
}

/// Starts trading, once and for good: closes the launch and works out the
/// asset units that go to the exchange.
///
/// On success the caller moves the returned amount of the asset to the
/// exchange.
pub fn start_trading(launch: &mut FairLaunch, clock: Clock) -> (r: Result<u64, ErrorCode>)
    requires
        old(launch).wf(),
    ensures
        final(launch).wf(),
        match r {
            Ok(tokens_to_dex) => {
                &&& old(launch)@.start_rejection(clock) is None
                &&& final(launch)@ == old(launch)@.after_start()
                &&& tokens_to_dex == old(launch)@.tokens_to_dex()
                &&& tokens_to_dex <= old(launch)@.reserved_for_liquidity()
            },
            Err(e) => {
                &&& old(launch)@.start_rejection(clock) == Some(e)
                &&& final(launch)@ == old(launch)@
            },
        },
{
    if clock.unix_timestamp < launch.end_time {
        return Err(ErrorCode::FairMintNotEnded);
    }
    if launch.started {
        return Err(ErrorCode::TradingAlreadyStarted);
    }
    launch.started = true;
    Ok(committed_to_dex(launch.total_supply, launch.total_sol, launch.lp_max_limit))
}

/// The asset units that go to the exchange, of a launch of `total_supply` that
/// raised `total_sol` under a limit of `lp_max_limit`.
fn committed_to_dex(total_supply: u64, total_sol: u64, lp_max_limit: u64) -> (r: u64)
    requires
        total_sol <= lp_max_limit,
    ensures
        r == (if total_sol == 0 {
            0
        } else if total_sol < lp_max_limit {
            share(total_supply as int / 2, total_sol as int, lp_max_limit as int)
        } else {
            total_supply as int / 2
        }),
        r <= total_supply / 2,
{
    let reserved: u64 = total_supply / 2;
    if total_sol == 0 {
        0
    } else if total_sol < lp_max_limit {
        share_of(reserved, total_sol, lp_max_limit)
    } else {
        reserved
    }
}

/// Works out the distribution, once: what each contributor is minted out of
/// the participants' reservation, what is burned of the liquidity reservation,
/// and the rent fee.
///
/// On success the caller mints each amount to its contributor, burns
/// `burn_amount`, and pays `rent_fee`. What is minted in all is at most the
/// participants' reservation.
pub fn distribute_tokens(launch: &mut FairLaunch, clock: Clock) -> (r: Result<
    Distribution,
    ErrorCode,
>)
    requires
        old(launch).wf(),
    ensures
        final(launch).wf(),
        match r {
            Ok(distribution) => {
                &&& old(launch)@.distribute_rejection(clock) is None
                &&& final(launch)@ == old(launch)@.after_distribute()
                &&& distribution.mints@ == old(launch)@.mints()
                &&& distribution.burn_amount == old(launch)@.burn_amount()
                &&& distribution.rent_fee == old(launch)@.rent_fee()
                &&& total_of(distribution.mints@) <= old(launch)@.reserved_for_participants()
            },
            Err(e) => {
                &&& old(launch)@.distribute_rejection(clock) == Some(e)
                &&& final(launch)@ == old(launch)@
            },
        },
{
    if clock.unix_timestamp < launch.end_time {
        return Err(ErrorCode::FairMintNotEnded);
    }
    if !launch.started {
        return Err(ErrorCode::TradingNotStarted);
    }
    if launch.distributed {
        return Err(ErrorCode::AlreadyDistributed);
    }
    let total: u64 = launch.total_sol;
    let for_liquidity: u64 = launch.total_supply / 2;
    let for_participants: u64 = launch.total_supply - for_liquidity;
    let rent_fee: u64 = share_of(total, RENT_FEE_PERCENTAGE, 100);

    let mut mints: Vec<Entry> = Vec::new();
    let n = launch.contributions.len();
    let mut i: usize = 0;
    while i < n
        invariant
            n == launch@.contributions.len(),
            launch@.contributions == launch.contributions.entries(),
            i <= n,
            total == launch@.total_sol,
            total == total_of(launch@.contributions),
            for_participants == launch@.reserved_for_participants(),
            mints@.len() == i,
            forall|j: int| 0 <= j < i ==> mints@[j] == launch@.mints()[j],
        decreases n - i,
    {
        match launch.contributions.entry_at(i) {
            Some(entry) => {
                proof {
                    lemma_total_bounds(launch@.contributions, i as int);
                }
                let token_amount: u64 = share_of(for_participants, entry.amount, total);
                mints.push(Entry { who: entry.who, amount: token_amount });
            },
            None => {},
        }
        i += 1;
    }
    assert(mints@ =~= launch@.mints());

    let to_dex: u64 = committed_to_dex(launch.total_supply, total, launch.lp_max_limit);
    proof {
        lemma_distribution_fits(launch@);
    }
    launch.distributed = true;
    Ok(Distribution { mints, burn_amount: for_liquidity - to_dex, rent_fee })
}

/// Everything that leaves the supply is within it: what goes to the exchange
/// and what is burned make up the liquidity reservation, and what is minted in
/// all is at most the participants' reservation, so that rounding remainders
/// are never minted.
pub proof fn lemma_distribution_fits(launch: Launch)
    requires
        launch.wf(),
    ensures
        0 <= launch.rent_fee() <= launch.total_sol,
        0 <= launch.tokens_to_dex() <= launch.reserved_for_liquidity(),
        launch.tokens_to_dex() + launch.burn_amount() == launch.reserved_for_liquidity(),
        0 <= total_of(launch.mints()) <= launch.reserved_for_participants(),
        launch.tokens_to_dex() + launch.burn_amount() + total_of(launch.mints())
            <= launch.total_supply,
{
    let total = launch.total_sol as int;
    let reserved = launch.reserved_for_participants();
    lemma_share_bounds(total, RENT_FEE_PERCENTAGE as int, 100);
    lemma_share_bounds(launch.reserved_for_liquidity(), total, launch.lp_max_limit as int);
    lemma_mints_are_shares(launch, launch.contributions.len());
    assert(launch.contributions.take(launch.contributions.len() as int) =~= launch.contributions);
    assert(launch.mints().take(launch.contributions.len() as int) =~= launch.mints());
    lemma_shares_bounded(launch.contributions, reserved, total);
    if total > 0 {
        lemma_share_of_whole(total, reserved);
    }
}

/// The first `n` mints add up to the rounded-down shares of the first `n`
/// contributions.
proof fn lemma_mints_are_shares(launch: Launch, n: nat)
    requires
        launch.wf(),
        n <= launch.contributions.len(),
    ensures
        total_of(launch.mints().take(n as int)) == shares_of(
            launch.contributions.take(n as int),
            launch.reserved_for_participants(),
            launch.total_sol as int,
        ),
    decreases n,
{
    if n > 0 {
        lemma_mints_are_shares(launch, (n - 1) as nat);
        let m = launch.mints().take(n as int);
        let c = launch.contributions.take(n as int);
        assert(m.drop_last() =~= launch.mints().take(n - 1));
        assert(c.drop_last() =~= launch.contributions.take(n - 1));
        assert(m.last() == launch.mints()[n - 1]);
        assert(c.last() == launch.contributions[n - 1]);
        let amount = launch.contributions[n - 1].amount as int;
        lemma_total_bounds(launch.contributions, n - 1);
        lemma_share_bounds(launch.reserved_for_participants(), amount, launch.total_sol as int);
        lemma_share_commutes(launch.reserved_for_participants(), amount, launch.total_sol as int);
    }
}

/// One request, accepted or not, keeps the invariants, never reopens a
/// started launch, never takes the distribution back, and changes neither the
/// ledger nor the raised value once trading has started.
pub proof fn lemma_step(launch: Launch, request: LaunchRequest)
    requires
        launch.wf(),
    ensures
        launch.step(request).wf(),
        launch.started ==> launch.step(request).started,
        launch.distributed ==> launch.step(request).distributed,
        launch.started ==> launch.step(request).contributions == launch.contributions
            && launch.step(request).total_sol == launch.total_sol,
        launch.step(request).total_supply == launch.total_supply,
        launch.step(request).lp_max_limit == launch.lp_max_limit,
        launch.step(request).end_time == launch.end_time,
{
    if launch.rejection(request) is None {
        match request {
            LaunchRequest::Fund { user, amount, clock } => {
                lemma_credited(launch.contributions, user, amount);
            },
            _ => {},
        }
    }
}

/// The same, of a whole history.
pub proof fn lemma_run(launch: Launch, history: Seq<LaunchRequest>)
    requires
        launch.wf(),
    ensures
        launch.run(history).wf(),
        launch.started ==> launch.run(history).started,
        launch.distributed ==> launch.run(history).distributed,
        launch.started ==> launch.run(history).contributions == launch.contributions
            && launch.run(history).total_sol == launch.total_sol,
        launch.run(history).total_supply == launch.total_supply,
        launch.run(history).lp_max_limit == launch.lp_max_limit,
        launch.run(history).end_time == launch.end_time,
    decreases history.len(),
{
    if history.len() > 0 {
        lemma_run(launch, history.drop_last());
        lemma_step(launch.run(history.drop_last()), history.last());
    }
}

/// Trading starts once. After an accepted start, every later start is
/// rejected, whatever was asked in between and whatever the clock says, and
/// so is every later contribution; the rejected request changes nothing.
pub proof fn lemma_trading_starts_once(
    launch: Launch,
    first: Clock,
    between: Seq<LaunchRequest>,
    second: Clock,
    user: AccountId,
    amount: u64,
)
    requires
        launch.wf(),
        launch.start_rejection(first) is None,
    ensures
        ({
            let later = launch.after_start().run(between);
            &&& later.started
            &&& later.start_rejection(second) == Some(ErrorCode::TradingAlreadyStarted)
                || later.start_rejection(second) == Some(ErrorCode::FairMintNotEnded)
            &&& later.step(LaunchRequest::StartTrading { clock: second }) == later
            &&& later.fund_rejection(amount, second) == Some(ErrorCode::TradingAlreadyStarted)
            &&& later.step(LaunchRequest::Fund { user, amount, clock: second }) == later
        }),
{
    lemma_run(launch.after_start(), between);
}

/// The distribution is made once. After an accepted distribution, every later
/// one is rejected, whatever was asked in between and whatever the clock
/// says, and changes nothing.
pub proof fn lemma_distributed_once(
    launch: Launch,
    first: Clock,
    between: Seq<LaunchRequest>,
    second: Clock,
)
    requires
        launch.wf(),
        launch.distribute_rejection(first) is None,
    ensures
        ({
            let later = launch.after_distribute().run(between);
            &&& later.distributed
            &&& later.distribute_rejection(second) == Some(ErrorCode::AlreadyDistributed)
                || later.distribute_rejection(second) == Some(ErrorCode::FairMintNotEnded)
            &&& later.step(LaunchRequest::DistributeTokens { clock: second }) == later
        }),
{
    lemma_run(launch.after_distribute(), between);
}

} // verus!
