//! The fair launch itself: opening a campaign, taking contributions, refunding
//! them, finalizing once, and settling each participant once.
//!
//! Every operation works on the campaign's state alone. Moving value and
//! assets, and calling the venue, is the caller's part: each operation hands
//! back what is to be moved.

use crate::account::AccountId;
use crate::account::Clock;
use crate::campaign::acceptable;
use crate::campaign::lemma_claim_keeps_wf;
use crate::campaign::lemma_finalization_fits;
use crate::campaign::lemma_fund_keeps_wf;
use crate::campaign::lemma_mint_keeps_wf;
use crate::campaign::lemma_refund_keeps_wf;
use crate::campaign::lemma_start_keeps_wf;
use crate::campaign::Campaign;
use crate::campaign::Terms;
use crate::claims::ClaimSet;
use crate::cpamm::instruction_data;
use crate::cpamm::proxy_initialize;
use crate::cpamm::Instruction;
use crate::cpamm::ProxyInitialize;
use crate::ledger::Entry;
use crate::ledger::Ledger;
use crate::units::share_of;
use crate::units::spec_standard_fund_limit;
use crate::units::standard_fund_limit;
use crate::units::BASIS_POINTS;
use crate::units::LAUNCH_FEE_RATE;
use crate::units::MINIMAL_FUND;
use crate::units::PROJECT_OWNER_RATE;
use crate::units::REFUND_RECIPIENT_RATE;
use vstd::prelude::*;

verus! {

/// Why an operation was rejected. A rejected operation changes nothing.
#[derive(Clone, Copy, Debug, PartialEq, Eq, Structural)]
pub enum FairLaunchError {
    /// The campaign is closed: contributions, refunds and a second
    /// finalization are over.
    AlreadyFinalized,
    /// The deadline has passed: no more contributions.
    WindowClosed,
    /// The contribution is below the minimum.
    BelowMinimum,
    /// The contribution would take the participant above the cap.
    CapExceeded,
    /// The participant has no contribution on record.
    NoContribution,
    /// Finalization was asked for before the deadline.
    DeadlineNotReached,
    /// Settlement was asked for before finalization.
    NotFinalized,
    /// The participant has already been settled.
    AlreadyClaimed,
    /// The asset entitlement rounds down to nothing.
    ZeroEntitlement,
    /// The part of the surplus rounds down to nothing.
    ZeroClaim,
    /// Nothing was raised above the liquidity ceiling.
    NoSurplus,
    /// The parameters cannot open a campaign.
    InvalidParameters,
    /// The raised value would no longer fit in 64 bits.
    AmountOverflow,
}

/// What the venue is bootstrapped with.
#[derive(Clone, Copy, Debug, PartialEq, Eq, Structural)]
pub struct RaydiumParams {
    pub nonce: u8,
    pub open_time: u64,
    pub init_pc_amount: u64,
    pub init_coin_amount: u64,
}

/// What a campaign is opened with.
#[derive(Debug)]
pub struct FairLaunchParams {
    pub name: String,
    pub symbol: String,
    pub meta: String,
    pub total_supply: u64,
    /// How many slots from now the contribution window stays open.
    pub after_slot: u64,
    pub liquidity_ceiling: Option<u64>,
    pub per_participant_cap: Option<u64>,
    pub minimum_contribution: u64,
    /// Fee on refunds, in basis points.
    pub refund_fee_rate: u16,
    pub burn_unsold: bool,
    pub raydium_params: RaydiumParams,
}

impl FairLaunchParams {
    /// The standard policy: a cap of ten SOL per participant, the standard
    /// minimum, a ceiling of `soft_top_cap` where that is above zero and none
    /// otherwise, and no burning of unsold inventory.
    pub fn standard(
        name: String,
        symbol: String,
        meta: String,
        total_supply: u64,
        after_slot: u64,
        soft_top_cap: u64,
        refund_fee_rate: u16,
        raydium_params: RaydiumParams,
    ) -> (r: FairLaunchParams)
        ensures
            r.name@ == name@,
            r.symbol@ == symbol@,
            r.meta@ == meta@,
            r.total_supply == total_supply,
            r.after_slot == after_slot,
            r.liquidity_ceiling == (if soft_top_cap > 0 {
                Some(soft_top_cap)
            } else {
                None
            }),
            r.per_participant_cap == Some(spec_standard_fund_limit() as u64),
            r.minimum_contribution == MINIMAL_FUND,
            r.refund_fee_rate == refund_fee_rate,
            !r.burn_unsold,
            r.raydium_params == raydium_params,
    {
        FairLaunchParams {
            name,
            symbol,
            meta,
            total_supply,
            after_slot,
            liquidity_ceiling: if soft_top_cap > 0 {
                Some(soft_top_cap)
            } else {
                None
            },
            per_participant_cap: Some(standard_fund_limit()),
            minimum_contribution: MINIMAL_FUND,
            refund_fee_rate,
            burn_unsold: false,
            raydium_params,
        }
    }
}

/// An accepted contribution.
#[derive(Clone, Copy, Debug, PartialEq, Eq, Structural)]
pub struct FundEvent {
    pub user: AccountId,
    /// The value to move from the participant into custody.
    pub amount: u64,
    pub timestamp: i64,
}

/// An accepted refund.
#[derive(Clone, Copy, Debug, PartialEq, Eq, Structural)]
pub struct RefundEvent {
    pub user: AccountId,
    /// The value to pay back to the participant.
    pub amount: u64,
    pub fee: u64,
    pub timestamp: i64,
}

/// An accepted refund, and who is paid its fee.
#[derive(Clone, Copy, Debug)]
pub struct Refunded {
    pub event: RefundEvent,
    /// The recipient of `event.fee`; `None` where the fee stays in custody.
    pub fee_recipient: Option<AccountId>,
}

/// An accepted finalization.
#[derive(Clone, Copy, Debug, PartialEq, Eq, Structural)]
pub struct TradingStartedEvent {
    /// The raised value.
    pub total_sol: u64,
    /// The value committed to the venue.
    pub total_add: u64,
    /// The protocol fee.
    pub fee: u64,
    pub timestamp: i64,
}

/// Everything that an accepted finalization commits and routes.
#[derive(Clone, Copy, Debug)]
pub struct Finalization {
    pub event: TradingStartedEvent,
    /// The asset units to move to the venue.
    pub liquidity_asset_amount: u64,
    /// The asset units to burn.
    pub burn_amount: u64,
    /// The value to pay to `refund_fee_to`.
    pub recipient_fee: u64,
    /// The value to pay to `project_owner`.
    pub project_fee: u64,
    pub refund_fee_to: AccountId,
    pub project_owner: AccountId,
    /// What the venue is bootstrapped with: the configured nonce and open
    /// time, `event.total_add` as the initial value amount and
    /// `liquidity_asset_amount` as the initial asset amount.
    pub venue_params: RaydiumParams,
}

/// A settled asset claim.
#[derive(Clone, Copy, Debug, PartialEq, Eq, Structural)]
pub struct TokenMintedEvent {
    pub user: AccountId,
    /// The asset units to mint to the participant.
    pub amount: u64,
    pub timestamp: i64,
}

/// A settled claim on the surplus.
#[derive(Clone, Copy, Debug, PartialEq, Eq, Structural)]
pub struct ExtraSOLClaimedEvent {
    pub user: AccountId,
    /// The value to pay to the participant.
    pub amount: u64,
    pub timestamp: i64,
}

/// The state of one launch.
pub struct FairLaunch {
    terms: Terms,
    name: String,
    symbol: String,
    meta: String,
    total_value_raised: u64,
    is_finalized: bool,
    ledger: Ledger,
    asset_claimed: ClaimSet,
    excess_claimed: ClaimSet,
}

impl View for FairLaunch {
    type V = Campaign;

    closed spec fn view(&self) -> Campaign {
        Campaign {
            terms: self.terms,
            name: self.name@,
            symbol: self.symbol@,
            meta: self.meta@,
            total_value_raised: self.total_value_raised,
            is_finalized: self.is_finalized,
            entries: self.ledger.entries(),
            asset_claimed: self.asset_claimed@,
            excess_claimed: self.excess_claimed@,
        }
    }
}

/// Everything that is persisted of a campaign, as plain values.
#[derive(Debug)]
pub struct Snapshot {
    pub terms: Terms,
    pub name: String,
    pub symbol: String,
    pub meta: String,
    pub total_value_raised: u64,
    pub is_finalized: bool,
    /// The contribution ledger, one entry per participant.
    pub entries: Vec<Entry>,
    /// Participants whose asset entitlement has been settled.
    pub asset_claimed: Vec<AccountId>,
    /// Participants whose part of the surplus has been settled.
    pub excess_claimed: Vec<AccountId>,
}

impl Snapshot {
    /// The campaign that the values stand for.
    pub open spec fn campaign(&self) -> Campaign {
        Campaign {
            terms: self.terms,
            name: self.name@,
            symbol: self.symbol@,
            meta: self.meta@,
            total_value_raised: self.total_value_raised,
            is_finalized: self.is_finalized,
            entries: self.entries@,
            asset_claimed: self.asset_claimed@.to_set(),
            excess_claimed: self.excess_claimed@.to_set(),
        }
    }
}

impl FairLaunch {
    /// The campaign's invariants hold.
    pub open spec fn wf(&self) -> bool {
        self@.wf()
    }

    /// The campaign as plain values, to be persisted.
    pub fn snapshot(&self) -> (r: Snapshot)
        ensures
            r.campaign() == self@,
    {
        Snapshot {
            terms: self.terms,
            name: self.name.clone(),
            symbol: self.symbol.clone(),
            meta: self.meta.clone(),
            total_value_raised: self.total_value_raised,
            is_finalized: self.is_finalized,
            entries: self.ledger.to_entries(),
            asset_claimed: self.asset_claimed.members(),
            excess_claimed: self.excess_claimed.members(),
        }
    }

    /// Takes persisted values back as a campaign, if they satisfy the
    /// campaign's invariants: valid terms, one entry per participant, the
    /// raised value equal to the sum of the entries, every entry within the
    /// cap, and no settlement before finalization.
    pub fn restore(snapshot: Snapshot) -> (r: Option<FairLaunch>)
        ensures
            match r {
                Some(fair_launch) => {
                    &&& snapshot.campaign().wf()
                    &&& fair_launch.wf()
                    &&& fair_launch@ == snapshot.campaign()
                },
                None => !snapshot.campaign().wf(),
            },
    {
        let ghost target = snapshot.campaign();
        if !snapshot.terms.is_valid() {
            return None;
        }
        let asset_claimed = ClaimSet::from_members(snapshot.asset_claimed);
        let excess_claimed = ClaimSet::from_members(snapshot.excess_claimed);
        if !snapshot.is_finalized && !(asset_claimed.is_empty() && excess_claimed.is_empty()) {
            return None;
        }
        let ledger = match Ledger::from_entries(snapshot.entries) {
            Some(ledger) => ledger,
            None => {
                return None;
            },
        };
        match ledger.sum() {
            Some(sum) => {
                if sum != snapshot.total_value_raised {
                    return None;
                }
            },
            None => {
                return None;
            },
        }
        match snapshot.terms.per_participant_cap {
            Some(cap) => {
                if !ledger.all_within(cap) {
                    return None;
                }
            },
            None => {},
        }
        Some(
            FairLaunch {
                terms: snapshot.terms,
                name: snapshot.name,
                symbol: snapshot.symbol,
                meta: snapshot.meta,
                total_value_raised: snapshot.total_value_raised,
                is_finalized: snapshot.is_finalized,
                ledger,
                asset_claimed,
                excess_claimed,
            },
        )
    }

    /// What the campaign was configured with.
    pub fn terms(&self) -> (r: Terms)
        ensures
            r == self@.terms,
    {
        self.terms
    }

    pub fn name(&self) -> (r: &String)
        ensures
            r@ == self@.name,
    {
        &self.name
    }

    pub fn symbol(&self) -> (r: &String)
        ensures
            r@ == self@.symbol,
    {
        &self.symbol
    }

    pub fn meta(&self) -> (r: &String)
        ensures
            r@ == self@.meta,
    {
        &self.meta
    }

    /// The value raised so far; after finalization, the value raised in all.
    pub fn total_value_raised(&self) -> (r: u64)
        ensures
            r == self@.total_value_raised,
    {
        self.total_value_raised
    }

    /// Whether the campaign has been finalized.
    pub fn is_finalized(&self) -> (r: bool)
        ensures
            r == self@.is_finalized,
    {
        self.is_finalized
    }

    /// What `who` has contributed, if there is an entry.
    pub fn contribution_of(&self, who: AccountId) -> (r: Option<u64>)
        requires
            self.wf(),
        ensures
            r == (if self@.has_entry(who) {
                Some(self@.contributed(who) as u64)
            } else {
                None
            }),
    {
        self.ledger.get(who)
    }

    /// The number of participants with an entry.
    pub fn participants(&self) -> (r: usize)
        ensures
            r == self@.entries.len(),
    {
        self.ledger.len()
    }

    /// The ledger entry at `index`, in the order in which entries are kept.
    pub fn entry_at(&self, index: usize) -> (r: Option<Entry>)
        ensures
            r == (if index < self@.entries.len() {
                Some(self@.entries[index as int])
            } else {
                None
            }),
    {
        self.ledger.entry_at(index)
    }

    /// Whether `who`'s asset entitlement has been settled.
    pub fn has_claimed_asset(&self, who: AccountId) -> (r: bool)
        ensures
            r == self@.asset_claimed.contains(who),
    {
        self.asset_claimed.contains(who)
    }

    /// Whether `who`'s part of the surplus has been settled.
    pub fn has_claimed_excess(&self, who: AccountId) -> (r: bool)
        ensures
            r == self@.excess_claimed.contains(who),
    {
        self.excess_claimed.contains(who)
    }
}

/// Opens a campaign.
///
/// Rejected with `InvalidParameters` where the refund fee is above the whole
/// or the deadline is no representable slot.
pub fn initialize(
    authority: AccountId,
    refund_fee_to: AccountId,
    project_owner: AccountId,
    params: FairLaunchParams,
    clock: Clock,
) -> (r: Result<FairLaunch, FairLaunchError>)
    ensures
        match r {
            Ok(fair_launch) => {
                &&& acceptable(params, clock)
                &&& fair_launch.wf()
                &&& fair_launch@ == Campaign::opening(
                    authority,
                    refund_fee_to,
                    project_owner,
                    params,
                    clock,
                )
            },
            Err(e) => !acceptable(params, clock) && e == FairLaunchError::InvalidParameters,
        },
{
    if params.refund_fee_rate as u64 > BASIS_POINTS {
        return Err(FairLaunchError::InvalidParameters);
    }
    if params.after_slot > u64::MAX - clock.slot {
        return Err(FairLaunchError::InvalidParameters);
    }
    let for_liquidity: u64 = params.total_supply / 2;
    let terms = Terms {
        authority,
        refund_fee_to,
        project_owner,
        asset_total_supply: params.total_supply,
        asset_reserved_for_participants: params.total_supply - for_liquidity,
        asset_reserved_for_liquidity: for_liquidity,
        deadline: clock.slot + params.after_slot,
        liquidity_ceiling: params.liquidity_ceiling,
        per_participant_cap: params.per_participant_cap,
        minimum_contribution: params.minimum_contribution,
        refund_fee_rate: params.refund_fee_rate,
        burn_unsold: params.burn_unsold,
        venue_bootstrap_params: params.raydium_params,
    };
    let fair_launch = FairLaunch {
        terms,
        name: params.name,
        symbol: params.symbol,
        meta: params.meta,
        total_value_raised: 0,
        is_finalized: false,
        ledger: Ledger::new(),
        asset_claimed: ClaimSet::new(),
        excess_claimed: ClaimSet::new(),
    };
    Ok(fair_launch)
}

/// Takes a contribution of `amount` from `user`.
///
/// On success the caller moves `amount` from the participant into custody.
pub fn fund(fair_launch: &mut FairLaunch, user: AccountId, amount: u64, clock: Clock) -> (r: Result<
    FundEvent,
    FairLaunchError,
>)
    requires
        old(fair_launch).wf(),
    ensures
        final(fair_launch).wf(),
        match r {
            Ok(event) => {
                &&& old(fair_launch)@.fund_rejection(user, amount, clock) is None
                &&& final(fair_launch)@ == old(fair_launch)@.after_fund(user, amount)
                &&& final(fair_launch)@.ledger() == old(fair_launch)@.ledger().insert(
                    user,
                    (old(fair_launch)@.contributed(user) + amount) as u64,
                )
                &&& final(fair_launch)@.total_value_raised == old(fair_launch)@.total_value_raised
                    + amount
                &&& event == Campaign::fund_event(user, amount, clock)
            },
            Err(e) => {
                &&& old(fair_launch)@.fund_rejection(user, amount, clock) == Some(e)
                &&& final(fair_launch)@ == old(fair_launch)@
            },
        },
{
    if fair_launch.is_finalized {
        return Err(FairLaunchError::AlreadyFinalized);
    }
    if clock.slot >= fair_launch.terms.deadline {
        return Err(FairLaunchError::WindowClosed);
    }
    if amount < fair_launch.terms.minimum_contribution {
        return Err(FairLaunchError::BelowMinimum);
    }
    let so_far: u64 = match fair_launch.ledger.get(user) {
        Some(recorded) => recorded,
        None => 0,
    };
    match fair_launch.terms.per_participant_cap {
        Some(cap) => {
            if amount > cap || so_far > cap - amount {
                return Err(FairLaunchError::CapExceeded);
            }
        },
        None => {},
    }
    if amount > u64::MAX - fair_launch.total_value_raised {
        return Err(FairLaunchError::AmountOverflow);
    }
    proof {
        lemma_fund_keeps_wf(fair_launch@, user, amount, clock);
    }
    fair_launch.ledger.credit(user, amount);
    fair_launch.total_value_raised = fair_launch.total_value_raised + amount;
    Ok(FundEvent { user, amount, timestamp: clock.unix_timestamp })
}

/// Refunds `user`'s whole contribution, less the refund fee.
///
/// On success the caller pays `event.amount` to the participant and, where
/// `fee_recipient` is set, `event.fee` to that recipient.
pub fn refund(fair_launch: &mut FairLaunch, user: AccountId, clock: Clock) -> (r: Result<
    Refunded,
    FairLaunchError,
>)
    requires
        old(fair_launch).wf(),
    ensures
        final(fair_launch).wf(),
        match r {
            Ok(refunded) => {
                &&& old(fair_launch)@.refund_rejection(user) is None
                &&& final(fair_launch)@ == old(fair_launch)@.after_refund(user)
                &&& final(fair_launch)@.ledger() == old(fair_launch)@.ledger().remove(user)
                &&& final(fair_launch)@.total_value_raised == old(fair_launch)@.total_value_raised
                    - old(fair_launch)@.contributed(user)
                &&& refunded == old(fair_launch)@.refund_outcome(user, clock)
                &&& refunded.event.amount + refunded.event.fee == old(fair_launch)@.contributed(
                    user,
                )
            },
            Err(e) => {
                &&& old(fair_launch)@.refund_rejection(user) == Some(e)
                &&& final(fair_launch)@ == old(fair_launch)@
            },
        },
{
    if fair_launch.is_finalized {
        return Err(FairLaunchError::AlreadyFinalized);
    }
    let amount: u64 = match fair_launch.ledger.get(user) {
        Some(recorded) => recorded,
        None => {
            return Err(FairLaunchError::NoContribution);
        },
    };
    let fee: u64 = share_of(amount, fair_launch.terms.refund_fee_rate as u64, BASIS_POINTS);
    let payout: u64 = amount - fee;
    let fee_recipient = if fee > 0 && !fair_launch.terms.refund_fee_to.is_unset() {
        Some(fair_launch.terms.refund_fee_to)
    } else {
        None
    };
    proof {
        lemma_refund_keeps_wf(fair_launch@, user);
    }
    fair_launch.ledger.remove(user);
    fair_launch.total_value_raised = fair_launch.total_value_raised - amount;
    Ok(
        Refunded {
            event: RefundEvent { user, amount: payout, fee, timestamp: clock.unix_timestamp },
            fee_recipient,
        },
    )
}

/// Finalizes the campaign: closes it, once and for good, and works out what is
/// committed to the venue, what is burned and what is routed as fees.
///
/// The campaign is closed before anything else is worked out. On success the
/// caller invokes the instruction that `bootstrap_instruction` builds, once;
/// then moves `event.total_add` of value and `liquidity_asset_amount` of the
/// asset to the venue, burns `burn_amount`, and pays the two fees.
pub fn start_trading(fair_launch: &mut FairLaunch, clock: Clock) -> (r: Result<
    Finalization,
    FairLaunchError,
>)
    requires
        old(fair_launch).wf(),
    ensures
        final(fair_launch).wf(),
        match r {
            Ok(finalization) => {
                &&& old(fair_launch)@.start_rejection(clock) is None
                &&& final(fair_launch)@ == old(fair_launch)@.after_start()
                &&& finalization == old(fair_launch)@.finalization(clock)
            },
            Err(e) => {
                &&& old(fair_launch)@.start_rejection(clock) == Some(e)
                &&& final(fair_launch)@ == old(fair_launch)@
            },
        },
{
    if clock.slot < fair_launch.terms.deadline {
        return Err(FairLaunchError::DeadlineNotReached);
    }
    if fair_launch.is_finalized {
        return Err(FairLaunchError::AlreadyFinalized);
    }
    proof {
        lemma_start_keeps_wf(fair_launch@, clock);
        lemma_finalization_fits(fair_launch@);
    }
    fair_launch.is_finalized = true;

    let total: u64 = fair_launch.total_value_raised;
    let fee: u64 = share_of(total, LAUNCH_FEE_RATE, BASIS_POINTS);
    let net: u64 = total - fee;
    let liquidity_value: u64 = match fair_launch.terms.liquidity_ceiling {
        Some(ceiling) => if ceiling <= net {
            ceiling
        } else {
            net
        },
        None => net,
    };
    let reserved: u64 = fair_launch.terms.asset_reserved_for_liquidity;
    let burns: bool = match fair_launch.terms.liquidity_ceiling {
        Some(ceiling) => fair_launch.terms.burn_unsold && total < ceiling,
        None => false,
    };
    let liquidity_asset_amount: u64 = if total == 0 {
        0
    } else {
        match fair_launch.terms.liquidity_ceiling {
            Some(ceiling) => if burns {
                share_of(reserved, total, ceiling)
            } else {
                reserved
            },
            None => reserved,
        }
    };
    let burn_amount: u64 = if burns {
        reserved - liquidity_asset_amount
    } else {
        0
    };
    Ok(
        Finalization {
            event: TradingStartedEvent {
                total_sol: total,
                total_add: liquidity_value,
                fee,
                timestamp: clock.unix_timestamp,
            },
            liquidity_asset_amount,
            burn_amount,
            recipient_fee: share_of(total, REFUND_RECIPIENT_RATE, BASIS_POINTS),
            project_fee: share_of(total, PROJECT_OWNER_RATE, BASIS_POINTS),
            refund_fee_to: fair_launch.terms.refund_fee_to,
            project_owner: fair_launch.terms.project_owner,
            venue_params: RaydiumParams {
                nonce: fair_launch.terms.venue_bootstrap_params.nonce,
                open_time: fair_launch.terms.venue_bootstrap_params.open_time,
                init_pc_amount: liquidity_value,
                init_coin_amount: liquidity_asset_amount,
            },
        },
    )
}

/// Builds the instruction that bootstraps the venue with what `finalization`
/// commits: the configured nonce and open time, the committed value as the
/// initial value amount, and the committed asset units as the initial asset
/// amount. The caller invokes it once, before anything is moved to the venue.
pub fn bootstrap_instruction(finalization: &Finalization, accounts: &ProxyInitialize) -> (r:
    Instruction)
    ensures
        r.program_id == accounts.amm_id,
        r.accounts@ == accounts.account_metas(),
        r.data@ == instruction_data(
            finalization.venue_params.nonce,
            finalization.venue_params.open_time,
            finalization.event.total_add,
            finalization.liquidity_asset_amount,
        ),
{
    proxy_initialize(
        accounts,
        finalization.venue_params.nonce,
        finalization.venue_params.open_time,
        finalization.event.total_add,
        finalization.liquidity_asset_amount,
    )
}

/// Settles `user`'s asset entitlement, once.
///
/// On success the caller mints `amount` asset units to the participant.
pub fn mint_token(fair_launch: &mut FairLaunch, user: AccountId, clock: Clock) -> (r: Result<
    TokenMintedEvent,
    FairLaunchError,
>)
    requires
        old(fair_launch).wf(),
    ensures
        final(fair_launch).wf(),
        match r {
            Ok(event) => {
                &&& old(fair_launch)@.mint_rejection(user) is None
                &&& final(fair_launch)@ == old(fair_launch)@.after_mint(user)
                &&& event == old(fair_launch)@.mint_event(user, clock)
                &&& 0 < event.amount <= old(fair_launch)@.terms.asset_reserved_for_participants
            },
            Err(e) => {
                &&& old(fair_launch)@.mint_rejection(user) == Some(e)
                &&& final(fair_launch)@ == old(fair_launch)@
            },
        },
{
    if !fair_launch.is_finalized {
        return Err(FairLaunchError::NotFinalized);
    }
    if fair_launch.asset_claimed.contains(user) {
        return Err(FairLaunchError::AlreadyClaimed);
    }
    let contributed: u64 = match fair_launch.ledger.get(user) {
        Some(recorded) => recorded,
        None => 0,
    };
    if contributed == 0 {
        return Err(FairLaunchError::NoContribution);
    }
    let entitlement: u64 = share_of(
        fair_launch.terms.asset_reserved_for_participants,
        contributed,
        fair_launch.total_value_raised,
    );
    if entitlement == 0 {
        return Err(FairLaunchError::ZeroEntitlement);
    }
    proof {
        lemma_mint_keeps_wf(fair_launch@, user);
    }
    fair_launch.asset_claimed.insert(user);
    Ok(TokenMintedEvent { user, amount: entitlement, timestamp: clock.unix_timestamp })
}

/// Settles `user`'s part of the value raised above the ceiling, once.
///
/// On success the caller pays `amount` to the participant.
pub fn claim_extra_sol(fair_launch: &mut FairLaunch, user: AccountId, clock: Clock) -> (r: Result<
    ExtraSOLClaimedEvent,
    FairLaunchError,
>)
    requires
        old(fair_launch).wf(),
    ensures
        final(fair_launch).wf(),
        match r {
            Ok(event) => {
                &&& old(fair_launch)@.claim_rejection(user) is None
                &&& final(fair_launch)@ == old(fair_launch)@.after_claim(user)
                &&& event == old(fair_launch)@.claim_event(user, clock)
                &&& 0 < event.amount <= old(fair_launch)@.contributed(user)
            },
            Err(e) => {
                &&& old(fair_launch)@.claim_rejection(user) == Some(e)
                &&& final(fair_launch)@ == old(fair_launch)@
            },
        },
{
    if !fair_launch.is_finalized {
        return Err(FairLaunchError::NotFinalized);
    }
    if fair_launch.excess_claimed.contains(user) {
        return Err(FairLaunchError::AlreadyClaimed);
    }
    let total: u64 = fair_launch.total_value_raised;
    let surplus: u64 = match fair_launch.terms.liquidity_ceiling {
        Some(ceiling) => if total > ceiling {
            total - ceiling
        } else {
            0
        },
        None => 0,
    };
    if surplus == 0 {
        return Err(FairLaunchError::NoSurplus);
    }
    let contributed: u64 = match fair_launch.ledger.get(user) {
        Some(recorded) => recorded,
        None => {
            return Err(FairLaunchError::NoContribution);
        },
    };
    let amount: u64 = share_of(contributed, surplus, total);
    if amount == 0 {
        return Err(FairLaunchError::ZeroClaim);
    }
    proof {
        lemma_claim_keeps_wf(fair_launch@, user);
    }
    fair_launch.excess_claimed.insert(user);
    Ok(ExtraSOLClaimedEvent { user, amount, timestamp: clock.unix_timestamp })
}

} // verus!
