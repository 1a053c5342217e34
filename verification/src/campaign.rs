//! The campaign as a mathematical value: what each operation accepts, what it
//! rejects and with which error, and the state it leaves.

use crate::account::AccountId;
use crate::account::Clock;
use crate::fair_launch::ExtraSOLClaimedEvent;
use crate::fair_launch::FairLaunchError;
use crate::fair_launch::FairLaunchParams;
use crate::fair_launch::Finalization;
use crate::fair_launch::FundEvent;
use crate::fair_launch::RaydiumParams;
use crate::fair_launch::RefundEvent;
use crate::fair_launch::Refunded;
use crate::fair_launch::TokenMintedEvent;
use crate::fair_launch::TradingStartedEvent;
use crate::ledger::amount_of;
use crate::ledger::as_map;
use crate::ledger::credited;
use crate::ledger::distinct;
use crate::ledger::holds;
use crate::ledger::lemma_credited;
use crate::ledger::lemma_total_bounds;
use crate::ledger::lemma_total_nonnegative;
use crate::ledger::lemma_without;
use crate::ledger::place_of;
use crate::ledger::total_of;
use crate::ledger::without;
use crate::ledger::Entry;
use crate::units::lemma_share_bounds;
use crate::units::share;
use crate::units::BASIS_POINTS;
use crate::units::LAUNCH_FEE_RATE;
use crate::units::PROJECT_OWNER_RATE;
use crate::units::REFUND_RECIPIENT_RATE;
use vstd::prelude::*;

verus! {

/// What a campaign is configured with; nothing here changes after
/// initialization.
#[derive(Clone, Copy, Debug)]
pub struct Terms {
    /// The controlling identity.
    pub authority: AccountId,
    /// Who receives refund fees and the recipient's share at finalization;
    /// the all-zero address where none is configured.
    pub refund_fee_to: AccountId,
    /// Who receives the project's share at finalization.
    pub project_owner: AccountId,
    pub asset_total_supply: u64,
    pub asset_reserved_for_participants: u64,
    pub asset_reserved_for_liquidity: u64,
    /// The first slot at which contributions are closed and finalization is
    /// open.
    pub deadline: u64,
    /// The most value that is committed to the venue, where there is a limit.
    pub liquidity_ceiling: Option<u64>,
    /// The most that one participant may have contributed, where there is a
    /// limit.
    pub per_participant_cap: Option<u64>,
    pub minimum_contribution: u64,
    /// Fee on refunds, in basis points.
    pub refund_fee_rate: u16,
    /// Whether an undersubscribed campaign burns the unsold part of the
    /// liquidity reservation.
    pub burn_unsold: bool,
    /// The venue's nonce and open time, forwarded at finalization. The
    /// initial amounts recorded here are not what the venue gets: it is
    /// bootstrapped with the committed amounts.
    pub venue_bootstrap_params: RaydiumParams,
}

impl Terms {
    /// The two reservations make up the supply, and the refund fee is at most
    /// the whole.
    pub open spec fn valid(self) -> bool {
        &&& self.asset_reserved_for_participants + self.asset_reserved_for_liquidity
            == self.asset_total_supply
        &&& self.refund_fee_rate <= BASIS_POINTS
    }

    /// Whether the terms are valid.
    pub fn is_valid(&self) -> (r: bool)
        ensures
            r == self.valid(),
    {
        self.asset_reserved_for_participants <= self.asset_total_supply
            && self.asset_total_supply - self.asset_reserved_for_participants
            == self.asset_reserved_for_liquidity && self.refund_fee_rate as u64 <= BASIS_POINTS
    }
}

/// Whether `params`, read at `clock`, can open a campaign: the refund fee is at
/// most the whole and the deadline is a representable slot.
pub open spec fn acceptable(params: FairLaunchParams, clock: Clock) -> bool {
    &&& params.refund_fee_rate <= BASIS_POINTS
    &&& clock.slot + params.after_slot <= u64::MAX
}

/// The terms that `params` stand for: the supply is split in two halves, the
/// odd unit going to the participants, and the deadline is `after_slot` slots
/// from now.
pub open spec fn terms_of(
    authority: AccountId,
    refund_fee_to: AccountId,
    project_owner: AccountId,
    params: FairLaunchParams,
    clock: Clock,
) -> Terms {
    Terms {
        authority,
        refund_fee_to,
        project_owner,
        asset_total_supply: params.total_supply,
        asset_reserved_for_participants: (params.total_supply - params.total_supply / 2) as u64,
        asset_reserved_for_liquidity: params.total_supply / 2,
        deadline: (clock.slot + params.after_slot) as u64,
        liquidity_ceiling: params.liquidity_ceiling,
        per_participant_cap: params.per_participant_cap,
        minimum_contribution: params.minimum_contribution,
        refund_fee_rate: params.refund_fee_rate,
        burn_unsold: params.burn_unsold,
        venue_bootstrap_params: params.raydium_params,
    }
}

/// The fundraising state of one launch.
pub struct Campaign {
    pub terms: Terms,
    pub name: Seq<char>,
    pub symbol: Seq<char>,
    pub meta: Seq<char>,
    pub total_value_raised: u64,
    pub is_finalized: bool,
    /// The contribution ledger.
    pub entries: Seq<Entry>,
    /// Participants whose asset entitlement has been settled.
    pub asset_claimed: Set<AccountId>,
    /// Participants whose share of the surplus has been settled.
    pub excess_claimed: Set<AccountId>,
}

impl Campaign {
    /// A campaign as it is opened: nothing raised, nobody recorded, nothing
    /// settled.
    pub open spec fn opening(
        authority: AccountId,
        refund_fee_to: AccountId,
        project_owner: AccountId,
        params: FairLaunchParams,
        clock: Clock,
    ) -> Campaign {
        Campaign {
            terms: terms_of(authority, refund_fee_to, project_owner, params, clock),
            name: params.name@,
            symbol: params.symbol@,
            meta: params.meta@,
            total_value_raised: 0,
            is_finalized: false,
            entries: Seq::empty(),
            asset_claimed: Set::empty(),
            excess_claimed: Set::empty(),
        }
    }

    /// Every recorded contribution is within the per-participant cap.
    pub open spec fn within_cap(self) -> bool {
        self.terms.per_participant_cap matches Some(cap) ==> forall|i: int|
            0 <= i < self.entries.len() ==> (#[trigger] self.entries[i]).amount <= cap
    }

    /// The invariants of a campaign: valid terms, one entry per participant,
    /// the raised value equal to the sum of the entries, every entry within the
    /// cap, and no settlement before finalization.
    pub open spec fn wf(self) -> bool {
        &&& self.terms.valid()
        &&& distinct(self.entries)
        &&& self.total_value_raised == total_of(self.entries)
        &&& self.within_cap()
        &&& !self.is_finalized ==> self.asset_claimed == Set::<AccountId>::empty()
            && self.excess_claimed == Set::<AccountId>::empty()
    }

    /// The contribution ledger as a map from participant to cumulative
    /// contribution.
    pub open spec fn ledger(self) -> Map<AccountId, u64> {
        as_map(self.entries)
    }

    /// What `who` has contributed, 0 where there is no entry.
    pub open spec fn contributed(self, who: AccountId) -> int {
        amount_of(self.entries, who)
    }

    /// Whether `who` has an entry.
    pub open spec fn has_entry(self, who: AccountId) -> bool {
        holds(self.entries, who)
    }

    // ---- contributions ----

    /// Why a contribution is rejected, `None` where it is accepted.
    pub open spec fn fund_rejection(self, user: AccountId, amount: u64, clock: Clock) -> Option<
        FairLaunchError,
    > {
        if self.is_finalized {
            Some(FairLaunchError::AlreadyFinalized)
        } else if clock.slot >= self.terms.deadline {
            Some(FairLaunchError::WindowClosed)
        } else if amount < self.terms.minimum_contribution {
            Some(FairLaunchError::BelowMinimum)
        } else if self.terms.per_participant_cap matches Some(cap) && self.contributed(user)
            + amount > cap {
            Some(FairLaunchError::CapExceeded)
        } else if self.total_value_raised + amount > u64::MAX {
            Some(FairLaunchError::AmountOverflow)
        } else {
            None
        }
    }

    /// The campaign after `user` has contributed `amount`.
    pub open spec fn after_fund(self, user: AccountId, amount: u64) -> Campaign {
        Campaign {
            entries: credited(self.entries, user, amount),
            total_value_raised: (self.total_value_raised + amount) as u64,
            ..self
        }
    }

    /// The record of an accepted contribution.
    pub open spec fn fund_event(user: AccountId, amount: u64, clock: Clock) -> FundEvent {
        FundEvent { user, amount, timestamp: clock.unix_timestamp }
    }

    // ---- refunds ----

    /// Why a refund is rejected, `None` where it is accepted.
    pub open spec fn refund_rejection(self, user: AccountId) -> Option<FairLaunchError> {
        if self.is_finalized {
            Some(FairLaunchError::AlreadyFinalized)
        } else if !self.has_entry(user) {
            Some(FairLaunchError::NoContribution)
        } else {
            None
        }
    }

    /// The fee on `user`'s refund: the refund fee rate, in basis points of the
    /// whole contribution, rounded down.
    pub open spec fn refund_fee(self, user: AccountId) -> int {
        share(self.contributed(user), self.terms.refund_fee_rate as int, BASIS_POINTS as int)
    }

    /// What `user` is paid back: the contribution less the fee.
    pub open spec fn refund_payout(self, user: AccountId) -> int {
        self.contributed(user) - self.refund_fee(user)
    }

    /// Whether the refund fee is paid on to the recipient: only a fee above
    /// zero, and only where a recipient is configured.
    pub open spec fn refund_fee_routed(self, user: AccountId) -> bool {
        self.refund_fee(user) > 0 && self.terms.refund_fee_to != AccountId::spec_unset()
    }

    /// The campaign after `user` has been refunded in full.
    pub open spec fn after_refund(self, user: AccountId) -> Campaign {
        Campaign {
            entries: without(self.entries, user),
            total_value_raised: (self.total_value_raised - self.contributed(user)) as u64,
            ..self
        }
    }

    /// The record of an accepted refund and where its fee goes.
    pub open spec fn refund_outcome(self, user: AccountId, clock: Clock) -> Refunded {
        Refunded {
            event: RefundEvent {
                user,
                amount: self.refund_payout(user) as u64,
                fee: self.refund_fee(user) as u64,
                timestamp: clock.unix_timestamp,
            },
            fee_recipient: if self.refund_fee_routed(user) {
                Some(self.terms.refund_fee_to)
            } else {
                None
            },
        }
    }

    // ---- finalization ----

    /// Why finalization is rejected, `None` where it is accepted.
    pub open spec fn start_rejection(self, clock: Clock) -> Option<FairLaunchError> {
        if clock.slot < self.terms.deadline {
            Some(FairLaunchError::DeadlineNotReached)
        } else if self.is_finalized {
            Some(FairLaunchError::AlreadyFinalized)
        } else {
            None
        }
    }

    /// The protocol fee: the launch fee rate, in basis points of the raised
    /// value, rounded down.
    pub open spec fn protocol_fee(self) -> int {
        share(self.total_value_raised as int, LAUNCH_FEE_RATE as int, BASIS_POINTS as int)
    }

    /// The raised value less the protocol fee.
    pub open spec fn net_value(self) -> int {
        self.total_value_raised - self.protocol_fee()
    }

    /// The value committed to the venue: the net value, held to the ceiling
    /// where one is configured.
    pub open spec fn liquidity_value(self) -> int {
        match self.terms.liquidity_ceiling {
            Some(ceiling) => if ceiling <= self.net_value() {
                ceiling as int
            } else {
                self.net_value()
            },
            None => self.net_value(),
        }
    }

    /// Whether the unsold part of the liquidity reservation is burned: the
    /// campaign burns unsold inventory and raised less than its ceiling.
    pub open spec fn burns_unsold(self) -> bool {
        self.terms.burn_unsold && (self.terms.liquidity_ceiling matches Some(ceiling)
            && self.total_value_raised < ceiling)
    }

    /// The asset units committed to the venue: nothing where nothing was
    /// raised; else the liquidity reservation, or, where unsold inventory is
    /// burned, the part of it in proportion of the raised value to the
    /// ceiling, rounded down.
    pub open spec fn liquidity_asset_amount(self) -> int {
        if self.total_value_raised == 0 {
            0
        } else if self.burns_unsold() {
            share(
                self.terms.asset_reserved_for_liquidity as int,
                self.total_value_raised as int,
                self.terms.liquidity_ceiling->0 as int,
            )
        } else {
            self.terms.asset_reserved_for_liquidity as int
        }
    }

    /// The asset units burned at finalization: where unsold inventory is
    /// burned, the rest of the liquidity reservation; nothing otherwise.
    pub open spec fn burn_amount(self) -> int {
        if self.burns_unsold() {
            self.terms.asset_reserved_for_liquidity - self.liquidity_asset_amount()
        } else {
            0
        }
    }

    /// What the venue is bootstrapped with: the configured nonce and open
    /// time, the committed value as the initial value amount, and the
    /// committed asset units as the initial asset amount.
    pub open spec fn bootstrap_params(self) -> RaydiumParams {
        RaydiumParams {
            nonce: self.terms.venue_bootstrap_params.nonce,
            open_time: self.terms.venue_bootstrap_params.open_time,
            init_pc_amount: self.liquidity_value() as u64,
            init_coin_amount: self.liquidity_asset_amount() as u64,
        }
    }

    /// The share of the raised value routed to the refund-fee recipient.
    pub open spec fn recipient_fee(self) -> int {
        share(self.total_value_raised as int, REFUND_RECIPIENT_RATE as int, BASIS_POINTS as int)
    }

    /// The share of the raised value routed to the project owner.
    pub open spec fn project_fee(self) -> int {
        share(self.total_value_raised as int, PROJECT_OWNER_RATE as int, BASIS_POINTS as int)
    }

    /// The campaign after finalization: closed, and otherwise as it was.
    pub open spec fn after_start(self) -> Campaign {
        Campaign { is_finalized: true, ..self }
    }

    /// Everything that finalization commits and routes.
    pub open spec fn finalization(self, clock: Clock) -> Finalization {
        Finalization {
            event: TradingStartedEvent {
                total_sol: self.total_value_raised,
                total_add: self.liquidity_value() as u64,
                fee: self.protocol_fee() as u64,
                timestamp: clock.unix_timestamp,
            },
            liquidity_asset_amount: self.liquidity_asset_amount() as u64,
            burn_amount: self.burn_amount() as u64,
            recipient_fee: self.recipient_fee() as u64,
            project_fee: self.project_fee() as u64,
            refund_fee_to: self.terms.refund_fee_to,
            project_owner: self.terms.project_owner,
            venue_params: self.bootstrap_params(),
        }
    }

    // ---- settlement of the asset ----

    /// `who`'s asset entitlement: the participants' reservation in proportion
    /// of the contribution to the raised value, rounded down.
    pub open spec fn entitlement(self, who: AccountId) -> int {
        share(
            self.terms.asset_reserved_for_participants as int,
            self.contributed(who),
            self.total_value_raised as int,
        )
    }

    /// Why an asset claim is rejected, `None` where it is accepted.
    pub open spec fn mint_rejection(self, user: AccountId) -> Option<FairLaunchError> {
        if !self.is_finalized {
            Some(FairLaunchError::NotFinalized)
        } else if self.asset_claimed.contains(user) {
            Some(FairLaunchError::AlreadyClaimed)
        } else if self.contributed(user) == 0 {
            Some(FairLaunchError::NoContribution)
        } else if self.entitlement(user) == 0 {
            Some(FairLaunchError::ZeroEntitlement)
        } else {
            None
        }
    }

    /// The campaign after `user`'s asset claim has been settled.
    pub open spec fn after_mint(self, user: AccountId) -> Campaign {
        Campaign { asset_claimed: self.asset_claimed.insert(user), ..self }
    }

    /// The record of a settled asset claim.
    pub open spec fn mint_event(self, user: AccountId, clock: Clock) -> TokenMintedEvent {
        TokenMintedEvent {
            user,
            amount: self.entitlement(user) as u64,
            timestamp: clock.unix_timestamp,
        }
    }

    // ---- settlement of the surplus ----

    /// The value raised above the liquidity ceiling, 0 where there is no
    /// ceiling or it was not passed.
    pub open spec fn surplus(self) -> int {
        match self.terms.liquidity_ceiling {
            Some(ceiling) => if self.total_value_raised > ceiling {
                self.total_value_raised - ceiling
            } else {
                0
            },
            None => 0,
        }
    }

    /// `who`'s part of the surplus: the contribution times the surplus over
    /// the raised value, rounded down.
    pub open spec fn excess_refund(self, who: AccountId) -> int {
        share(self.contributed(who), self.surplus(), self.total_value_raised as int)
    }

    /// Why a claim on the surplus is rejected, `None` where it is accepted.
    pub open spec fn claim_rejection(self, user: AccountId) -> Option<FairLaunchError> {
        if !self.is_finalized {
            Some(FairLaunchError::NotFinalized)
        } else if self.excess_claimed.contains(user) {
            Some(FairLaunchError::AlreadyClaimed)
        } else if self.surplus() == 0 {
            Some(FairLaunchError::NoSurplus)
        } else if !self.has_entry(user) {
            Some(FairLaunchError::NoContribution)
        } else if self.excess_refund(user) == 0 {
            Some(FairLaunchError::ZeroClaim)
        } else {
            None
        }
    }

    /// The campaign after `user`'s claim on the surplus has been settled.
    pub open spec fn after_claim(self, user: AccountId) -> Campaign {
        Campaign { excess_claimed: self.excess_claimed.insert(user), ..self }
    }

    /// The record of a settled claim on the surplus.
    pub open spec fn claim_event(self, user: AccountId, clock: Clock) -> ExtraSOLClaimedEvent {
        ExtraSOLClaimedEvent {
            user,
            amount: self.excess_refund(user) as u64,
            timestamp: clock.unix_timestamp,
        }
    }
}

/// An accepted contribution keeps the invariants: the raised value is still
/// the sum of the entries and nobody is above the cap.
pub proof fn lemma_fund_keeps_wf(c: Campaign, user: AccountId, amount: u64, clock: Clock)
    requires
        c.wf(),
        c.fund_rejection(user, amount, clock) is None,
    ensures
        c.after_fund(user, amount).wf(),
        c.after_fund(user, amount).ledger() == c.ledger().insert(
            user,
            (c.contributed(user) + amount) as u64,
        ),
        c.after_fund(user, amount).contributed(user) == c.contributed(user) + amount,
        c.after_fund(user, amount).total_value_raised == c.total_value_raised + amount,
{
    lemma_credited(c.entries, user, amount);
    let after = c.after_fund(user, amount);
    if c.terms.per_participant_cap is Some {
        let cap = c.terms.per_participant_cap->0;
        assert forall|i: int| 0 <= i < after.entries.len() implies (#[trigger] after.entries[i]).amount
            <= cap by {
            if holds(c.entries, user) {
                let p = place_of(c.entries, user);
                if i != p {
                    assert(after.entries[i] == c.entries[i]);
                }
            } else {
                if i < c.entries.len() {
                    assert(after.entries[i] == c.entries[i]);
                }
            }
        }
    }
}

/// An accepted refund keeps the invariants.
pub proof fn lemma_refund_keeps_wf(c: Campaign, user: AccountId)
    requires
        c.wf(),
        c.refund_rejection(user) is None,
    ensures
        c.after_refund(user).wf(),
        c.after_refund(user).ledger() == c.ledger().remove(user),
        c.after_refund(user).contributed(user) == 0,
        c.after_refund(user).total_value_raised == c.total_value_raised - c.contributed(user),
        0 <= c.refund_fee(user) <= c.contributed(user) <= c.total_value_raised,
{
    lemma_without(c.entries, user);
    let p = place_of(c.entries, user);
    lemma_total_bounds(c.entries, p);
    lemma_share_bounds(
        c.contributed(user),
        c.terms.refund_fee_rate as int,
        BASIS_POINTS as int,
    );
    let after = c.after_refund(user);
    if c.terms.per_participant_cap is Some {
        let cap = c.terms.per_participant_cap->0;
        assert forall|i: int| 0 <= i < after.entries.len() implies (#[trigger] after.entries[i]).amount
            <= cap by {
            let i0 = if i < p { i } else { i + 1 };
            assert(after.entries[i] == c.entries[i0]);
        }
    }
}

/// An accepted finalization keeps the invariants.
pub proof fn lemma_start_keeps_wf(c: Campaign, clock: Clock)
    requires
        c.wf(),
        c.start_rejection(clock) is None,
    ensures
        c.after_start().wf(),
        c.after_start().is_finalized,
{
}

/// Everything that finalization works out is within what was raised and
/// reserved: the protocol fee and the committed value together are at most the
/// raised value, the two routed fees are at most the protocol fee, and what is
/// committed and what is burned are within the liquidity reservation; they
/// make it up wherever something was raised or unsold inventory is burned.
pub proof fn lemma_finalization_fits(c: Campaign)
    requires
        c.wf(),
    ensures
        0 <= c.protocol_fee() <= c.total_value_raised,
        0 <= c.liquidity_value() <= c.net_value(),
        c.liquidity_value() + c.protocol_fee() <= c.total_value_raised,
        0 <= c.recipient_fee(),
        0 <= c.project_fee(),
        c.recipient_fee() + c.project_fee() <= c.protocol_fee(),
        0 <= c.liquidity_asset_amount() <= c.terms.asset_reserved_for_liquidity,
        0 <= c.burn_amount() <= c.terms.asset_reserved_for_liquidity,
        c.liquidity_asset_amount() + c.burn_amount() <= c.terms.asset_reserved_for_liquidity,
        c.total_value_raised > 0 || c.burns_unsold() ==> c.liquidity_asset_amount()
            + c.burn_amount() == c.terms.asset_reserved_for_liquidity,
{
    let total = c.total_value_raised as int;
    lemma_share_bounds(total, LAUNCH_FEE_RATE as int, BASIS_POINTS as int);
    lemma_share_bounds(total, REFUND_RECIPIENT_RATE as int, BASIS_POINTS as int);
    lemma_share_bounds(total, PROJECT_OWNER_RATE as int, BASIS_POINTS as int);
    assert(c.recipient_fee() + c.project_fee() <= c.protocol_fee()) by {
        let a = total * 10;
        let b = total * 20;
        assert(total * 30 == a + b);
        assert(a / 10000 + b / 10000 <= (a + b) / 10000) by (nonlinear_arith)
            requires
                0 <= a,
                0 <= b,
        ;
    }
    if c.burns_unsold() {
        lemma_share_bounds(
            c.terms.asset_reserved_for_liquidity as int,
            total,
            c.terms.liquidity_ceiling->0 as int,
        );
    }
}

/// Where nothing was raised, every amount that finalization works out is
/// zero: no value and no asset is committed, no fee is routed, and there is no
/// surplus. Only a campaign that burns unsold inventory burns something: the
/// whole liquidity reservation.
pub proof fn lemma_nothing_raised(c: Campaign)
    requires
        c.wf(),
        c.total_value_raised == 0,
    ensures
        c.protocol_fee() == 0,
        c.net_value() == 0,
        c.liquidity_value() == 0,
        c.liquidity_asset_amount() == 0,
        c.recipient_fee() == 0,
        c.project_fee() == 0,
        c.surplus() == 0,
        c.bootstrap_params().init_pc_amount == 0,
        c.bootstrap_params().init_coin_amount == 0,
        c.burn_amount() == (if c.burns_unsold() {
            c.terms.asset_reserved_for_liquidity as int
        } else {
            0
        }),
{
    lemma_finalization_fits(c);
}

/// A settled asset claim keeps the invariants, and the entitlement is at most
/// the participants' reservation.
pub proof fn lemma_mint_keeps_wf(c: Campaign, user: AccountId)
    requires
        c.wf(),
        c.mint_rejection(user) is None,
    ensures
        c.after_mint(user).wf(),
        0 < c.entitlement(user) <= c.terms.asset_reserved_for_participants,
{
    lemma_contribution_bounds(c, user);
    lemma_share_bounds(
        c.terms.asset_reserved_for_participants as int,
        c.contributed(user),
        c.total_value_raised as int,
    );
}

/// A settled claim on the surplus keeps the invariants, and the part paid is at
/// most the contribution.
pub proof fn lemma_claim_keeps_wf(c: Campaign, user: AccountId)
    requires
        c.wf(),
        c.claim_rejection(user) is None,
    ensures
        c.after_claim(user).wf(),
        0 < c.excess_refund(user) <= c.contributed(user),
        0 < c.surplus() <= c.total_value_raised,
{
    lemma_contribution_bounds(c, user);
    lemma_share_bounds(
        c.contributed(user),
        c.surplus(),
        c.total_value_raised as int,
    );
}

/// No contribution is negative or above the raised value, nor above the cap
/// where one is configured.
pub proof fn lemma_contribution_bounds(c: Campaign, who: AccountId)
    requires
        c.wf(),
    ensures
        0 <= c.contributed(who) <= c.total_value_raised,
        c.terms.per_participant_cap matches Some(cap) ==> c.contributed(who) <= cap,
{
    if holds(c.entries, who) {
        let p = place_of(c.entries, who);
        lemma_total_bounds(c.entries, p);
    } else {
        lemma_total_nonnegative(c.entries);
    }
}

} // verus!
