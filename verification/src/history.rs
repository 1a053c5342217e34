//! What holds of a campaign whatever is asked of it, in whatever order.
//!
//! A history is a sequence of requests. Each request is either accepted, and
//! changes the campaign as its operation says, or rejected, and changes
//! nothing. The statements here are about every history.

use crate::account::AccountId;
use crate::account::Clock;
use crate::campaign::lemma_claim_keeps_wf;
use crate::campaign::lemma_contribution_bounds;
use crate::campaign::lemma_fund_keeps_wf;
use crate::campaign::lemma_mint_keeps_wf;
use crate::campaign::lemma_refund_keeps_wf;
use crate::campaign::Campaign;
use crate::fair_launch::claim_extra_sol;
use crate::fair_launch::fund;
use crate::fair_launch::mint_token;
use crate::fair_launch::refund;
use crate::fair_launch::start_trading;
use crate::fair_launch::ExtraSOLClaimedEvent;
use crate::fair_launch::FairLaunch;
use crate::fair_launch::FairLaunchError;
use crate::fair_launch::Finalization;
use crate::fair_launch::FundEvent;
use crate::fair_launch::Refunded;
use crate::fair_launch::TokenMintedEvent;
use crate::ledger::lemma_place;
use crate::ledger::lemma_shares_bounded;
use crate::ledger::shares_of;
use crate::ledger::total_of;
use crate::units::lemma_share_of_whole;
use vstd::prelude::*;

verus! {

/// One request to a campaign, with the clock reading it is made at.
#[derive(Clone, Copy, Debug)]
pub enum Request {
    Fund { user: AccountId, amount: u64, clock: Clock },
    Refund { user: AccountId, clock: Clock },
    StartTrading { clock: Clock },
    MintToken { user: AccountId, clock: Clock },
    ClaimExtraSol { user: AccountId, clock: Clock },
}

/// What an accepted request hands back: what the caller is to move, and the
/// record of it.
#[derive(Clone, Copy, Debug)]
pub enum Outcome {
    Funded(FundEvent),
    Refunded(Refunded),
    Finalized(Finalization),
    Minted(TokenMintedEvent),
    Claimed(ExtraSOLClaimedEvent),
}

impl Request {
    /// Whether the request is a contribution or a refund.
    pub open spec fn is_intake(self) -> bool {
        self is Fund || self is Refund
    }
}

impl Campaign {
    /// Why `request` is rejected, `None` where it is accepted.
    pub open spec fn rejection(self, request: Request) -> Option<FairLaunchError> {
        match request {
            Request::Fund { user, amount, clock } => self.fund_rejection(user, amount, clock),
            Request::Refund { user, clock } => self.refund_rejection(user),
            Request::StartTrading { clock } => self.start_rejection(clock),
            Request::MintToken { user, clock } => self.mint_rejection(user),
            Request::ClaimExtraSol { user, clock } => self.claim_rejection(user),
        }
    }

    /// The campaign after `request`: changed as the operation says where the
    /// request is accepted, unchanged where it is rejected.
    pub open spec fn step(self, request: Request) -> Campaign {
        if self.rejection(request) is Some {
            self
        } else {
            match request {
                Request::Fund { user, amount, clock } => self.after_fund(user, amount),
                Request::Refund { user, clock } => self.after_refund(user),
                Request::StartTrading { clock } => self.after_start(),
                Request::MintToken { user, clock } => self.after_mint(user),
                Request::ClaimExtraSol { user, clock } => self.after_claim(user),
            }
        }
    }

    /// The campaign after every request of `history`, in order.
    pub open spec fn run(self, history: Seq<Request>) -> Campaign
        decreases history.len(),
    {
        if history.len() == 0 {
            self
        } else {
            self.run(history.drop_last()).step(history.last())
        }
    }

    /// The value that `request` moves into custody, less the value that it
    /// moves out; 0 where the request is rejected.
    pub open spec fn custody_change(self, request: Request) -> int {
        if self.rejection(request) is Some {
            0
        } else {
            match request {
                Request::Fund { user, amount, clock } => amount as int,
                Request::Refund { user, clock } => -self.refund_payout(user) - (
                if self.refund_fee_routed(user) {
                    self.refund_fee(user)
                } else {
                    0
                }),
                Request::StartTrading { clock } => -self.liquidity_value() - self.recipient_fee()
                    - self.project_fee(),
                Request::MintToken { user, clock } => 0,
                Request::ClaimExtraSol { user, clock } => -self.excess_refund(user),
            }
        }
    }

    /// The refund fee that `request` leaves in custody because no recipient is
    /// configured; 0 for every other request.
    pub open spec fn fee_retained(self, request: Request) -> int {
        match request {
            Request::Refund { user, clock } => if self.rejection(request) is None
                && !self.refund_fee_routed(user) {
                self.refund_fee(user)
            } else {
                0
            },
            _ => 0,
        }
    }

    /// The net value moved into custody over a whole history.
    pub open spec fn custody_flow(self, history: Seq<Request>) -> int
        decreases history.len(),
    {
        if history.len() == 0 {
            0
        } else {
            self.custody_flow(history.drop_last()) + self.run(
                history.drop_last(),
            ).custody_change(history.last())
        }
    }

    /// The refund fees left in custody over a whole history.
    pub open spec fn fees_retained(self, history: Seq<Request>) -> int
        decreases history.len(),
    {
        if history.len() == 0 {
            0
        } else {
            self.fees_retained(history.drop_last()) + self.run(history.drop_last()).fee_retained(
                history.last(),
            )
        }
    }

    /// The sum of the asset entitlements of the first `n` participants of the
    /// ledger.
    pub open spec fn entitlements(self, n: nat) -> int
        decreases n,
    {
        if n == 0 {
            0
        } else {
            self.entitlements((n - 1) as nat) + self.entitlement(self.entries[n - 1].who)
        }
    }

    /// The sum of the parts of the surplus of the first `n` participants of the
    /// ledger.
    pub open spec fn excess_refunds(self, n: nat) -> int
        decreases n,
    {
        if n == 0 {
            0
        } else {
            self.excess_refunds((n - 1) as nat) + self.excess_refund(self.entries[n - 1].who)
        }
    }
}

impl Campaign {
    /// What an accepted `request` hands back.
    pub open spec fn outcome(self, request: Request) -> Outcome {
        match request {
            Request::Fund { user, amount, clock } => Outcome::Funded(
                Campaign::fund_event(user, amount, clock),
            ),
            Request::Refund { user, clock } => Outcome::Refunded(self.refund_outcome(user, clock)),
            Request::StartTrading { clock } => Outcome::Finalized(self.finalization(clock)),
            Request::MintToken { user, clock } => Outcome::Minted(self.mint_event(user, clock)),
            Request::ClaimExtraSol { user, clock } => Outcome::Claimed(
                self.claim_event(user, clock),
            ),
        }
    }
}

/// Serves one request: the campaign takes one step, and the caller is handed
/// the outcome or the reason for the rejection.
pub fn apply(fair_launch: &mut FairLaunch, request: Request) -> (r: Result<Outcome, FairLaunchError>)
    requires
        old(fair_launch).wf(),
    ensures
        final(fair_launch).wf(),
        final(fair_launch)@ == old(fair_launch)@.step(request),
        match r {
            Ok(outcome) => old(fair_launch)@.rejection(request) is None && outcome == old(
                fair_launch,
            )@.outcome(request),
            Err(e) => old(fair_launch)@.rejection(request) == Some(e) && final(fair_launch)@
                == old(fair_launch)@,
        },
{
    match request {
        Request::Fund { user, amount, clock } => match fund(fair_launch, user, amount, clock) {
            Ok(event) => Ok(Outcome::Funded(event)),
            Err(e) => Err(e),
        },
        Request::Refund { user, clock } => match refund(fair_launch, user, clock) {
            Ok(refunded) => Ok(Outcome::Refunded(refunded)),
            Err(e) => Err(e),
        },
        Request::StartTrading { clock } => match start_trading(fair_launch, clock) {
            Ok(finalization) => Ok(Outcome::Finalized(finalization)),
            Err(e) => Err(e),
        },
        Request::MintToken { user, clock } => match mint_token(fair_launch, user, clock) {
            Ok(event) => Ok(Outcome::Minted(event)),
            Err(e) => Err(e),
        },
        Request::ClaimExtraSol { user, clock } => match claim_extra_sol(fair_launch, user, clock) {
            Ok(event) => Ok(Outcome::Claimed(event)),
            Err(e) => Err(e),
        },
    }
}

/// One request, accepted or not, keeps the invariants, never reopens a closed
/// campaign, never changes the terms, and never takes a settlement back.
pub proof fn lemma_step(c: Campaign, request: Request)
    requires
        c.wf(),
    ensures
        c.step(request).wf(),
        c.step(request).terms == c.terms,
        c.is_finalized ==> c.step(request).is_finalized,
        c.asset_claimed.subset_of(c.step(request).asset_claimed),
        c.excess_claimed.subset_of(c.step(request).excess_claimed),
        c.is_finalized ==> c.step(request).entries == c.entries && c.step(
            request,
        ).total_value_raised == c.total_value_raised,
{
    if c.rejection(request) is None {
        match request {
            Request::Fund { user, amount, clock } => {
                lemma_fund_keeps_wf(c, user, amount, clock);
            },
            Request::Refund { user, clock } => {
                lemma_refund_keeps_wf(c, user);
            },
            Request::StartTrading { clock } => {},
            Request::MintToken { user, clock } => {
                lemma_mint_keeps_wf(c, user);
            },
            Request::ClaimExtraSol { user, clock } => {
                lemma_claim_keeps_wf(c, user);
            },
        }
    }
}

/// The same, of a whole history: the invariants hold after it, and with them
/// the raised value is the sum of the live ledger entries.
pub proof fn lemma_run(c: Campaign, history: Seq<Request>)
    requires
        c.wf(),
    ensures
        c.run(history).wf(),
        c.run(history).total_value_raised == total_of(c.run(history).entries),
        c.run(history).terms == c.terms,
        c.is_finalized ==> c.run(history).is_finalized,
        c.asset_claimed.subset_of(c.run(history).asset_claimed),
        c.excess_claimed.subset_of(c.run(history).excess_claimed),
        c.is_finalized ==> c.run(history).entries == c.entries && c.run(
            history,
        ).total_value_raised == c.total_value_raised,
    decreases history.len(),
{
    if history.len() > 0 {
        lemma_run(c, history.drop_last());
        lemma_step(c.run(history.drop_last()), history.last());
    }
}

/// Conservation of value. Over any history of contributions and refunds, the
/// value that custody has gained is the growth of the raised value plus the
/// refund fees that were kept for want of a recipient.
pub proof fn lemma_custody_conserved(c: Campaign, history: Seq<Request>)
    requires
        c.wf(),
        forall|i: int| 0 <= i < history.len() ==> (#[trigger] history[i]).is_intake(),
    ensures
        c.custody_flow(history) == c.run(history).total_value_raised - c.total_value_raised
            + c.fees_retained(history),
        c.fees_retained(history) >= 0,
    decreases history.len(),
{
    if history.len() > 0 {
        let earlier = history.drop_last();
        let last = history.last();
        assert(last == history[history.len() - 1]);
        assert forall|i: int| 0 <= i < earlier.len() implies (#[trigger] earlier[i]).is_intake() by {
            assert(earlier[i] == history[i]);
        }
        lemma_custody_conserved(c, earlier);
        lemma_run(c, earlier);
        let before = c.run(earlier);
        if before.rejection(last) is None {
            match last {
                Request::Fund { user, amount, clock } => {
                    lemma_fund_keeps_wf(before, user, amount, clock);
                },
                Request::Refund { user, clock } => {
                    lemma_refund_keeps_wf(before, user);
                },
                _ => {},
            }
        }
    }
}

/// Single finalization. Once finalization has been accepted, it is rejected
/// ever after, whatever was asked in between and whatever the clock says, and
/// the rejected request changes nothing.
pub proof fn lemma_single_finalization(
    c: Campaign,
    first: Clock,
    between: Seq<Request>,
    second: Clock,
)
    requires
        c.wf(),
        c.start_rejection(first) is None,
    ensures
        ({
            let later = c.after_start().run(between);
            &&& later.is_finalized
            &&& later.start_rejection(second) is Some
            &&& later.start_rejection(second) == Some(FairLaunchError::AlreadyFinalized)
                || later.start_rejection(second) == Some(FairLaunchError::DeadlineNotReached)
            &&& later.step(Request::StartTrading { clock: second }) == later
        }),
{
    lemma_run(c.after_start(), between);
}

/// No double settlement of the asset. Once a participant's asset claim has
/// been accepted, every later claim of that participant is rejected with
/// `AlreadyClaimed` and changes nothing.
pub proof fn lemma_asset_settled_once(
    c: Campaign,
    user: AccountId,
    between: Seq<Request>,
    clock: Clock,
)
    requires
        c.wf(),
        c.mint_rejection(user) is None,
    ensures
        ({
            let later = c.after_mint(user).run(between);
            &&& later.mint_rejection(user) == Some(FairLaunchError::AlreadyClaimed)
            &&& later.step(Request::MintToken { user, clock }) == later
        }),
{
    lemma_mint_keeps_wf(c, user);
    lemma_run(c.after_mint(user), between);
    assert(c.after_mint(user).asset_claimed.contains(user));
}

/// No double settlement of the surplus. Once a participant's claim on the
/// surplus has been accepted, every later claim of that participant is
/// rejected with `AlreadyClaimed` and changes nothing.
pub proof fn lemma_surplus_settled_once(
    c: Campaign,
    user: AccountId,
    between: Seq<Request>,
    clock: Clock,
)
    requires
        c.wf(),
        c.claim_rejection(user) is None,
    ensures
        ({
            let later = c.after_claim(user).run(between);
            &&& later.claim_rejection(user) == Some(FairLaunchError::AlreadyClaimed)
            &&& later.step(Request::ClaimExtraSol { user, clock }) == later
        }),
{
    lemma_claim_keeps_wf(c, user);
    lemma_run(c.after_claim(user), between);
    assert(c.after_claim(user).excess_claimed.contains(user));
}

/// Pro-rata correctness. The asset entitlements of all participants together
/// are at most the participants' reservation, and their parts of the surplus
/// together are at most the surplus: what rounding leaves over is never handed
/// out.
pub proof fn lemma_pro_rata(c: Campaign)
    requires
        c.wf(),
    ensures
        0 <= c.entitlements(c.entries.len()) <= c.terms.asset_reserved_for_participants,
        0 <= c.excess_refunds(c.entries.len()) <= c.surplus(),
{
    let total = c.total_value_raised as int;
    let reserved = c.terms.asset_reserved_for_participants as int;
    lemma_entitlements_are_shares(c, c.entries.len());
    assert(c.entries.take(c.entries.len() as int) =~= c.entries);
    lemma_shares_bounded(c.entries, reserved, total);
    lemma_shares_bounded(c.entries, c.surplus(), total);
    if total > 0 {
        lemma_share_of_whole(total, reserved);
        lemma_share_of_whole(total, c.surplus());
    }
}

/// Each participant's entitlement and part of the surplus is the rounded-down
/// share of that participant's entry.
proof fn lemma_entitlements_are_shares(c: Campaign, n: nat)
    requires
        c.wf(),
        n <= c.entries.len(),
    ensures
        c.entitlements(n) == shares_of(
            c.entries.take(n as int),
            c.terms.asset_reserved_for_participants as int,
            c.total_value_raised as int,
        ),
        c.excess_refunds(n) == shares_of(
            c.entries.take(n as int),
            c.surplus(),
            c.total_value_raised as int,
        ),
    decreases n,
{
    let total = c.total_value_raised as int;
    let reserved = c.terms.asset_reserved_for_participants as int;
    let prefix = c.entries.take(n as int);
    if n > 0 {
        lemma_entitlements_are_shares(c, (n - 1) as nat);
        assert(prefix.drop_last() =~= c.entries.take(n - 1));
        assert(prefix.last() == c.entries[n - 1]);
        lemma_place(c.entries, n - 1);
        let amount = c.entries[n - 1].amount as int;
        assert(c.contributed(c.entries[n - 1].who) == amount);
        assert(reserved * amount == amount * reserved) by (nonlinear_arith);
    }
}

/// Cap enforcement. Where a cap is configured, no participant's cumulative
/// contribution is above it after any history, and a contribution that would
/// pass it is rejected and changes nothing.
pub proof fn lemma_cap_enforced(c: Campaign, history: Seq<Request>, who: AccountId)
    requires
        c.wf(),
        c.terms.per_participant_cap is Some,
    ensures
        c.run(history).contributed(who) <= c.terms.per_participant_cap->0,
        forall|amount: u64, clock: Clock|
            c.run(history).contributed(who) + amount > c.terms.per_participant_cap->0 ==> (
            #[trigger] c.run(history).step(Request::Fund { user: who, amount, clock }))
                == c.run(history),
{
    lemma_run(c, history);
    lemma_contribution_bounds(c.run(history), who);
}

} // verus!
