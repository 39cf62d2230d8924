//! The payment waterfall: a payment walks the debt buckets in priority
//! order, paying each down before the next.

use vstd::prelude::*;
use crate::clock::provider_now;
use crate::errors::FacilityError;
use crate::events::{Event, EventStore};
use crate::money::{Money, MUL_LIMIT};
use crate::payments::{context_total, context_wf, payment_rejected, PaymentContext,
    PaymentRequest};
use crate::types::{FacilityId, PaymentApplication};

verus! {

/// A slot in the waterfall order.
#[derive(Clone, Copy, Debug, PartialEq, Eq, Structural)]
pub enum WaterfallPriority {
    First,
    Second,
    Third,
    Fourth,
    Fifth,
    Sixth,
}

/// The numeric rank of a priority, one through six.
pub open spec fn rank_spec(p: WaterfallPriority) -> int {
    match p {
        WaterfallPriority::First => 1,
        WaterfallPriority::Second => 2,
        WaterfallPriority::Third => 3,
        WaterfallPriority::Fourth => 4,
        WaterfallPriority::Fifth => 5,
        WaterfallPriority::Sixth => 6,
    }
}

impl WaterfallPriority {
    /// The numeric rank, one through six.
    pub fn rank(&self) -> (r: u32)
        ensures
            r as int == rank_spec(*self),
    {
        match self {
            WaterfallPriority::First => 1,
            WaterfallPriority::Second => 2,
            WaterfallPriority::Third => 3,
            WaterfallPriority::Fourth => 4,
            WaterfallPriority::Fifth => 5,
            WaterfallPriority::Sixth => 6,
        }
    }
}

/// Which bucket takes which slot; buckets sharing a slot are taken in the
/// fixed order fees, penalties, interest, principal.
#[derive(Clone, Copy, Debug, PartialEq, Eq, Structural)]
pub struct PaymentWaterfall {
    pub fees_priority: WaterfallPriority,
    pub penalties_priority: WaterfallPriority,
    pub interest_priority: WaterfallPriority,
    pub principal_priority: WaterfallPriority,
    pub allow_overpayment: bool,
}

impl PaymentWaterfall {
    /// The standard order: fees, penalties, interest, principal.
    pub fn standard() -> (r: PaymentWaterfall)
        ensures
            r == (PaymentWaterfall {
                fees_priority: WaterfallPriority::First,
                penalties_priority: WaterfallPriority::Second,
                interest_priority: WaterfallPriority::Third,
                principal_priority: WaterfallPriority::Fourth,
                allow_overpayment: true,
            }),
    {
        PaymentWaterfall {
            fees_priority: WaterfallPriority::First,
            penalties_priority: WaterfallPriority::Second,
            interest_priority: WaterfallPriority::Third,
            principal_priority: WaterfallPriority::Fourth,
            allow_overpayment: true,
        }
    }

    /// Interest before fees and penalties.
    pub fn interest_first() -> (r: PaymentWaterfall)
        ensures
            r == (PaymentWaterfall {
                fees_priority: WaterfallPriority::Second,
                penalties_priority: WaterfallPriority::Third,
                interest_priority: WaterfallPriority::First,
                principal_priority: WaterfallPriority::Fourth,
                allow_overpayment: true,
            }),
    {
        PaymentWaterfall {
            fees_priority: WaterfallPriority::Second,
            penalties_priority: WaterfallPriority::Third,
            interest_priority: WaterfallPriority::First,
            principal_priority: WaterfallPriority::Fourth,
            allow_overpayment: true,
        }
    }

    /// The standard order with overpayment disallowed.
    pub fn principal_only() -> (r: PaymentWaterfall)
        ensures
            r == (PaymentWaterfall {
                fees_priority: WaterfallPriority::First,
                penalties_priority: WaterfallPriority::Second,
                interest_priority: WaterfallPriority::Third,
                principal_priority: WaterfallPriority::Fourth,
                allow_overpayment: false,
            }),
    {
        PaymentWaterfall {
            fees_priority: WaterfallPriority::First,
            penalties_priority: WaterfallPriority::Second,
            interest_priority: WaterfallPriority::Third,
            principal_priority: WaterfallPriority::Fourth,
            allow_overpayment: false,
        }
    }
}

/// The running state of a waterfall application: the four bucket balances,
/// the amount applied to each, and what is left of the payment.
pub ghost struct WfState {
    pub fees: int,
    pub penalties: int,
    pub interest: int,
    pub principal: int,
    pub to_fees: int,
    pub to_penalties: int,
    pub to_interest: int,
    pub to_principal: int,
    pub remaining: int,
}

/// The starting state for a payment of `amount` against a context.
pub open spec fn wf_init(c: PaymentContext, amount: int) -> WfState {
    WfState {
        fees: c.accrued_fees.atoms as int,
        penalties: c.accrued_penalties.atoms as int,
        interest: c.accrued_interest.atoms as int,
        principal: c.outstanding_principal.atoms as int,
        to_fees: 0,
        to_penalties: 0,
        to_interest: 0,
        to_principal: 0,
        remaining: amount,
    }
}

/// Pay the fees bucket from what is left.
pub open spec fn wf_apply_fees(st: WfState) -> WfState {
    let pay = vstd::math::min(st.remaining, st.fees);
    WfState { fees: st.fees - pay, to_fees: pay, remaining: st.remaining - pay, ..st }
}

/// Pay the penalties bucket from what is left.
pub open spec fn wf_apply_penalties(st: WfState) -> WfState {
    let pay = vstd::math::min(st.remaining, st.penalties);
    WfState {
        penalties: st.penalties - pay,
        to_penalties: pay,
        remaining: st.remaining - pay,
        ..st
    }
}

/// Pay the interest bucket from what is left.
pub open spec fn wf_apply_interest(st: WfState) -> WfState {
    let pay = vstd::math::min(st.remaining, st.interest);
    WfState {
        interest: st.interest - pay,
        to_interest: pay,
        remaining: st.remaining - pay,
        ..st
    }
}

/// Pay the principal bucket from what is left.
pub open spec fn wf_apply_principal(st: WfState) -> WfState {
    let pay = vstd::math::min(st.remaining, st.principal);
    WfState {
        principal: st.principal - pay,
        to_principal: pay,
        remaining: st.remaining - pay,
        ..st
    }
}

/// Apply every bucket whose priority has the given rank, in the fixed
/// bucket order.
pub open spec fn wf_apply_rank(w: PaymentWaterfall, st: WfState, rank: int) -> WfState {
    let st1 = if rank_spec(w.fees_priority) == rank {
        wf_apply_fees(st)
    } else {
        st
    };
    let st2 = if rank_spec(w.penalties_priority) == rank {
        wf_apply_penalties(st1)
    } else {
        st1
    };
    let st3 = if rank_spec(w.interest_priority) == rank {
        wf_apply_interest(st2)
    } else {
        st2
    };
    if rank_spec(w.principal_priority) == rank {
        wf_apply_principal(st3)
    } else {
        st3
    }
}

/// The state after every rank below `r` has been applied.
pub open spec fn wf_upto(w: PaymentWaterfall, st0: WfState, r: int) -> WfState
    decreases r,
{
    if r <= 1 {
        st0
    } else {
        wf_apply_rank(w, wf_upto(w, st0, r - 1), r - 1)
    }
}

/// The waterfall's outcome for a payment of `amount` against a context.
pub open spec fn wf_run(w: PaymentWaterfall, c: PaymentContext, amount: int) -> WfState {
    wf_upto(w, wf_init(c, amount), 7)
}

/// Starting from non-negative buckets and payment, everything stays
/// non-negative along the rank walk.
pub proof fn lemma_wf_upto_nonneg(w: PaymentWaterfall, st0: WfState, r: int)
    requires
        st0.remaining >= 0,
        st0.fees >= 0,
        st0.penalties >= 0,
        st0.interest >= 0,
        st0.principal >= 0,
        st0.to_fees >= 0,
        st0.to_penalties >= 0,
        st0.to_interest >= 0,
        st0.to_principal >= 0,
    ensures
        ({
            let st = wf_upto(w, st0, r);
            &&& st.remaining >= 0
            &&& st.fees >= 0
            &&& st.penalties >= 0
            &&& st.interest >= 0
            &&& st.principal >= 0
            &&& st.to_fees >= 0
            &&& st.to_penalties >= 0
            &&& st.to_interest >= 0
            &&& st.to_principal >= 0
        }),
    decreases r,
{
    if r > 1 {
        lemma_wf_upto_nonneg(w, st0, r - 1);
    }
}

/// What a processed payment did.
#[derive(Clone, Debug, PartialEq)]
pub struct PaymentResult {
    pub payment_id: FacilityId,
    pub amount_applied: Money,
    pub application: PaymentApplication,
    pub remaining_balance: Money,
    pub payment_date: i64,
}

/// The engine that walks a payment through a waterfall.
pub struct PaymentProcessor {
    pub waterfall: PaymentWaterfall,
}

impl PaymentProcessor {
    /// A processor over the given waterfall.
    pub fn new(waterfall: PaymentWaterfall) -> (r: PaymentProcessor)
        ensures
            r.waterfall == waterfall,
    {
        PaymentProcessor { waterfall }
    }

    /// Apply one payment: validate it, walk the buckets in priority order,
    /// and record anything left as excess (handed back to the caller as a
    /// refund where the waterfall disallows overpayment). A payment marked
    /// principal-only is refused while any other bucket is positive. On
    /// rejection the context is untouched and no event is emitted.
    pub fn process(&self, payment: PaymentRequest, context: &mut PaymentContext,
        time_provider: &hourglass_rs::SafeTimeProvider, events: &mut EventStore)
        -> (r: Result<PaymentResult, FacilityError>)
        requires
            context_wf(*old(context)),
            -MUL_LIMIT <= payment.amount.atoms <= MUL_LIMIT,
        ensures
            r is Err <==> payment_rejected(*old(context), payment.amount.atoms as int)
                || (payment.is_principal_only && (old(context).accrued_fees.atoms > 0
                || old(context).accrued_penalties.atoms > 0
                || old(context).accrued_interest.atoms > 0)),
            r is Err ==> *final(context) == *old(context) && final(events).events@
                == old(events).events@,
            r matches Ok(result) ==> {
                let st = wf_run(self.waterfall, *old(context), payment.amount.atoms as int);
                &&& final(context).accrued_fees.atoms == st.fees
                &&& final(context).accrued_penalties.atoms == st.penalties
                &&& final(context).accrued_interest.atoms == st.interest
                &&& final(context).outstanding_principal.atoms == st.principal
                &&& final(context).facility_id == old(context).facility_id
                &&& final(context).minimum_payment == old(context).minimum_payment
                &&& final(context).payment_due_date == old(context).payment_due_date
                &&& final(context).days_overdue == old(context).days_overdue
                &&& result.application.to_fees.atoms == st.to_fees
                &&& result.application.to_penalties.atoms == st.to_penalties
                &&& result.application.to_interest.atoms == st.to_interest
                &&& result.application.to_principal.atoms == st.to_principal
                &&& result.application.excess.atoms == st.remaining
                &&& result.amount_applied.atoms == st.to_fees + st.to_penalties
                    + st.to_interest + st.to_principal
                &&& result.remaining_balance.atoms == context_total(*final(context))
                &&& result.payment_id == payment.facility_id
                &&& result.payment_date == payment.payment_date
                &&& final(events).events@ == old(events).events@.push(
                    final(events).events@.last())
                &&& (final(events).events@.last() matches Event::PaymentReceived {
                    facility_id: f,
                    amount: a,
                    applied_to_fees: tf,
                    applied_to_interest: ti,
                    applied_to_principal: tp,
                    timestamp: _,
                } && f == payment.facility_id && a == payment.amount && tf.atoms == st.to_fees
                    && ti.atoms == st.to_interest && tp.atoms == st.to_principal)
            },
    {
        if let Err(e) = context.validate_payment(payment.amount) {
            return Err(e);
        }
        if payment.is_principal_only && (context.accrued_fees.atoms > 0
            || context.accrued_penalties.atoms > 0 || context.accrued_interest.atoms > 0) {
            return Err(FacilityError::OperationNotSupported);
        }
        let ghost st0 = wf_init(*context, payment.amount.atoms as int);
        let mut fees = context.accrued_fees;
        let mut penalties = context.accrued_penalties;
        let mut interest = context.accrued_interest;
        let mut principal = context.outstanding_principal;
        let mut to_fees = Money::zero();
        let mut to_penalties = Money::zero();
        let mut to_interest = Money::zero();
        let mut to_principal = Money::zero();
        let mut remaining = payment.amount;
        let mut rank: u32 = 1;
        while rank <= 6
            invariant
                1 <= rank <= 7,
                st0 == wf_init(*old(context), payment.amount.atoms as int),
                context_wf(*old(context)),
                0 < payment.amount.atoms <= MUL_LIMIT,
                ({
                    let st = wf_upto(self.waterfall, st0, rank as int);
                    &&& fees.atoms == st.fees
                    &&& penalties.atoms == st.penalties
                    &&& interest.atoms == st.interest
                    &&& principal.atoms == st.principal
                    &&& to_fees.atoms == st.to_fees
                    &&& to_penalties.atoms == st.to_penalties
                    &&& to_interest.atoms == st.to_interest
                    &&& to_principal.atoms == st.to_principal
                    &&& remaining.atoms == st.remaining
                }),
                -MUL_LIMIT <= fees.atoms <= MUL_LIMIT,
                -MUL_LIMIT <= penalties.atoms <= MUL_LIMIT,
                -MUL_LIMIT <= interest.atoms <= MUL_LIMIT,
                -MUL_LIMIT <= principal.atoms <= MUL_LIMIT,
                0 <= remaining.atoms <= MUL_LIMIT + (rank as i128 - 1) * 4 * MUL_LIMIT,
                -30 * MUL_LIMIT <= to_fees.atoms <= 30 * MUL_LIMIT,
                -30 * MUL_LIMIT <= to_penalties.atoms <= 30 * MUL_LIMIT,
                -30 * MUL_LIMIT <= to_interest.atoms <= 30 * MUL_LIMIT,
                -30 * MUL_LIMIT <= to_principal.atoms <= 30 * MUL_LIMIT,
            decreases 7 - rank,
        {
            proof {
                lemma_wf_upto_ranges(self.waterfall, st0, rank as int + 1);
            }
            if self.waterfall.fees_priority.rank() == rank {
                let pay = remaining.min_of(fees);
                fees = fees.sub(pay);
                to_fees = pay;
                remaining = remaining.sub(pay);
            }
            if self.waterfall.penalties_priority.rank() == rank {
                let pay = remaining.min_of(penalties);
                penalties = penalties.sub(pay);
                to_penalties = pay;
                remaining = remaining.sub(pay);
            }
            if self.waterfall.interest_priority.rank() == rank {
                let pay = remaining.min_of(interest);
                interest = interest.sub(pay);
                to_interest = pay;
                remaining = remaining.sub(pay);
            }
            if self.waterfall.principal_priority.rank() == rank {
                let pay = remaining.min_of(principal);
                principal = principal.sub(pay);
                to_principal = pay;
                remaining = remaining.sub(pay);
            }
            rank = rank + 1;
        }
        context.accrued_fees = fees;
        context.accrued_penalties = penalties;
        context.accrued_interest = interest;
        context.outstanding_principal = principal;
        let application = PaymentApplication {
            to_fees,
            to_penalties,
            to_interest,
            to_principal,
            excess: remaining,
        };
        let now = provider_now(time_provider);
        events.emit(Event::PaymentReceived {
            facility_id: payment.facility_id,
            amount: payment.amount,
            applied_to_fees: to_fees,
            applied_to_interest: to_interest,
            applied_to_principal: to_principal,
            timestamp: now,
        });
        let amount_applied = to_fees.add(to_penalties).add(to_interest).add(to_principal);
        let remaining_balance = context.total_outstanding();
        Ok(PaymentResult {
            payment_id: payment.facility_id,
            amount_applied,
            application,
            remaining_balance,
            payment_date: payment.payment_date,
        })
    }
}

/// The waterfall conserves the payment: what went to the buckets plus the
/// excess is exactly the amount paid, and no bucket receives more than it
/// held.
pub proof fn lemma_waterfall_conserves(w: PaymentWaterfall, c: PaymentContext, amount: int)
    ensures
        ({
            let st = wf_run(w, c, amount);
            &&& st.to_fees + st.to_penalties + st.to_interest + st.to_principal + st.remaining
                == amount
            &&& st.fees + st.to_fees == c.accrued_fees.atoms
            &&& st.penalties + st.to_penalties == c.accrued_penalties.atoms
            &&& st.interest + st.to_interest == c.accrued_interest.atoms
            &&& st.principal + st.to_principal == c.outstanding_principal.atoms
        }),
{
    lemma_wf_upto_conserves(w, wf_init(c, amount), 7);
}

/// Each prefix of the rank walk conserves the running totals; a bucket
/// whose slot has not come up yet is untouched.
proof fn lemma_wf_upto_conserves(w: PaymentWaterfall, st0: WfState, r: int)
    requires
        st0.to_fees == 0,
        st0.to_penalties == 0,
        st0.to_interest == 0,
        st0.to_principal == 0,
    ensures
        ({
            let st = wf_upto(w, st0, r);
            &&& st.to_fees + st.to_penalties + st.to_interest + st.to_principal + st.remaining
                == st0.remaining
            &&& st.fees + st.to_fees == st0.fees
            &&& st.penalties + st.to_penalties == st0.penalties
            &&& st.interest + st.to_interest == st0.interest
            &&& st.principal + st.to_principal == st0.principal
            &&& rank_spec(w.fees_priority) >= r ==> st.to_fees == 0 && st.fees == st0.fees
            &&& rank_spec(w.penalties_priority) >= r ==> st.to_penalties == 0 && st.penalties
                == st0.penalties
            &&& rank_spec(w.interest_priority) >= r ==> st.to_interest == 0 && st.interest
                == st0.interest
            &&& rank_spec(w.principal_priority) >= r ==> st.to_principal == 0 && st.principal
                == st0.principal
        }),
    decreases r,
{
    if r > 1 {
        lemma_wf_upto_conserves(w, st0, r - 1);
    }
}

/// Bounds along the rank walk: buckets never grow in magnitude, and what
/// is left of the payment stays non-negative and bounded.
proof fn lemma_wf_upto_ranges(w: PaymentWaterfall, st0: WfState, r: int)
    requires
        1 <= r <= 7,
        0 <= st0.remaining <= MUL_LIMIT,
        -MUL_LIMIT <= st0.fees <= MUL_LIMIT,
        -MUL_LIMIT <= st0.penalties <= MUL_LIMIT,
        -MUL_LIMIT <= st0.interest <= MUL_LIMIT,
        -MUL_LIMIT <= st0.principal <= MUL_LIMIT,
        st0.to_fees == 0,
        st0.to_penalties == 0,
        st0.to_interest == 0,
        st0.to_principal == 0,
    ensures
        ({
            let st = wf_upto(w, st0, r);
            &&& 0 <= st.remaining <= MUL_LIMIT + (r - 1) * 4 * MUL_LIMIT
            &&& -MUL_LIMIT <= st.fees <= MUL_LIMIT
            &&& -MUL_LIMIT <= st.penalties <= MUL_LIMIT
            &&& -MUL_LIMIT <= st.interest <= MUL_LIMIT
            &&& -MUL_LIMIT <= st.principal <= MUL_LIMIT
            &&& -30 * MUL_LIMIT <= st.to_fees <= 30 * MUL_LIMIT
            &&& -30 * MUL_LIMIT <= st.to_penalties <= 30 * MUL_LIMIT
            &&& -30 * MUL_LIMIT <= st.to_interest <= 30 * MUL_LIMIT
            &&& -30 * MUL_LIMIT <= st.to_principal <= 30 * MUL_LIMIT
        }),
    decreases r,
{
    if r > 1 {
        lemma_wf_upto_ranges(w, st0, r - 1);
    }
}

/// A payment that covers the whole debt clears every bucket: under the
/// standard order each bucket is paid in full and the excess is what is
/// left of the payment.
pub proof fn lemma_waterfall_full_payment(w: PaymentWaterfall, c: PaymentContext, amount: int)
    requires
        rank_spec(w.fees_priority) == 1,
        rank_spec(w.penalties_priority) == 2,
        rank_spec(w.interest_priority) == 3,
        rank_spec(w.principal_priority) == 4,
        c.accrued_fees.atoms >= 0,
        c.accrued_penalties.atoms >= 0,
        c.accrued_interest.atoms >= 0,
        c.outstanding_principal.atoms >= 0,
        amount >= c.accrued_fees.atoms + c.accrued_penalties.atoms + c.accrued_interest.atoms
            + c.outstanding_principal.atoms,
    ensures
        ({
            let st = wf_run(w, c, amount);
            &&& st.fees == 0
            &&& st.penalties == 0
            &&& st.interest == 0
            &&& st.principal == 0
            &&& st.to_fees == c.accrued_fees.atoms
            &&& st.to_penalties == c.accrued_penalties.atoms
            &&& st.to_interest == c.accrued_interest.atoms
            &&& st.to_principal == c.outstanding_principal.atoms
            &&& st.remaining == amount - (c.accrued_fees.atoms + c.accrued_penalties.atoms
                + c.accrued_interest.atoms + c.outstanding_principal.atoms)
        }),
{
    reveal_with_fuel(wf_upto, 8);
}

/// A zero payment against non-negative buckets applies nothing and leaves
/// every bucket as it stood.
pub proof fn lemma_waterfall_zero_payment(w: PaymentWaterfall, c: PaymentContext)
    requires
        c.accrued_fees.atoms >= 0,
        c.accrued_penalties.atoms >= 0,
        c.accrued_interest.atoms >= 0,
        c.outstanding_principal.atoms >= 0,
    ensures
        ({
            let st = wf_run(w, c, 0);
            &&& st.fees == c.accrued_fees.atoms
            &&& st.penalties == c.accrued_penalties.atoms
            &&& st.interest == c.accrued_interest.atoms
            &&& st.principal == c.outstanding_principal.atoms
            &&& st.to_fees == 0
            &&& st.to_penalties == 0
            &&& st.to_interest == 0
            &&& st.to_principal == 0
            &&& st.remaining == 0
        }),
{
    lemma_wf_upto_zero(w, wf_init(c, 0), 7);
}

proof fn lemma_wf_upto_zero(w: PaymentWaterfall, st0: WfState, r: int)
    requires
        st0.remaining == 0,
        st0.fees >= 0,
        st0.penalties >= 0,
        st0.interest >= 0,
        st0.principal >= 0,
        st0.to_fees == 0,
        st0.to_penalties == 0,
        st0.to_interest == 0,
        st0.to_principal == 0,
    ensures
        ({
            let st = wf_upto(w, st0, r);
            &&& st.fees == st0.fees
            &&& st.penalties == st0.penalties
            &&& st.interest == st0.interest
            &&& st.principal == st0.principal
            &&& st.to_fees == 0
            &&& st.to_penalties == 0
            &&& st.to_interest == 0
            &&& st.to_principal == 0
            &&& st.remaining == 0
        }),
    decreases r,
{
    if r > 1 {
        lemma_wf_upto_zero(w, st0, r - 1);
    }
}

/// The kinds of balance a card carries, in their repayment order.
#[derive(Clone, Copy, Debug, PartialEq, Eq, Structural)]
pub enum CardBalanceType {
    CashAdvance,
    Purchase,
    BalanceTransfer,
    Promotional,
    Other,
}

/// The repayment rank of a card balance kind: cash advances first, then
/// purchases, balance transfers and promotional balances; anything else
/// last.
pub open spec fn card_rank_spec(t: CardBalanceType) -> int {
    match t {
        CardBalanceType::CashAdvance => 1,
        CardBalanceType::Purchase => 2,
        CardBalanceType::BalanceTransfer => 3,
        CardBalanceType::Promotional => 4,
        CardBalanceType::Other => 6,
    }
}

/// The balances of a card, each under its kind.
pub type CreditCardBalances = Vec<(CardBalanceType, Money)>;

/// A card waterfall: balances are repaid by kind, cash advances first.
pub struct CreditCardWaterfall {
    pub base_waterfall: PaymentWaterfall,
}

impl CreditCardWaterfall {
    /// A card waterfall over the standard bucket order.
    pub fn new() -> (r: CreditCardWaterfall)
        ensures
            r.base_waterfall == (PaymentWaterfall {
                fees_priority: WaterfallPriority::First,
                penalties_priority: WaterfallPriority::Second,
                interest_priority: WaterfallPriority::Third,
                principal_priority: WaterfallPriority::Fourth,
                allow_overpayment: true,
            }),
    {
        CreditCardWaterfall { base_waterfall: PaymentWaterfall::standard() }
    }

    /// The repayment rank of a balance kind.
    pub fn card_rank(&self, t: CardBalanceType) -> (r: u32)
        ensures
            r as int == card_rank_spec(t),
    {
        match t {
            CardBalanceType::CashAdvance => 1,
            CardBalanceType::Purchase => 2,
            CardBalanceType::BalanceTransfer => 3,
            CardBalanceType::Promotional => 4,
            CardBalanceType::Other => 6,
        }
    }

    /// Pay the card's balances down in kind order: each balance takes at
    /// most what it holds, every sum paid lands in the principal tally,
    /// and whatever is left of the payment is the excess. The payment is
    /// conserved: the principal tally plus the excess is the payment.
    pub fn process_by_balance_type(&self, payment: Money, balances: &mut CreditCardBalances)
        -> (r: PaymentApplication)
        requires
            0 <= payment.atoms <= MUL_LIMIT,
            old(balances)@.len() <= 100,
            forall|i: int| 0 <= i < old(balances)@.len() ==> 0
                <= (#[trigger] old(balances)@[i]).1.atoms <= MUL_LIMIT,
        ensures
            r.to_principal.atoms + r.excess.atoms == payment.atoms,
            0 <= r.excess.atoms <= payment.atoms,
            final(balances)@.len() == old(balances)@.len(),
            forall|i: int| 0 <= i < final(balances)@.len() ==> 0
                <= (#[trigger] final(balances)@[i]).1.atoms
                <= old(balances)@[i].1.atoms
                && final(balances)@[i].0 == old(balances)@[i].0,
            r.to_fees.atoms == 0,
            r.to_penalties.atoms == 0,
            r.to_interest.atoms == 0,
    {
        let mut remaining: i128 = payment.atoms;
        let mut applied: i128 = 0;
        let mut rank: u32 = 1;
        while rank <= 6
            invariant
                1 <= rank <= 7,
                0 <= remaining,
                remaining + applied == payment.atoms,
                0 <= applied,
                balances@.len() == old(balances)@.len(),
                forall|i: int| 0 <= i < balances@.len() ==> 0
                    <= (#[trigger] balances@[i]).1.atoms <= old(balances)@[i].1.atoms
                    && balances@[i].0 == old(balances)@[i].0,
            decreases 7 - rank,
        {
            let mut i: usize = 0;
            while i < balances.len()
                invariant
                    0 <= i <= balances@.len(),
                    0 <= remaining,
                    remaining + applied == payment.atoms,
                    0 <= applied,
                    balances@.len() == old(balances)@.len(),
                    forall|j: int| 0 <= j < balances@.len() ==> 0
                        <= (#[trigger] balances@[j]).1.atoms <= old(balances)@[j].1.atoms
                        && balances@[j].0 == old(balances)@[j].0,
                decreases balances@.len() - i,
            {
                let entry = balances[i];
                if self.card_rank(entry.0) == rank {
                    let pay = if remaining <= entry.1.atoms {
                        remaining
                    } else {
                        entry.1.atoms
                    };
                    let lowered = (entry.0, Money { atoms: entry.1.atoms - pay });
                    balances.set(i, lowered);
                    remaining = remaining - pay;
                    applied = applied + pay;
                }
                i = i + 1;
            }
            rank = rank + 1;
        }
        PaymentApplication {
            to_fees: Money::zero(),
            to_penalties: Money::zero(),
            to_interest: Money::zero(),
            to_principal: Money { atoms: applied },
            excess: Money { atoms: remaining },
        }
    }
}

/// A mortgage waterfall: an escrow shortage first, then fees, interest
/// and principal, with an optional escrow deposit out of the rest.
pub struct MortgageWaterfall {
    pub base_waterfall: PaymentWaterfall,
    pub include_escrow: bool,
}

impl MortgageWaterfall {
    /// A mortgage waterfall, with or without an escrow deposit.
    pub fn new(include_escrow: bool) -> (r: MortgageWaterfall)
        ensures
            r.base_waterfall == (PaymentWaterfall {
                fees_priority: WaterfallPriority::First,
                penalties_priority: WaterfallPriority::Second,
                interest_priority: WaterfallPriority::Third,
                principal_priority: WaterfallPriority::Fourth,
                allow_overpayment: true,
            }),
            r.include_escrow == include_escrow,
    {
        MortgageWaterfall { base_waterfall: PaymentWaterfall::standard(), include_escrow }
    }

    /// Apply a mortgage payment: any escrow shortage comes first and is
    /// tracked outside the tally, then fees, interest and principal in
    /// order; with escrow enabled a full escrow deposit comes out of the
    /// rest where it fits, and what remains is the excess.
    pub fn process_with_escrow(&self, payment: Money, context: &mut PaymentContext,
        escrow_shortage: Money, escrow_payment: Money) -> (r: PaymentApplication)
        requires
            context_wf(*old(context)),
            0 <= payment.atoms <= MUL_LIMIT,
            0 <= escrow_shortage.atoms <= MUL_LIMIT,
            0 <= escrow_payment.atoms <= MUL_LIMIT,
        ensures
            ({
                let after_escrow = payment.atoms - vstd::math::min(payment.atoms as int,
                    escrow_shortage.atoms as int);
                let to_fees = vstd::math::min(after_escrow,
                    old(context).accrued_fees.atoms as int);
                let after_fees = after_escrow - to_fees;
                let to_interest = vstd::math::min(after_fees,
                    old(context).accrued_interest.atoms as int);
                let after_interest = after_fees - to_interest;
                let to_principal = vstd::math::min(after_interest,
                    old(context).outstanding_principal.atoms as int);
                let after_principal = after_interest - to_principal;
                let leftover = if self.include_escrow && after_principal
                    >= escrow_payment.atoms {
                    after_principal - escrow_payment.atoms
                } else {
                    after_principal
                };
                &&& r.to_fees.atoms == to_fees
                &&& r.to_interest.atoms == to_interest
                &&& r.to_principal.atoms == to_principal
                &&& r.to_penalties.atoms == 0
                &&& r.excess.atoms == leftover
                &&& final(context).accrued_fees.atoms == old(context).accrued_fees.atoms
                    - to_fees
                &&& final(context).accrued_interest.atoms
                    == old(context).accrued_interest.atoms - to_interest
                &&& final(context).outstanding_principal.atoms
                    == old(context).outstanding_principal.atoms - to_principal
                &&& final(context).accrued_penalties == old(context).accrued_penalties
            }),
    {
        let mut remaining: i128 = payment.atoms;
        if escrow_shortage.atoms > 0 {
            let escrow_portion = if remaining <= escrow_shortage.atoms {
                remaining
            } else {
                escrow_shortage.atoms
            };
            remaining = remaining - escrow_portion;
        }
        let fees_payment = if remaining <= context.accrued_fees.atoms {
            remaining
        } else {
            context.accrued_fees.atoms
        };
        context.accrued_fees = Money { atoms: context.accrued_fees.atoms - fees_payment };
        remaining = remaining - fees_payment;
        let interest_payment = if remaining <= context.accrued_interest.atoms {
            remaining
        } else {
            context.accrued_interest.atoms
        };
        context.accrued_interest = Money {
            atoms: context.accrued_interest.atoms - interest_payment,
        };
        remaining = remaining - interest_payment;
        let principal_payment = if remaining <= context.outstanding_principal.atoms {
            remaining
        } else {
            context.outstanding_principal.atoms
        };
        context.outstanding_principal = Money {
            atoms: context.outstanding_principal.atoms - principal_payment,
        };
        remaining = remaining - principal_payment;
        if self.include_escrow && remaining >= escrow_payment.atoms {
            remaining = remaining - escrow_payment.atoms;
        }
        PaymentApplication {
            to_fees: Money { atoms: fees_payment },
            to_penalties: Money::zero(),
            to_interest: Money { atoms: interest_payment },
            to_principal: Money { atoms: principal_payment },
            excess: Money { atoms: remaining },
        }
    }
}

} // verus!
