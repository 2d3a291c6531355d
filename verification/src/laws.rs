//! What holds of the operations taken together.

use crate::address::{
    plan_address, plan_id_bytes, plan_tag, subscription_address, subscription_tag, Address,
};
use crate::errors::{EngineError, SubscriptionError};
use crate::instructions::{
    plan_creation, plan_record_checks, subscription_creation, Cancel, CheckAccess, ClosePlan,
    CreatePlan, CreateSubscription, DeactivatePlan, Renew,
};
use crate::records::{Account, Payment, Plan, Reclaim, Subscription, SubscriptionStatus, Transfer};
use vstd::prelude::*;

verus! {

/// The seeds from which a plan's address is derived name the merchant and the
/// plan id: two plans have the same seeds only if they are the same merchant's
/// and have the same id.
pub proof fn lemma_seeds_name_the_plan(merchant: Address, plan_id: u16, other_merchant: Address, other_id: u16)
    ensures
        seq![plan_tag(), merchant@, plan_id_bytes(plan_id)] == seq![
            plan_tag(),
            other_merchant@,
            plan_id_bytes(other_id),
        ] <==> merchant == other_merchant && plan_id == other_id,
{
    let seeds = seq![plan_tag(), merchant@, plan_id_bytes(plan_id)];
    let others = seq![plan_tag(), other_merchant@, plan_id_bytes(other_id)];
    if seeds == others {
        assert(seeds[1] == others[1]);
        assert(seeds[2] == others[2]);
        Address::lemma_same_bytes(merchant, other_merchant);
        assert(plan_id_bytes(plan_id)[0] == plan_id_bytes(other_id)[0]);
        assert(plan_id_bytes(plan_id)[1] == plan_id_bytes(other_id)[1]);
    }
}

/// The seeds from which a subscription's address is derived name the
/// subscriber and the plan, and they are never the seeds of a plan.
pub proof fn lemma_seeds_name_the_subscription(
    subscriber: Address,
    plan: Address,
    other_subscriber: Address,
    other_plan: Address,
    merchant: Address,
    plan_id: u16,
)
    ensures
        seq![subscription_tag(), subscriber@, plan@] == seq![subscription_tag(), other_subscriber@, other_plan@]
            <==> subscriber == other_subscriber && plan == other_plan,
        seq![subscription_tag(), subscriber@, plan@] != seq![plan_tag(), merchant@, plan_id_bytes(plan_id)],
{
    let seeds = seq![subscription_tag(), subscriber@, plan@];
    let others = seq![subscription_tag(), other_subscriber@, other_plan@];
    if seeds == others {
        assert(seeds[1] == others[1]);
        assert(seeds[2] == others[2]);
        Address::lemma_same_bytes(subscriber, other_subscriber);
        Address::lemma_same_bytes(plan, other_plan);
    }
    let of_plan = seq![plan_tag(), merchant@, plan_id_bytes(plan_id)];
    assert(seeds[0].len() == 12);
    assert(of_plan[0].len() == 4);
}

/// A plan that was just created takes a subscription exactly where the
/// subscription is offered at its own address, the merchant to be paid is the
/// plan's, and one interval after the clock reading is a time that a timestamp
/// can hold; where only the last fails, the refusal is `Overflow`. The
/// subscription is paid up to exactly one interval after it started, it
/// started at the clock reading, and the transfer that comes with it moves the
/// plan's price from the subscriber to the merchant.
pub proof fn lemma_first_period_is_one_interval(
    plan_ctx: CreatePlan,
    plan_id: u16,
    amount_lamports: u64,
    interval_secs: i64,
    name: String,
    ctx: CreateSubscription,
    program_id: Address,
    now: i64,
)
    requires
        interval_secs > 0,
        plan_creation(
            plan_ctx,
            plan_address(plan_ctx.merchant, plan_id, program_id),
            plan_id,
            amount_lamports,
            interval_secs,
            name,
        ) == Ok::<Plan, EngineError>(ctx.plan.data),
    ensures
        ({
            let found = subscription_address(ctx.subscriber, ctx.plan.key, program_id);
            let outcome = subscription_creation(ctx, found, now);
            let in_order = (found matches Some((address, _)) && address == ctx.subscription@) && ctx.merchant
                == plan_ctx.merchant;
            &&& outcome is Ok <==> in_order && now + interval_secs <= i64::MAX
            &&& in_order && now + interval_secs > i64::MAX ==> outcome == Err::<
                (Subscription, Transfer),
                EngineError,
            >(EngineError::Rule(SubscriptionError::Overflow))
            &&& outcome matches Ok((subscription, transfer)) ==> {
                &&& subscription.started_at == now
                &&& subscription.next_billing_at == subscription.started_at + interval_secs
                &&& subscription.interval_secs == interval_secs
                &&& subscription.amount_lamports == amount_lamports
                &&& subscription.subscriber == ctx.subscriber
                &&& subscription.plan == ctx.plan.key
                &&& subscription.status == SubscriptionStatus::Active
                &&& subscription.auto_renew
                &&& found matches Some((_, bump)) && subscription.bump == bump
                &&& transfer == (Transfer { from: ctx.subscriber, to: ctx.merchant, lamports: amount_lamports })
            }
        }),
{
}

/// A subscription opened on a plan that the engine created is well formed,
/// and so is a plan after it was deactivated.
pub proof fn lemma_records_stay_well_formed(
    subscriber: Address,
    plan_key: Address,
    plan: Plan,
    now: i64,
    bump: u8,
)
    requires
        plan.wf(),
    ensures
        Subscription::opening(subscriber, plan_key, plan, now, bump) matches Ok(subscription)
            ==> subscription.wf(),
        (Plan { active: false, ..plan }).wf(),
{
}

/// Access is granted exactly where the subscription is active and the clock
/// reading is before the end of the paid period; every other refusal of a
/// record at its own address is `SubscriptionExpired`.
pub proof fn lemma_access_iff_entitled(ctx: CheckAccess, program_id: Address, now: i64)
    requires
        ctx.checks(program_id) is Ok,
    ensures
        ctx.access(ctx.checks(program_id), now) is Ok <==> (ctx.subscription.data.status
            == SubscriptionStatus::Active && now < ctx.subscription.data.next_billing_at),
        ctx.access(ctx.checks(program_id), now) is Err ==> ctx.access(ctx.checks(program_id), now) == Err::<
            (),
            EngineError,
        >(EngineError::Rule(SubscriptionError::SubscriptionExpired)),
{
}

/// Before the paid period has ended no renewal is allowed and none is
/// settled, whatever else holds, and every record stays as it was; for an
/// active subscription found in order, the refusal is `RenewalTooEarly`.
pub proof fn lemma_renewal_too_early(ctx: Renew, program_id: Address, now: i64, payment: Payment)
    requires
        now < ctx.subscription.data.next_billing_at,
    ensures
        ctx.renewal(ctx.checks(program_id), now) is Err,
        ctx.settled(ctx.checks(program_id), now, payment).0 is Err,
        ctx.settled(ctx.checks(program_id), now, payment).1 == ctx,
        ctx.checks(program_id) is Ok && ctx.subscription.data.status == SubscriptionStatus::Active ==> {
            &&& ctx.renewal(ctx.checks(program_id), now) == Err::<Transfer, EngineError>(
                EngineError::Rule(SubscriptionError::RenewalTooEarly),
            )
            &&& ctx.settled(ctx.checks(program_id), now, payment).0 == Err::<(), EngineError>(
                EngineError::Rule(SubscriptionError::RenewalTooEarly),
            )
        },
{
}

/// A renewal that is due on an active plan asks for exactly the
/// subscription's price, from the subscriber to the merchant. Once that is
/// paid, the end of the paid period moves on by exactly one interval and
/// nothing else changes; if it is not paid, nothing changes at all.
pub proof fn lemma_renewal_moves_one_interval(ctx: Renew, program_id: Address, now: i64)
    requires
        ctx.checks(program_id) is Ok,
        ctx.subscription.data.status == SubscriptionStatus::Active,
        now >= ctx.subscription.data.next_billing_at,
        ctx.plan.data.active,
        i64::MIN <= ctx.subscription.data.next_billing_at + ctx.subscription.data.interval_secs <= i64::MAX,
    ensures
        ctx.renewal(ctx.checks(program_id), now) == Ok::<Transfer, EngineError>(
            (Transfer { from: ctx.subscriber, to: ctx.merchant, lamports: ctx.subscription.data.amount_lamports }),
        ),
        ctx.settled(ctx.checks(program_id), now, Payment::Completed).0 == Ok::<(), EngineError>(()),
        ctx.settled(ctx.checks(program_id), now, Payment::Completed).1.subscription.data.next_billing_at
            == ctx.subscription.data.next_billing_at + ctx.subscription.data.interval_secs,
        ctx.settled(ctx.checks(program_id), now, Payment::Completed).1 == (Renew {
            subscription: Account {
                key: ctx.subscription.key,
                data: Subscription {
                    next_billing_at: (ctx.subscription.data.next_billing_at
                        + ctx.subscription.data.interval_secs) as i64,
                    ..ctx.subscription.data
                },
            },
            ..ctx
        }),
        ctx.settled(ctx.checks(program_id), now, Payment::InsufficientFunds) == (
            Err::<(), EngineError>(EngineError::InsufficientFunds),
            ctx,
        ),
{
}

/// A renewal that is due on an active plan, but whose next period would end
/// at a time that no timestamp can hold, fails with `Overflow` before any
/// payment is asked for, and settling it changes nothing whatever was paid.
pub proof fn lemma_renewal_overflow(ctx: Renew, program_id: Address, now: i64, payment: Payment)
    requires
        ctx.checks(program_id) is Ok,
        ctx.subscription.data.status == SubscriptionStatus::Active,
        now >= ctx.subscription.data.next_billing_at,
        ctx.plan.data.active,
        !(i64::MIN <= ctx.subscription.data.next_billing_at + ctx.subscription.data.interval_secs <= i64::MAX),
    ensures
        ctx.renewal(ctx.checks(program_id), now) == Err::<Transfer, EngineError>(
            EngineError::Rule(SubscriptionError::Overflow),
        ),
        ctx.settled(ctx.checks(program_id), now, payment) == (
            Err::<(), EngineError>(EngineError::Rule(SubscriptionError::Overflow)),
            ctx,
        ),
{
}

/// Every failure to settle a renewal leaves every record as it was. A renewal
/// is settled only where `renew` allows it and the payment was completed, and
/// whenever `renew` allows it a completed payment settles it: no payment is
/// asked for that cannot be followed by the move of the billing time.
pub proof fn lemma_settlement_follows_renew(ctx: Renew, program_id: Address, now: i64, payment: Payment)
    ensures
        ctx.settled(ctx.checks(program_id), now, payment).0 is Err ==> ctx.settled(
            ctx.checks(program_id),
            now,
            payment,
        ).1 == ctx,
        ctx.settled(ctx.checks(program_id), now, payment).0 is Ok <==> payment == Payment::Completed
            && ctx.renewal(ctx.checks(program_id), now) is Ok,
        ctx.renewal(ctx.checks(program_id), now) is Err ==> ctx.settled(ctx.checks(program_id), now, payment).0
            == Err::<(), EngineError>(ctx.renewal(ctx.checks(program_id), now)->Err_0),
{
}

/// The end of the paid period never moves back, and a cancelled subscription
/// stays cancelled, whatever becomes of a renewal's payment.
pub proof fn lemma_settlement_is_monotone(ctx: Renew, checks: Result<(), EngineError>, now: i64, payment: Payment)
    requires
        ctx.subscription.data.wf(),
    ensures
        ctx.settled(checks, now, payment).1.subscription.data.wf(),
        ctx.settled(checks, now, payment).1.subscription.data.next_billing_at
            >= ctx.subscription.data.next_billing_at,
        ctx.settled(checks, now, payment).1.subscription.data.status == ctx.subscription.data.status,
{
}

/// Cancelling an active subscription makes it cancelled and changes nothing
/// else; cancelling it once more fails with `NotActive` and changes nothing.
pub proof fn lemma_cancel_twice(ctx: Cancel, program_id: Address)
    requires
        ctx.checks(program_id) is Ok,
        ctx.subscription.data.status == SubscriptionStatus::Active,
    ensures
        ({
            let first = ctx.cancelled(ctx.checks(program_id));
            let second = first.1.cancelled(first.1.checks(program_id));
            &&& first.0 == Ok::<(), EngineError>(())
            &&& first.1.subscription.data == (Subscription {
                status: SubscriptionStatus::Cancelled,
                ..ctx.subscription.data
            })
            &&& first.1.subscription.key == ctx.subscription.key
            &&& first.1.subscriber == ctx.subscriber
            &&& first.1.plan == ctx.plan
            &&& second.0 == Err::<(), EngineError>(EngineError::Rule(SubscriptionError::NotActive))
            &&& second.1 == first.1
        }),
{
}

/// No cancellation, allowed or refused, makes a cancelled subscription
/// active, and none touches anything but the status.
pub proof fn lemma_cancelled_is_final(ctx: Cancel, checks: Result<(), EngineError>)
    ensures
        ctx.subscription.data.status == SubscriptionStatus::Cancelled ==> ctx.cancelled(checks).1 == ctx
            && ctx.cancelled(checks).0 is Err,
        ctx.cancelled(checks).1.subscription.data.status == SubscriptionStatus::Active
            ==> ctx.subscription.data.status == SubscriptionStatus::Active,
        ctx.subscription.data.wf() ==> ctx.cancelled(checks).1.subscription.data.wf(),
{
}

/// Closing a plan found in order fails with `PlanStillActive` whenever the
/// plan is active; otherwise it succeeds, the record goes, and the merchant is
/// refunded.
pub proof fn lemma_close_plan(ctx: ClosePlan, program_id: Address, plan_id: u16)
    requires
        plan_record_checks(ctx.plan, ctx.merchant, plan_id, program_id) is Ok,
    ensures
        ctx.plan.data.active ==> ctx.closing(plan_record_checks(ctx.plan, ctx.merchant, plan_id, program_id))
            == Err::<Reclaim, EngineError>(EngineError::Rule(SubscriptionError::PlanStillActive)),
        !ctx.plan.data.active ==> ctx.closing(plan_record_checks(ctx.plan, ctx.merchant, plan_id, program_id))
            == Ok::<Reclaim, EngineError>((Reclaim { record: ctx.plan.key, refund_to: ctx.merchant })),
{
}

/// A plan that was deactivated can be closed, takes no renewal that is due,
/// and deactivating it again changes nothing.
pub proof fn lemma_deactivated_plan(ctx: DeactivatePlan, program_id: Address, plan_id: u16, renewal: Renew, now: i64)
    requires
        plan_record_checks(ctx.plan, ctx.merchant, plan_id, program_id) is Ok,
        renewal.plan == ctx.deactivated(plan_record_checks(ctx.plan, ctx.merchant, plan_id, program_id)).1.plan,
        renewal.checks(program_id) is Ok,
        renewal.subscription.data.status == SubscriptionStatus::Active,
        now >= renewal.subscription.data.next_billing_at,
    ensures
        ({
            let after = ctx.deactivated(plan_record_checks(ctx.plan, ctx.merchant, plan_id, program_id)).1;
            let close = ClosePlan { plan: after.plan, merchant: after.merchant };
            &&& !after.plan.data.active
            &&& plan_record_checks(after.plan, after.merchant, plan_id, program_id) is Ok
            &&& after.deactivated(plan_record_checks(after.plan, after.merchant, plan_id, program_id)).1 == after
            &&& close.closing(plan_record_checks(close.plan, close.merchant, plan_id, program_id)) is Ok
            &&& renewal.renewal(renewal.checks(program_id), now) == Err::<Transfer, EngineError>(
                EngineError::Rule(SubscriptionError::PlanInactive),
            )
            &&& renewal.settled(renewal.checks(program_id), now, Payment::Completed) == (
                Err::<(), EngineError>(EngineError::Rule(SubscriptionError::PlanInactive)),
                renewal,
            )
        }),
{
}

} // verus!
