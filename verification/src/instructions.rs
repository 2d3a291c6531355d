use crate::address::{
    created_view, derive_plan_address, derive_subscription_address, found_view, locate_plan,
    locate_subscription, plan_address, plan_address_with_bump, subscription_address,
    subscription_address_with_bump, Address,
};
use crate::errors::{EngineError, SubscriptionError};
use crate::records::{Account, Payment, Plan, Reclaim, Subscription, SubscriptionStatus, Transfer};
use vstd::prelude::*;

verus! {

/// What `create_plan` is handed: the address offered for the new record, and
/// the merchant who signs and pays for it.
#[derive(Clone, Debug, PartialEq, Eq)]
pub struct CreatePlan {
    pub plan: Address,
    pub merchant: Address,
}

/// What `create_subscription` is handed: the address offered for the new
/// record, the subscriber who signs and pays, the plan, and the merchant to
/// be paid.
#[derive(Clone, Debug, PartialEq, Eq)]
pub struct CreateSubscription {
    pub subscription: Address,
    pub subscriber: Address,
    pub plan: Account<Plan>,
    pub merchant: Address,
}

/// What `renew` is handed: the subscription, the subscriber who signs and
/// pays, the plan, and the merchant to be paid.
#[derive(Clone, Debug, PartialEq, Eq)]
pub struct Renew {
    pub subscription: Account<Subscription>,
    pub subscriber: Address,
    pub plan: Account<Plan>,
    pub merchant: Address,
}

/// What `check_access` is handed: the subscription alone. Nobody signs.
#[derive(Clone, Debug, PartialEq, Eq)]
pub struct CheckAccess {
    pub subscription: Account<Subscription>,
}

/// What `cancel` is handed: the subscription, the subscriber who signs, and
/// the address of the plan.
#[derive(Clone, Debug, PartialEq, Eq)]
pub struct Cancel {
    pub subscription: Account<Subscription>,
    pub subscriber: Address,
    pub plan: Address,
}

/// What `deactivate_plan` is handed: the plan and the merchant who signs.
#[derive(Clone, Debug, PartialEq, Eq)]
pub struct DeactivatePlan {
    pub plan: Account<Plan>,
    pub merchant: Address,
}

/// What `close_plan` is handed: the plan, and the merchant who signs and gets
/// the record's storage cost back.
#[derive(Clone, Debug, PartialEq, Eq)]
pub struct ClosePlan {
    pub plan: Account<Plan>,
    pub merchant: Address,
}

/// What `close_subscription` is handed: the subscription, the subscriber who
/// signs and gets the record's storage cost back, and the address of the plan.
#[derive(Clone, Debug, PartialEq, Eq)]
pub struct CloseSubscription {
    pub subscription: Account<Subscription>,
    pub subscriber: Address,
    pub plan: Address,
}

/// A failure of a billing rule, as a failure of the operation.
pub open spec fn rule<T>(r: Result<T, SubscriptionError>) -> Result<T, EngineError> {
    match r {
        Ok(value) => Ok(value),
        Err(e) => Err(EngineError::Rule(e)),
    }
}

/// Whether a plan's record is the one that `merchant` holds under `plan_id`:
/// it sits at the address that the two derive with the record's bump seed,
/// and it names `merchant`. The address is tested first.
pub open spec fn plan_record_checks(plan: Account<Plan>, merchant: Address, plan_id: u16, program_id: Address) -> Result<
    (),
    EngineError,
> {
    if plan_address_with_bump(merchant, plan_id, plan.data.bump, program_id) != Some(plan.key@) {
        Err(EngineError::AddressMismatch)
    } else if plan.data.merchant != merchant {
        Err(EngineError::Unauthorized)
    } else {
        Ok(())
    }
}

/// Whether a subscription's record is the one that `subscriber` holds to the
/// plan at `plan`: it sits at the address that the two derive with the
/// record's bump seed, and it names `subscriber`. The address is tested first.
pub open spec fn subscription_record_checks(
    subscription: Account<Subscription>,
    subscriber: Address,
    plan: Address,
    program_id: Address,
) -> Result<(), EngineError> {
    if subscription_address_with_bump(subscriber, plan, subscription.data.bump, program_id) != Some(
        subscription.key@,
    ) {
        Err(EngineError::AddressMismatch)
    } else if subscription.data.subscriber != subscriber {
        Err(EngineError::Unauthorized)
    } else {
        Ok(())
    }
}

/// Whether `merchant` is the one that the plan names.
pub open spec fn merchant_checks(plan: Plan, merchant: Address) -> Result<(), EngineError> {
    if plan.merchant != merchant {
        Err(EngineError::Unauthorized)
    } else {
        Ok(())
    }
}

/// Whether an address that was derived is the address `key`.
pub fn derived_is(created: Option<Address>, key: &Address) -> (r: bool)
    ensures
        r == (created_view(created) == Some(key@)),
{
    match created {
        Some(address) => {
            proof {
                Address::lemma_same_bytes(address, *key);
            }
            address.same(key)
        },
        None => false,
    }
}

pub fn check_plan_record(plan: &Account<Plan>, merchant: &Address, plan_id: u16, program_id: &Address) -> (r: Result<
    (),
    EngineError,
>)
    ensures
        r == plan_record_checks(*plan, *merchant, plan_id, *program_id),
{
    let created = locate_plan(merchant, plan_id, plan.data.bump, program_id);
    if !derived_is(created, &plan.key) {
        Err(EngineError::AddressMismatch)
    } else if !plan.data.merchant.same(merchant) {
        Err(EngineError::Unauthorized)
    } else {
        Ok(())
    }
}

pub fn check_subscription_record(
    subscription: &Account<Subscription>,
    subscriber: &Address,
    plan: &Address,
    program_id: &Address,
) -> (r: Result<(), EngineError>)
    ensures
        r == subscription_record_checks(*subscription, *subscriber, *plan, *program_id),
{
    let created = locate_subscription(subscriber, plan, subscription.data.bump, program_id);
    if !derived_is(created, &subscription.key) {
        Err(EngineError::AddressMismatch)
    } else if !subscription.data.subscriber.same(subscriber) {
        Err(EngineError::Unauthorized)
    } else {
        Ok(())
    }
}

pub fn check_merchant(plan: &Plan, merchant: &Address) -> (r: Result<(), EngineError>)
    ensures
        r == merchant_checks(*plan, *merchant),
{
    if !plan.merchant.same(merchant) {
        Err(EngineError::Unauthorized)
    } else {
        Ok(())
    }
}

/// What `create_plan` comes to, given what the search for the plan's address
/// found: the record has to be offered at that address; then the billing
/// rules decide, and the new record holds the bump seed that was found.
pub open spec fn plan_creation(
    ctx: CreatePlan,
    found: Option<(Seq<u8>, u8)>,
    plan_id: u16,
    amount_lamports: u64,
    interval_secs: i64,
    name: String,
) -> Result<Plan, EngineError> {
    match found {
        Some((address, bump)) => if address == ctx.plan@ {
            rule(Plan::created(ctx.merchant, plan_id, amount_lamports, interval_secs, name, bump))
        } else {
            Err(EngineError::AddressMismatch)
        },
        None => Err(EngineError::AddressMismatch),
    }
}

/// Creates the plan `plan_id` of a merchant, given what the search for its
/// address found.
pub fn create_plan_at(
    ctx: &CreatePlan,
    found: Option<(Address, u8)>,
    plan_id: u16,
    amount_lamports: u64,
    interval_secs: i64,
    name: String,
) -> (r: Result<Plan, EngineError>)
    ensures
        r == plan_creation(*ctx, found_view(found), plan_id, amount_lamports, interval_secs, name),
        r matches Ok(plan) ==> plan.wf(),
{
    match found {
        Some((address, bump)) => {
            proof {
                Address::lemma_same_bytes(address, ctx.plan);
            }
            if !address.same(&ctx.plan) {
                return Err(EngineError::AddressMismatch);
            }
            match Plan::create(ctx.merchant, plan_id, amount_lamports, interval_secs, name, bump) {
                Ok(plan) => Ok(plan),
                Err(e) => Err(EngineError::Rule(e)),
            }
        },
        None => Err(EngineError::AddressMismatch),
    }
}

/// Creates the plan `plan_id` of the merchant who signs. The result is the
/// record to store at `ctx.plan`, which has to be the address that the
/// merchant and the plan id derive.
pub fn create_plan(
    ctx: &CreatePlan,
    program_id: &Address,
    plan_id: u16,
    amount_lamports: u64,
    interval_secs: i64,
    name: String,
) -> (r: Result<Plan, EngineError>)
    ensures
        r == plan_creation(
            *ctx,
            plan_address(ctx.merchant, plan_id, *program_id),
            plan_id,
            amount_lamports,
            interval_secs,
            name,
        ),
        r matches Ok(plan) ==> plan.wf() && plan_address_with_bump(ctx.merchant, plan_id, plan.bump, *program_id)
            == Some(ctx.plan@),
{
    let found = derive_plan_address(&ctx.merchant, plan_id, program_id);
    create_plan_at(ctx, found, plan_id, amount_lamports, interval_secs, name)
}

/// What `create_subscription` comes to, given what the search for the
/// subscription's address found: the record has to be offered at that
/// address, and the merchant to be paid has to be the plan's; then the
/// billing rules decide. With the new record comes the transfer of the first
/// period's price from the subscriber to the merchant.
pub open spec fn subscription_creation(ctx: CreateSubscription, found: Option<(Seq<u8>, u8)>, now: i64) -> Result<
    (Subscription, Transfer),
    EngineError,
> {
    match found {
        Some((address, bump)) => if address != ctx.subscription@ {
            Err(EngineError::AddressMismatch)
        } else if ctx.plan.data.merchant != ctx.merchant {
            Err(EngineError::Unauthorized)
        } else {
            match Subscription::opening(ctx.subscriber, ctx.plan.key, ctx.plan.data, now, bump) {
                Ok(subscription) => Ok(
                    (
                        subscription,
                        Transfer {
                            from: ctx.subscriber,
                            to: ctx.merchant,
                            lamports: ctx.plan.data.amount_lamports,
                        },
                    ),
                ),
                Err(e) => Err(EngineError::Rule(e)),
            }
        },
        None => Err(EngineError::AddressMismatch),
    }
}

/// Opens a subscription at `now`, given what the search for its address found.
pub fn create_subscription_at(ctx: &CreateSubscription, found: Option<(Address, u8)>, now: i64) -> (r: Result<
    (Subscription, Transfer),
    EngineError,
>)
    ensures
        r == subscription_creation(*ctx, found_view(found), now),
{
    match found {
        Some((address, bump)) => {
            proof {
                Address::lemma_same_bytes(address, ctx.subscription);
            }
            if !address.same(&ctx.subscription) {
                return Err(EngineError::AddressMismatch);
            }
            match check_merchant(&ctx.plan.data, &ctx.merchant) {
                Err(e) => Err(e),
                Ok(()) => match Subscription::open(ctx.subscriber, ctx.plan.key, &ctx.plan.data, now, bump) {
                    Ok(subscription) => Ok(
                        (
                            subscription,
                            Transfer {
                                from: ctx.subscriber,
                                to: ctx.merchant,
                                lamports: ctx.plan.data.amount_lamports,
                            },
                        ),
                    ),
                    Err(e) => Err(EngineError::Rule(e)),
                },
            }
        },
        None => Err(EngineError::AddressMismatch),
    }
}

/// Opens a subscription of the subscriber who signs to the plan, at the clock
/// reading `now`. The result is the record meant for `ctx.subscription` and
/// the transfer that pays for the first period: the caller attempts the
/// transfer and hands its outcome to `settle_subscription`, which says whether
/// the record is stored.
pub fn create_subscription(ctx: &CreateSubscription, program_id: &Address, now: i64) -> (r: Result<
    (Subscription, Transfer),
    EngineError,
>)
    ensures
        r == subscription_creation(*ctx, subscription_address(ctx.subscriber, ctx.plan.key, *program_id), now),
        r matches Ok((subscription, _)) ==> subscription_address_with_bump(
            ctx.subscriber,
            ctx.plan.key,
            subscription.bump,
            *program_id,
        ) == Some(ctx.subscription@),
{
    let found = derive_subscription_address(&ctx.subscriber, &ctx.plan.key, program_id);
    create_subscription_at(ctx, found, now)
}

/// What becomes of a new subscription once its first payment was attempted:
/// the record is kept only if the payment went through.
pub open spec fn subscription_settled(record: Subscription, payment: Payment) -> Result<Subscription, EngineError> {
    match payment {
        Payment::Completed => Ok(record),
        Payment::InsufficientFunds => Err(EngineError::InsufficientFunds),
    }
}

/// Completes the opening of a subscription once the transfer that
/// `create_subscription` asked for was attempted: the result is the record to
/// store, and there is none without the payment.
pub fn settle_subscription(record: Subscription, payment: Payment) -> (r: Result<Subscription, EngineError>)
    ensures
        r == subscription_settled(record, payment),
{
    match payment {
        Payment::Completed => Ok(record),
        Payment::InsufficientFunds => Err(EngineError::InsufficientFunds),
    }
}

impl Renew {
    /// Whether the records are the right ones: the subscription is the
    /// subscriber's to this plan, and the merchant is the plan's.
    pub open spec fn checks(&self, program_id: Address) -> Result<(), EngineError> {
        match subscription_record_checks(self.subscription, self.subscriber, self.plan.key, program_id) {
            Err(e) => Err(e),
            Ok(()) => merchant_checks(self.plan.data, self.merchant),
        }
    }

    /// What `renew` comes to at `now`, given the outcome of the checks on the
    /// records: the transfer of the subscription's price from the subscriber
    /// to the merchant, or the first failure.
    pub open spec fn renewal(&self, checks: Result<(), EngineError>, now: i64) -> Result<Transfer, EngineError> {
        match checks {
            Err(e) => Err(e),
            Ok(()) => match self.subscription.data.renewal(self.plan.data, now) {
                Ok(lamports) => Ok(Transfer { from: self.subscriber, to: self.merchant, lamports }),
                Err(e) => Err(EngineError::Rule(e)),
            },
        }
    }

    /// The records after the payment for a renewal at `now` had the outcome
    /// `payment`, with what settling returns, given the outcome of the checks
    /// on the records. Everything that `renew` asks is asked once more, so
    /// that nothing moves unless `renew` allows it; then only a completed
    /// payment moves the end of the paid period, by one interval.
    pub open spec fn settled(&self, checks: Result<(), EngineError>, now: i64, payment: Payment) -> (
        Result<(), EngineError>,
        Renew,
    ) {
        match self.renewal(checks, now) {
            Err(e) => (Err(e), *self),
            Ok(_) => match payment {
                Payment::InsufficientFunds => (Err(EngineError::InsufficientFunds), *self),
                Payment::Completed => match self.subscription.data.advanced() {
                    Some(subscription) => (
                        Ok(()),
                        Renew {
                            subscription: Account { key: self.subscription.key, data: subscription },
                            ..*self
                        },
                    ),
                    None => (Err(EngineError::Rule(SubscriptionError::Overflow)), *self),
                },
            },
        }
    }
}

/// Decides on a renewal, given the outcome of the checks on the records.
pub fn renew_checked(ctx: &Renew, checks: Result<(), EngineError>, now: i64) -> (r: Result<Transfer, EngineError>)
    ensures
        r == ctx.renewal(checks, now),
{
    match checks {
        Err(e) => Err(e),
        Ok(()) => match ctx.subscription.data.renewal_due(&ctx.plan.data, now) {
            Ok(lamports) => Ok(Transfer { from: ctx.subscriber, to: ctx.merchant, lamports }),
            Err(e) => Err(EngineError::Rule(e)),
        },
    }
}

/// Checks the records that a renewal is handed.
pub fn check_renewal_records(ctx: &Renew, program_id: &Address) -> (r: Result<(), EngineError>)
    ensures
        r == ctx.checks(*program_id),
{
    match check_subscription_record(&ctx.subscription, &ctx.subscriber, &ctx.plan.key, program_id) {
        Err(e) => Err(e),
        Ok(()) => check_merchant(&ctx.plan.data, &ctx.merchant),
    }
}

/// Decides whether the subscriber who signs may renew at the clock reading
/// `now`. The result is the transfer that pays for the next period; the
/// caller attempts it and hands its outcome to `settle_renewal`. No record
/// changes here.
pub fn renew(ctx: &Renew, program_id: &Address, now: i64) -> (r: Result<Transfer, EngineError>)
    ensures
        r == ctx.renewal(ctx.checks(*program_id), now),
{
    let checks = check_renewal_records(ctx, program_id);
    renew_checked(ctx, checks, now)
}

/// Settles a renewal, given the outcome of the checks on the records.
pub fn settle_renewal_checked(ctx: &mut Renew, checks: Result<(), EngineError>, now: i64, payment: Payment) -> (r:
    Result<(), EngineError>)
    ensures
        r == old(ctx).settled(checks, now, payment).0,
        *final(ctx) == old(ctx).settled(checks, now, payment).1,
{
    match renew_checked(ctx, checks, now) {
        Err(e) => Err(e),
        Ok(_) => match payment {
            Payment::InsufficientFunds => Err(EngineError::InsufficientFunds),
            Payment::Completed => {
                let mut subscription = ctx.subscription.data;
                match subscription.advance() {
                    Ok(()) => {
                        ctx.subscription.data = subscription;
                        Ok(())
                    },
                    Err(e) => Err(EngineError::Rule(e)),
                }
            },
        },
    }
}

/// Completes a renewal that `renew` allowed at `now`, once the transfer was
/// attempted. A payment that went through moves the end of the paid period on
/// by one interval; one that did not, or a renewal that `renew` does not
/// allow for these records at `now`, leaves every record as it was.
pub fn settle_renewal(ctx: &mut Renew, program_id: &Address, now: i64, payment: Payment) -> (r: Result<
    (),
    EngineError,
>)
    ensures
        r == old(ctx).settled(old(ctx).checks(*program_id), now, payment).0,
        *final(ctx) == old(ctx).settled(old(ctx).checks(*program_id), now, payment).1,
{
    let checks = check_renewal_records(ctx, program_id);
    settle_renewal_checked(ctx, checks, now, payment)
}

impl Cancel {
    /// Whether the subscription is the subscriber's to this plan.
    pub open spec fn checks(&self, program_id: Address) -> Result<(), EngineError> {
        subscription_record_checks(self.subscription, self.subscriber, self.plan, program_id)
    }

    /// The records after `cancel`, with what it returns, given the outcome of
    /// the checks on the records: an active subscription becomes cancelled,
    /// and nothing else changes.
    pub open spec fn cancelled(&self, checks: Result<(), EngineError>) -> (Result<(), EngineError>, Cancel) {
        match checks {
            Err(e) => (Err(e), *self),
            Ok(()) => if self.subscription.data.status == SubscriptionStatus::Active {
                (
                    Ok(()),
                    Cancel {
                        subscription: Account {
                            key: self.subscription.key,
                            data: Subscription { status: SubscriptionStatus::Cancelled, ..self.subscription.data },
                        },
                        ..*self
                    },
                )
            } else {
                (Err(EngineError::Rule(SubscriptionError::NotActive)), *self)
            },
        }
    }
}

/// Cancels, given the outcome of the checks on the records.
pub fn cancel_checked(ctx: &mut Cancel, checks: Result<(), EngineError>) -> (r: Result<(), EngineError>)
    ensures
        r == old(ctx).cancelled(checks).0,
        *final(ctx) == old(ctx).cancelled(checks).1,
{
    match checks {
        Err(e) => Err(e),
        Ok(()) => {
            let mut subscription = ctx.subscription.data;
            match subscription.cancel() {
                Ok(()) => {
                    ctx.subscription.data = subscription;
                    Ok(())
                },
                Err(e) => Err(EngineError::Rule(e)),
            }
        },
    }
}

/// Cancels the subscription of the subscriber who signs. Nothing is paid
/// back, and access lasts until the paid period ends.
pub fn cancel(ctx: &mut Cancel, program_id: &Address) -> (r: Result<(), EngineError>)
    ensures
        r == old(ctx).cancelled(old(ctx).checks(*program_id)).0,
        *final(ctx) == old(ctx).cancelled(old(ctx).checks(*program_id)).1,
{
    let checks = check_subscription_record(&ctx.subscription, &ctx.subscriber, &ctx.plan, program_id);
    cancel_checked(ctx, checks)
}

impl DeactivatePlan {
    /// The records after `deactivate_plan`, with what it returns, given the
    /// outcome of the checks on the records: the plan is inactive, whether or
    /// not it was before, and nothing else changes.
    pub open spec fn deactivated(&self, checks: Result<(), EngineError>) -> (Result<(), EngineError>, DeactivatePlan) {
        match checks {
            Err(e) => (Err(e), *self),
            Ok(()) => (
                Ok(()),
                DeactivatePlan {
                    plan: Account { key: self.plan.key, data: Plan { active: false, ..self.plan.data } },
                    ..*self
                },
            ),
        }
    }
}

/// Deactivates, given the outcome of the checks on the records.
pub fn deactivate_plan_checked(ctx: &mut DeactivatePlan, checks: Result<(), EngineError>) -> (r: Result<
    (),
    EngineError,
>)
    ensures
        r == old(ctx).deactivated(checks).0,
        *final(ctx) == old(ctx).deactivated(checks).1,
{
    match checks {
        Err(e) => Err(e),
        Ok(()) => {
            ctx.plan.data.active = false;
            Ok(())
        },
    }
}

/// Deactivates the plan `plan_id` of the merchant who signs: it takes no new
/// subscriptions and no renewals from then on.
pub fn deactivate_plan(ctx: &mut DeactivatePlan, program_id: &Address, plan_id: u16) -> (r: Result<(), EngineError>)
    ensures
        r == old(ctx).deactivated(
            plan_record_checks(old(ctx).plan, old(ctx).merchant, plan_id, *program_id),
        ).0,
        *final(ctx) == old(ctx).deactivated(
            plan_record_checks(old(ctx).plan, old(ctx).merchant, plan_id, *program_id),
        ).1,
{
    let checks = check_plan_record(&ctx.plan, &ctx.merchant, plan_id, program_id);
    deactivate_plan_checked(ctx, checks)
}

impl ClosePlan {
    /// What `close_plan` comes to, given the outcome of the checks on the
    /// records: an inactive plan's record is destroyed and its storage cost
    /// goes to the merchant.
    pub open spec fn closing(&self, checks: Result<(), EngineError>) -> Result<Reclaim, EngineError> {
        match checks {
            Err(e) => Err(e),
            Ok(()) => if self.plan.data.active {
                Err(EngineError::Rule(SubscriptionError::PlanStillActive))
            } else {
                Ok(Reclaim { record: self.plan.key, refund_to: self.merchant })
            },
        }
    }
}

/// Decides on closing a plan, given the outcome of the checks on the records.
pub fn close_plan_checked(ctx: &ClosePlan, checks: Result<(), EngineError>) -> (r: Result<Reclaim, EngineError>)
    ensures
        r == ctx.closing(checks),
{
    match checks {
        Err(e) => Err(e),
        Ok(()) => match ctx.plan.data.closable() {
            Ok(()) => Ok(Reclaim { record: ctx.plan.key, refund_to: ctx.merchant }),
            Err(e) => Err(EngineError::Rule(e)),
        },
    }
}

/// Closes the plan `plan_id` of the merchant who signs, once it is inactive.
/// The result tells the caller which record to destroy and whom to refund.
pub fn close_plan(ctx: &ClosePlan, program_id: &Address, plan_id: u16) -> (r: Result<Reclaim, EngineError>)
    ensures
        r == ctx.closing(plan_record_checks(ctx.plan, ctx.merchant, plan_id, *program_id)),
{
    let checks = check_plan_record(&ctx.plan, &ctx.merchant, plan_id, program_id);
    close_plan_checked(ctx, checks)
}

impl CloseSubscription {
    /// Whether the subscription is the subscriber's to this plan.
    pub open spec fn checks(&self, program_id: Address) -> Result<(), EngineError> {
        subscription_record_checks(self.subscription, self.subscriber, self.plan, program_id)
    }

    /// What `close_subscription` comes to, given the outcome of the checks on
    /// the records: a cancelled subscription's record is destroyed and its
    /// storage cost goes to the subscriber.
    pub open spec fn closing(&self, checks: Result<(), EngineError>) -> Result<Reclaim, EngineError> {
        match checks {
            Err(e) => Err(e),
            Ok(()) => if self.subscription.data.status == SubscriptionStatus::Cancelled {
                Ok(Reclaim { record: self.subscription.key, refund_to: self.subscriber })
            } else {
                Err(EngineError::Rule(SubscriptionError::NotActive))
            },
        }
    }
}

/// Decides on closing a subscription, given the outcome of the checks on the
/// records.
pub fn close_subscription_checked(ctx: &CloseSubscription, checks: Result<(), EngineError>) -> (r: Result<
    Reclaim,
    EngineError,
>)
    ensures
        r == ctx.closing(checks),
{
    match checks {
        Err(e) => Err(e),
        Ok(()) => match ctx.subscription.data.closable() {
            Ok(()) => Ok(Reclaim { record: ctx.subscription.key, refund_to: ctx.subscriber }),
            Err(e) => Err(EngineError::Rule(e)),
        },
    }
}

/// Closes the cancelled subscription of the subscriber who signs. The result
/// tells the caller which record to destroy and whom to refund.
pub fn close_subscription(ctx: &CloseSubscription, program_id: &Address) -> (r: Result<Reclaim, EngineError>)
    ensures
        r == ctx.closing(ctx.checks(*program_id)),
{
    let checks = check_subscription_record(&ctx.subscription, &ctx.subscriber, &ctx.plan, program_id);
    close_subscription_checked(ctx, checks)
}

impl CheckAccess {
    /// Whether the record sits at the address that the subscriber and the plan
    /// it names derive.
    pub open spec fn checks(&self, program_id: Address) -> Result<(), EngineError> {
        subscription_record_checks(
            self.subscription,
            self.subscription.data.subscriber,
            self.subscription.data.plan,
            program_id,
        )
    }

    /// What `check_access` comes to at `now`, given the outcome of the check
    /// on the record: access is granted exactly where the subscription is
    /// active and its paid period has not ended.
    pub open spec fn access(&self, checks: Result<(), EngineError>, now: i64) -> Result<(), EngineError> {
        match checks {
            Err(e) => Err(e),
            Ok(()) => if self.subscription.data.entitled(now) {
                Ok(())
            } else {
                Err(EngineError::Rule(SubscriptionError::SubscriptionExpired))
            },
        }
    }
}

/// Decides on access, given the outcome of the check on the record.
pub fn check_access_checked(ctx: &CheckAccess, checks: Result<(), EngineError>, now: i64) -> (r: Result<
    (),
    EngineError,
>)
    ensures
        r == ctx.access(checks, now),
{
    match checks {
        Err(e) => Err(e),
        Ok(()) => match ctx.subscription.data.check_access(now) {
            Ok(()) => Ok(()),
            Err(e) => Err(EngineError::Rule(e)),
        },
    }
}

/// Tells anybody who asks whether the subscription gives access at the clock
/// reading `now`. Nobody has to sign; the record only has to be at its own
/// address.
pub fn check_access(ctx: &CheckAccess, program_id: &Address, now: i64) -> (r: Result<(), EngineError>)
    ensures
        r == ctx.access(ctx.checks(*program_id), now),
{
    let checks = check_subscription_record(
        &ctx.subscription,
        &ctx.subscription.data.subscriber,
        &ctx.subscription.data.plan,
        program_id,
    );
    check_access_checked(ctx, checks, now)
}

} // verus!
