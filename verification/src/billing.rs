use crate::address::Address;
use crate::errors::SubscriptionError;
use crate::records::{Plan, Subscription, SubscriptionStatus, MAX_NAME_LEN};
use vstd::prelude::*;

verus! {

impl Plan {
    /// What holds of every plan that the engine has created.
    pub open spec fn wf(&self) -> bool {
        &&& self.interval_secs > 0
        &&& self.name@.len() <= MAX_NAME_LEN
    }

    /// What creating a plan comes to: the interval is tested before the name,
    /// and a plan starts out active.
    pub open spec fn created(
        merchant: Address,
        plan_id: u16,
        amount_lamports: u64,
        interval_secs: i64,
        name: String,
        bump: u8,
    ) -> Result<Plan, SubscriptionError> {
        if interval_secs <= 0 {
            Err(SubscriptionError::InvalidInterval)
        } else if name@.len() > MAX_NAME_LEN {
            Err(SubscriptionError::NameTooLong)
        } else {
            Ok(Plan { merchant, plan_id, amount_lamports, interval_secs, name, active: true, bump })
        }
    }

    /// A new plan, open for subscriptions.
    pub fn create(
        merchant: Address,
        plan_id: u16,
        amount_lamports: u64,
        interval_secs: i64,
        name: String,
        bump: u8,
    ) -> (r: Result<Plan, SubscriptionError>)
        ensures
            r == Plan::created(merchant, plan_id, amount_lamports, interval_secs, name, bump),
            r matches Ok(plan) ==> plan.wf(),
    {
        if interval_secs <= 0 {
            return Err(SubscriptionError::InvalidInterval);
        }
        if name.as_str().unicode_len() > MAX_NAME_LEN {
            return Err(SubscriptionError::NameTooLong);
        }
        Ok(Plan { merchant, plan_id, amount_lamports, interval_secs, name, active: true, bump })
    }

    /// Stops the plan from taking new subscriptions and renewals, for good.
    pub fn deactivate(&mut self)
        ensures
            *final(self) == (Plan { active: false, ..*old(self) }),
    {
        self.active = false;
    }

    /// Whether the plan's record may be destroyed: only once it is inactive.
    pub fn closable(&self) -> (r: Result<(), SubscriptionError>)
        ensures
            r == (if self.active {
                Err::<(), SubscriptionError>(SubscriptionError::PlanStillActive)
            } else {
                Ok::<(), SubscriptionError>(())
            }),
    {
        if self.active {
            Err(SubscriptionError::PlanStillActive)
        } else {
            Ok(())
        }
    }
}

impl Subscription {
    /// What holds of every subscription that the engine has opened, however
    /// often it was renewed or whether it was cancelled: its interval is
    /// positive and at least one interval after its start is paid for.
    pub open spec fn wf(&self) -> bool {
        &&& self.interval_secs > 0
        &&& self.next_billing_at - self.started_at >= self.interval_secs
    }

    /// Whether the subscription gives access at `now`: it is active and the
    /// paid period has not ended.
    pub open spec fn entitled(&self, now: i64) -> bool {
        self.status == SubscriptionStatus::Active && now < self.next_billing_at
    }

    /// The subscription that `subscriber` gets to `plan`, kept at `plan_key`,
    /// when opened at `now`: active, with the plan's price and interval, paid
    /// up to one interval from `now`.
    pub open spec fn opened(subscriber: Address, plan_key: Address, plan: Plan, now: i64, bump: u8) -> Subscription {
        Subscription {
            subscriber,
            plan: plan_key,
            amount_lamports: plan.amount_lamports,
            interval_secs: plan.interval_secs,
            next_billing_at: (now + plan.interval_secs) as i64,
            started_at: now,
            status: SubscriptionStatus::Active,
            auto_renew: true,
            bump,
        }
    }

    /// What opening a subscription comes to: an inactive plan takes none, and
    /// none is opened whose first period would end at a time that no timestamp
    /// can hold. The plan is tested first.
    pub open spec fn opening(subscriber: Address, plan_key: Address, plan: Plan, now: i64, bump: u8) -> Result<
        Subscription,
        SubscriptionError,
    > {
        if !plan.active {
            Err(SubscriptionError::PlanInactive)
        } else if !(i64::MIN <= now + plan.interval_secs <= i64::MAX) {
            Err(SubscriptionError::Overflow)
        } else {
            Ok(Subscription::opened(subscriber, plan_key, plan, now, bump))
        }
    }

    /// Opens a subscription to an active plan. The first period's price,
    /// `amount_lamports` of the result, is due with it.
    pub fn open(subscriber: Address, plan_key: Address, plan: &Plan, now: i64, bump: u8) -> (r: Result<
        Subscription,
        SubscriptionError,
    >)
        ensures
            r == Subscription::opening(subscriber, plan_key, *plan, now, bump),
    {
        if !plan.active {
            return Err(SubscriptionError::PlanInactive);
        }
        match now.checked_add(plan.interval_secs) {
            Some(next_billing_at) => Ok(
                Subscription {
                    subscriber,
                    plan: plan_key,
                    amount_lamports: plan.amount_lamports,
                    interval_secs: plan.interval_secs,
                    next_billing_at,
                    started_at: now,
                    status: SubscriptionStatus::Active,
                    auto_renew: true,
                    bump,
                },
            ),
            None => Err(SubscriptionError::Overflow),
        }
    }

    /// What a renewal at `now` comes to before any payment: the price that is
    /// due, or the first rule that forbids it. The status is tested first, then
    /// the time, then the plan, and last whether the end of the next period is
    /// a time that a timestamp can hold: no payment is asked for that could not
    /// be followed by the move of the billing time.
    pub open spec fn renewal(&self, plan: Plan, now: i64) -> Result<u64, SubscriptionError> {
        if self.status != SubscriptionStatus::Active {
            Err(SubscriptionError::NotActive)
        } else if now < self.next_billing_at {
            Err(SubscriptionError::RenewalTooEarly)
        } else if !plan.active {
            Err(SubscriptionError::PlanInactive)
        } else if self.advanced() is None {
            Err(SubscriptionError::Overflow)
        } else {
            Ok(self.amount_lamports)
        }
    }

    /// Decides whether the subscription may be renewed at `now`, and for how
    /// much: the price copied when it was opened, whatever the plan says now.
    pub fn renewal_due(&self, plan: &Plan, now: i64) -> (r: Result<u64, SubscriptionError>)
        ensures
            r == self.renewal(*plan, now),
    {
        if self.status != SubscriptionStatus::Active {
            Err(SubscriptionError::NotActive)
        } else if now < self.next_billing_at {
            Err(SubscriptionError::RenewalTooEarly)
        } else if !plan.active {
            Err(SubscriptionError::PlanInactive)
        } else {
            match self.next_billing_at.checked_add(self.interval_secs) {
                Some(_) => Ok(self.amount_lamports),
                None => Err(SubscriptionError::Overflow),
            }
        }
    }

    /// The subscription after one more paid period, or `None` where the end of
    /// that period is no time that a timestamp can hold.
    pub open spec fn advanced(&self) -> Option<Subscription> {
        if i64::MIN <= self.next_billing_at + self.interval_secs <= i64::MAX {
            Some(Subscription { next_billing_at: (self.next_billing_at + self.interval_secs) as i64, ..*self })
        } else {
            None
        }
    }

    /// Moves the end of the paid period on by one interval, however many
    /// intervals have gone by. Nothing changes where the new time would not fit.
    pub fn advance(&mut self) -> (r: Result<(), SubscriptionError>)
        ensures
            r == (if old(self).advanced() is Some {
                Ok::<(), SubscriptionError>(())
            } else {
                Err::<(), SubscriptionError>(SubscriptionError::Overflow)
            }),
            *final(self) == (if old(self).advanced() is Some {
                old(self).advanced().unwrap()
            } else {
                *old(self)
            }),
    {
        match self.next_billing_at.checked_add(self.interval_secs) {
            Some(next) => {
                self.next_billing_at = next;
                Ok(())
            },
            None => Err(SubscriptionError::Overflow),
        }
    }

    /// Cancels an active subscription. Access lasts until the paid period
    /// ends. A subscription that is not active is left as it is.
    pub fn cancel(&mut self) -> (r: Result<(), SubscriptionError>)
        ensures
            r == (if old(self).status == SubscriptionStatus::Active {
                Ok::<(), SubscriptionError>(())
            } else {
                Err::<(), SubscriptionError>(SubscriptionError::NotActive)
            }),
            *final(self) == (if old(self).status == SubscriptionStatus::Active {
                Subscription { status: SubscriptionStatus::Cancelled, ..*old(self) }
            } else {
                *old(self)
            }),
    {
        if self.status != SubscriptionStatus::Active {
            return Err(SubscriptionError::NotActive);
        }
        self.status = SubscriptionStatus::Cancelled;
        Ok(())
    }

    /// Whether the subscription's record may be destroyed: only once cancelled.
    pub fn closable(&self) -> (r: Result<(), SubscriptionError>)
        ensures
            r == (if self.status == SubscriptionStatus::Cancelled {
                Ok::<(), SubscriptionError>(())
            } else {
                Err::<(), SubscriptionError>(SubscriptionError::NotActive)
            }),
    {
        if self.status == SubscriptionStatus::Cancelled {
            Ok(())
        } else {
            Err(SubscriptionError::NotActive)
        }
    }

    /// Grants access at `now` exactly where the subscription is entitled to it.
    pub fn check_access(&self, now: i64) -> (r: Result<(), SubscriptionError>)
        ensures
            r == (if self.entitled(now) {
                Ok::<(), SubscriptionError>(())
            } else {
                Err::<(), SubscriptionError>(SubscriptionError::SubscriptionExpired)
            }),
    {
        if self.status != SubscriptionStatus::Active {
            return Err(SubscriptionError::SubscriptionExpired);
        }
        if now >= self.next_billing_at {
            return Err(SubscriptionError::SubscriptionExpired);
        }
        Ok(())
    }
}

} // verus!
