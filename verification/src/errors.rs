use vstd::prelude::*;

verus! {

/// Why the billing rules turned an operation down.
#[derive(Clone, Copy, Debug, PartialEq, Eq, Structural)]
pub enum SubscriptionError {
    /// The billing interval is zero or negative.
    InvalidInterval,
    /// The plan no longer takes subscriptions or renewals.
    PlanInactive,
    /// The plan has to be deactivated before it can be closed.
    PlanStillActive,
    /// The subscription is not in the status that the operation needs.
    NotActive,
    /// The paid period has not ended yet.
    RenewalTooEarly,
    /// The next billing time would leave the range of a timestamp.
    Overflow,
    /// The subscription is cancelled or its paid period is over.
    SubscriptionExpired,
    /// The plan's name has more than 64 characters.
    NameTooLong,
}

/// Why an operation failed: the records handed in were not the right ones,
/// the payment did not go through, or a billing rule said no.
#[derive(Clone, Copy, Debug, PartialEq, Eq, Structural)]
pub enum EngineError {
    /// A record does not sit at the address that its defining tuple derives.
    AddressMismatch,
    /// The caller, or the merchant named, is not the one the record names.
    Unauthorized,
    /// The payer's balance did not cover the transfer.
    InsufficientFunds,
    /// A billing rule was violated.
    Rule(SubscriptionError),
}

impl SubscriptionError {
    /// The sentence shown to a user for this error.
    pub fn message(&self) -> (text: &'static str)
        ensures
            text@ == self.message_text(),
    {
        match self {
            SubscriptionError::InvalidInterval => "Billing interval must be greater than zero",
            SubscriptionError::PlanInactive => "This plan is no longer accepting subscriptions",
            SubscriptionError::PlanStillActive => "Deactivate the plan first, then close it to reclaim rent",
            SubscriptionError::NotActive => "This subscription is not active (cancelled or closed)",
            SubscriptionError::RenewalTooEarly => "Wait until your next billing date to renew. Check My Subscriptions for the date.",
            SubscriptionError::Overflow => "An overflow occurred. Please try again.",
            SubscriptionError::SubscriptionExpired => "Subscription has expired or is inactive",
            SubscriptionError::NameTooLong => "Plan name must be 64 characters or less",
        }
    }

    pub open spec fn message_text(&self) -> Seq<char> {
        match self {
            SubscriptionError::InvalidInterval => "Billing interval must be greater than zero"@,
            SubscriptionError::PlanInactive => "This plan is no longer accepting subscriptions"@,
            SubscriptionError::PlanStillActive => "Deactivate the plan first, then close it to reclaim rent"@,
            SubscriptionError::NotActive => "This subscription is not active (cancelled or closed)"@,
            SubscriptionError::RenewalTooEarly => "Wait until your next billing date to renew. Check My Subscriptions for the date."@,
            SubscriptionError::Overflow => "An overflow occurred. Please try again."@,
            SubscriptionError::SubscriptionExpired => "Subscription has expired or is inactive"@,
            SubscriptionError::NameTooLong => "Plan name must be 64 characters or less"@,
        }
    }
}

} // verus!
