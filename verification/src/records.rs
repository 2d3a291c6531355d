use crate::address::Address;
use vstd::prelude::*;

verus! {

/// The longest name a plan may have, in characters.
pub const MAX_NAME_LEN: usize = 64;

/// Whether a subscription is still running. A cancelled one never runs again.
#[derive(Clone, Copy, Debug, PartialEq, Eq, Structural)]
pub enum SubscriptionStatus {
    Active,
    Cancelled,
}

impl Default for SubscriptionStatus {
    fn default() -> (status: SubscriptionStatus)
        ensures
            status == SubscriptionStatus::Active,
    {
        SubscriptionStatus::Active
    }
}

/// A merchant's offer: a price charged once per interval.
#[derive(Clone, Debug, PartialEq, Eq)]
pub struct Plan {
    pub merchant: Address,
    pub plan_id: u16,
    pub amount_lamports: u64,
    pub interval_secs: i64,
    pub name: String,
    pub active: bool,
    pub bump: u8,
}

/// One subscriber's enrolment in one plan. Price and interval are copied from
/// the plan when the subscription is opened and never read from it again.
#[derive(Clone, Copy, Debug, PartialEq, Eq)]
pub struct Subscription {
    pub subscriber: Address,
    pub plan: Address,
    pub amount_lamports: u64,
    pub interval_secs: i64,
    /// The end of the period that has been paid for.
    pub next_billing_at: i64,
    pub started_at: i64,
    pub status: SubscriptionStatus,
    pub auto_renew: bool,
    pub bump: u8,
}

/// A record together with the address at which it is kept.
#[derive(Clone, Debug, PartialEq, Eq)]
pub struct Account<T> {
    pub key: Address,
    pub data: T,
}

/// A movement of value that the caller has to carry out together with the
/// change of records it was returned with: both happen, or neither.
#[derive(Clone, Copy, Debug, PartialEq, Eq)]
pub struct Transfer {
    pub from: Address,
    pub to: Address,
    pub lamports: u64,
}

/// The destruction of a record, which the caller has to carry out: the
/// record at `record` goes, and what its storage cost goes to `refund_to`.
#[derive(Clone, Copy, Debug, PartialEq, Eq)]
pub struct Reclaim {
    pub record: Address,
    pub refund_to: Address,
}

/// What became of a transfer.
#[derive(Clone, Copy, Debug, PartialEq, Eq, Structural)]
pub enum Payment {
    Completed,
    InsufficientFunds,
}

} // verus!
