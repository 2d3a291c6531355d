//! A recurring-billing engine: merchants publish plans, subscribers pay for
//! one period at a time, and anybody may ask whether a subscription is
//! currently entitled to access.
//!
//! Records live at addresses derived from the tuple that defines them, so the
//! engine needs no directory. Clock readings and value transfers are done by
//! the caller; every operation here is a function from records and a clock
//! reading to the next records and the payment that has to accompany them.

pub mod address;
pub mod billing;
pub mod errors;
pub mod instructions;
pub mod laws;
pub mod records;

pub use address::Address;
pub use errors::{EngineError, SubscriptionError};
pub use instructions::{
    cancel, check_access, close_plan, close_subscription, create_plan, create_subscription,
    deactivate_plan, renew, settle_renewal, settle_subscription, Cancel, CheckAccess, ClosePlan, CloseSubscription,
    CreatePlan, CreateSubscription, DeactivatePlan, Renew,
};
pub use records::{
    Account, Payment, Plan, Reclaim, Subscription, SubscriptionStatus, Transfer, MAX_NAME_LEN,
};
