use subscription_engine::{
    Address, Plan, Subscription, SubscriptionError, SubscriptionStatus, MAX_NAME_LEN,
};

fn party(tag: u8) -> Address {
    Address::new([tag; 32])
}

fn monthly_plan(active: bool) -> Plan {
    Plan {
        merchant: party(1),
        plan_id: 7,
        amount_lamports: 1000,
        interval_secs: 2_592_000,
        name: String::from("monthly"),
        active,
        bump: 254,
    }
}

fn running(next_billing_at: i64, status: SubscriptionStatus) -> Subscription {
    Subscription {
        subscriber: party(2),
        plan: party(3),
        amount_lamports: 1000,
        interval_secs: 2_592_000,
        next_billing_at,
        started_at: 0,
        status,
        auto_renew: true,
        bump: 253,
    }
}

#[test]
fn plan_create_fills_every_field() {
    let plan = Plan::create(party(1), 7, 1000, 2_592_000, String::from("monthly"), 254).unwrap();
    assert_eq!(plan, monthly_plan(true));
}

#[test]
fn plan_create_rejects_zero_and_negative_interval() {
    assert_eq!(
        Plan::create(party(1), 7, 1000, 0, String::from("x"), 1),
        Err(SubscriptionError::InvalidInterval)
    );
    assert_eq!(
        Plan::create(party(1), 7, 1000, -5, String::from("x"), 1),
        Err(SubscriptionError::InvalidInterval)
    );
    assert_eq!(
        Plan::create(party(1), 7, 1000, i64::MIN, String::from("x"), 1),
        Err(SubscriptionError::InvalidInterval)
    );
}

#[test]
fn plan_create_accepts_smallest_interval() {
    let plan = Plan::create(party(1), 0, 0, 1, String::new(), 0).unwrap();
    assert_eq!(plan.interval_secs, 1);
    assert!(plan.active);
}

#[test]
fn plan_name_of_64_characters_is_accepted() {
    let name = "n".repeat(64);
    let plan = Plan::create(party(1), 7, 1000, 60, name.clone(), 1).unwrap();
    assert_eq!(plan.name, name);
    assert_eq!(MAX_NAME_LEN, 64);
}

#[test]
fn plan_name_of_65_characters_is_too_long() {
    assert_eq!(
        Plan::create(party(1), 7, 1000, 60, "n".repeat(65), 1),
        Err(SubscriptionError::NameTooLong)
    );
}

#[test]
fn plan_name_is_counted_in_characters() {
    let name = "\u{e9}".repeat(64);
    assert_eq!(name.len(), 128);
    assert!(Plan::create(party(1), 7, 1000, 60, name, 1).is_ok());
    assert_eq!(
        Plan::create(party(1), 7, 1000, 60, "\u{e9}".repeat(65), 1),
        Err(SubscriptionError::NameTooLong)
    );
}

#[test]
fn interval_is_tested_before_name() {
    assert_eq!(
        Plan::create(party(1), 7, 1000, 0, "n".repeat(100), 1),
        Err(SubscriptionError::InvalidInterval)
    );
}

#[test]
fn plan_deactivate_only_clears_active() {
    let mut plan = monthly_plan(true);
    plan.deactivate();
    assert_eq!(plan, monthly_plan(false));
    plan.deactivate();
    assert_eq!(plan, monthly_plan(false));
}

#[test]
fn plan_closable_only_when_inactive() {
    assert_eq!(monthly_plan(true).closable(), Err(SubscriptionError::PlanStillActive));
    assert_eq!(monthly_plan(false).closable(), Ok(()));
}

#[test]
fn open_snapshots_price_and_interval() {
    let plan = monthly_plan(true);
    let subscription = Subscription::open(party(2), party(3), &plan, 500, 253).unwrap();
    assert_eq!(
        subscription,
        Subscription {
            subscriber: party(2),
            plan: party(3),
            amount_lamports: 1000,
            interval_secs: 2_592_000,
            next_billing_at: 2_592_500,
            started_at: 500,
            status: SubscriptionStatus::Active,
            auto_renew: true,
            bump: 253,
        }
    );
}

#[test]
fn open_on_inactive_plan_fails() {
    let plan = monthly_plan(false);
    assert_eq!(
        Subscription::open(party(2), party(3), &plan, 0, 253),
        Err(SubscriptionError::PlanInactive)
    );
}

#[test]
fn open_at_the_last_time_that_fits() {
    let plan = monthly_plan(true);
    let now = i64::MAX - 2_592_000;
    let subscription = Subscription::open(party(2), party(3), &plan, now, 1).unwrap();
    assert_eq!(subscription.next_billing_at, i64::MAX);
}

#[test]
fn open_beyond_the_last_time_that_fits_is_an_overflow() {
    let plan = monthly_plan(true);
    assert_eq!(
        Subscription::open(party(2), party(3), &plan, i64::MAX - 2_592_000 + 1, 1),
        Err(SubscriptionError::Overflow)
    );
    assert_eq!(
        Subscription::open(party(2), party(3), &plan, i64::MAX, 1),
        Err(SubscriptionError::Overflow)
    );
    assert_eq!(
        Subscription::open(party(2), party(3), &monthly_plan(false), i64::MAX, 1),
        Err(SubscriptionError::PlanInactive)
    );
}

#[test]
fn open_with_a_negative_interval_below_the_first_timestamp_is_an_overflow() {
    let mut plan = monthly_plan(true);
    plan.interval_secs = -1;
    assert_eq!(
        Subscription::open(party(2), party(3), &plan, i64::MIN, 1),
        Err(SubscriptionError::Overflow)
    );
}

#[test]
fn renewal_due_refuses_what_could_not_be_advanced() {
    let active = SubscriptionStatus::Active;
    let last = running(i64::MAX - 2_592_000, active);
    assert_eq!(last.renewal_due(&monthly_plan(true), i64::MAX), Ok(1000));
    let beyond = running(i64::MAX - 2_592_000 + 1, active);
    assert_eq!(
        beyond.renewal_due(&monthly_plan(true), i64::MAX),
        Err(SubscriptionError::Overflow)
    );
    assert_eq!(
        beyond.renewal_due(&monthly_plan(false), i64::MAX),
        Err(SubscriptionError::PlanInactive)
    );
    assert_eq!(
        beyond.renewal_due(&monthly_plan(true), 0),
        Err(SubscriptionError::RenewalTooEarly)
    );
    assert_eq!(
        running(i64::MAX, SubscriptionStatus::Cancelled).renewal_due(&monthly_plan(true), i64::MAX),
        Err(SubscriptionError::NotActive)
    );
}

#[test]
fn access_for_all_four_combinations() {
    let active = SubscriptionStatus::Active;
    let cancelled = SubscriptionStatus::Cancelled;
    assert_eq!(running(100, active).check_access(99), Ok(()));
    assert_eq!(running(100, active).check_access(100), Err(SubscriptionError::SubscriptionExpired));
    assert_eq!(running(100, cancelled).check_access(99), Err(SubscriptionError::SubscriptionExpired));
    assert_eq!(running(100, cancelled).check_access(100), Err(SubscriptionError::SubscriptionExpired));
    assert_eq!(running(100, active).check_access(101), Err(SubscriptionError::SubscriptionExpired));
}

#[test]
fn renewal_due_checks_status_then_time_then_plan() {
    let active = SubscriptionStatus::Active;
    let cancelled = SubscriptionStatus::Cancelled;
    assert_eq!(
        running(100, cancelled).renewal_due(&monthly_plan(false), 50),
        Err(SubscriptionError::NotActive)
    );
    assert_eq!(
        running(100, active).renewal_due(&monthly_plan(false), 99),
        Err(SubscriptionError::RenewalTooEarly)
    );
    assert_eq!(
        running(100, active).renewal_due(&monthly_plan(false), 100),
        Err(SubscriptionError::PlanInactive)
    );
    assert_eq!(running(100, active).renewal_due(&monthly_plan(true), 100), Ok(1000));
}

#[test]
fn renewal_charges_the_snapshot_not_the_plan() {
    let mut plan = monthly_plan(true);
    plan.amount_lamports = 9999;
    assert_eq!(
        running(100, SubscriptionStatus::Active).renewal_due(&plan, 100),
        Ok(1000)
    );
}

#[test]
fn advance_moves_exactly_one_interval() {
    let mut subscription = running(2_592_000, SubscriptionStatus::Active);
    assert_eq!(subscription.advance(), Ok(()));
    assert_eq!(subscription, running(5_184_000, SubscriptionStatus::Active));
}

#[test]
fn advance_overflow_changes_nothing() {
    let mut subscription = running(i64::MAX - 2_591_999, SubscriptionStatus::Active);
    assert_eq!(subscription.advance(), Err(SubscriptionError::Overflow));
    assert_eq!(subscription, running(i64::MAX - 2_591_999, SubscriptionStatus::Active));
    let mut last = running(i64::MAX - 2_592_000, SubscriptionStatus::Active);
    assert_eq!(last.advance(), Ok(()));
    assert_eq!(last.next_billing_at, i64::MAX);
}

#[test]
fn cancel_then_cancel_again() {
    let mut subscription = running(100, SubscriptionStatus::Active);
    assert_eq!(subscription.cancel(), Ok(()));
    assert_eq!(subscription, running(100, SubscriptionStatus::Cancelled));
    assert_eq!(subscription.cancel(), Err(SubscriptionError::NotActive));
    assert_eq!(subscription, running(100, SubscriptionStatus::Cancelled));
}

#[test]
fn subscription_closable_only_when_cancelled() {
    assert_eq!(
        running(100, SubscriptionStatus::Active).closable(),
        Err(SubscriptionError::NotActive)
    );
    assert_eq!(running(100, SubscriptionStatus::Cancelled).closable(), Ok(()));
}

#[test]
fn cancelled_subscription_keeps_no_access_but_period_is_kept() {
    let mut subscription = running(100, SubscriptionStatus::Active);
    subscription.cancel().unwrap();
    assert_eq!(subscription.next_billing_at, 100);
    assert_eq!(subscription.check_access(10), Err(SubscriptionError::SubscriptionExpired));
}

#[test]
fn status_defaults_to_active() {
    assert_eq!(SubscriptionStatus::default(), SubscriptionStatus::Active);
}

#[test]
fn every_error_has_its_message() {
    assert_eq!(
        SubscriptionError::InvalidInterval.message(),
        "Billing interval must be greater than zero"
    );
    assert_eq!(
        SubscriptionError::PlanInactive.message(),
        "This plan is no longer accepting subscriptions"
    );
    assert_eq!(
        SubscriptionError::PlanStillActive.message(),
        "Deactivate the plan first, then close it to reclaim rent"
    );
    assert_eq!(
        SubscriptionError::NotActive.message(),
        "This subscription is not active (cancelled or closed)"
    );
    assert_eq!(
        SubscriptionError::RenewalTooEarly.message(),
        "Wait until your next billing date to renew. Check My Subscriptions for the date."
    );
    assert_eq!(SubscriptionError::Overflow.message(), "An overflow occurred. Please try again.");
    assert_eq!(
        SubscriptionError::SubscriptionExpired.message(),
        "Subscription has expired or is inactive"
    );
    assert_eq!(
        SubscriptionError::NameTooLong.message(),
        "Plan name must be 64 characters or less"
    );
}

#[test]
fn address_same_compares_every_byte() {
    let a = party(9);
    let mut bytes = [9u8; 32];
    assert!(a.same(&Address::new(bytes)));
    bytes[31] = 8;
    assert!(!a.same(&Address::new(bytes)));
    bytes[31] = 9;
    bytes[0] = 0;
    assert!(!a.same(&Address::new(bytes)));
    assert_eq!(a.to_bytes(), [9u8; 32]);
}
