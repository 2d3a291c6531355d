use subscription_engine::address::{derive_plan_address, derive_subscription_address};
use subscription_engine::instructions::{
    check_merchant, check_plan_record, check_subscription_record, derived_is,
};
use subscription_engine::{
    Account, Address, EngineError, Plan, Subscription, SubscriptionStatus,
};

fn program() -> Address {
    Address::new([42u8; 32])
}

fn merchant() -> Address {
    Address::new([1u8; 32])
}

fn subscriber() -> Address {
    Address::new([2u8; 32])
}

fn stranger() -> Address {
    Address::new([3u8; 32])
}

fn plan_record(plan_id: u16) -> Account<Plan> {
    let (key, bump) = derive_plan_address(&merchant(), plan_id, &program()).unwrap();
    Account {
        key,
        data: Plan {
            merchant: merchant(),
            plan_id,
            amount_lamports: 5,
            interval_secs: 60,
            name: String::from("minute"),
            active: true,
            bump,
        },
    }
}

fn subscription_record(plan: &Address) -> Account<Subscription> {
    let (key, bump) = derive_subscription_address(&subscriber(), plan, &program()).unwrap();
    Account {
        key,
        data: Subscription {
            subscriber: subscriber(),
            plan: *plan,
            amount_lamports: 5,
            interval_secs: 60,
            next_billing_at: 60,
            started_at: 0,
            status: SubscriptionStatus::Active,
            auto_renew: true,
            bump,
        },
    }
}

#[test]
fn derived_is_compares_with_the_key() {
    assert!(derived_is(Some(merchant()), &merchant()));
    assert!(!derived_is(Some(merchant()), &stranger()));
    assert!(!derived_is(None, &merchant()));
}

#[test]
fn plan_record_in_order_passes() {
    assert_eq!(check_plan_record(&plan_record(9), &merchant(), 9, &program()), Ok(()));
}

#[test]
fn plan_record_address_is_tested_before_the_merchant() {
    let mut moved = plan_record(9);
    moved.key = stranger();
    moved.data.merchant = stranger();
    assert_eq!(
        check_plan_record(&moved, &merchant(), 9, &program()),
        Err(EngineError::AddressMismatch)
    );
    let mut renamed = plan_record(9);
    renamed.data.merchant = stranger();
    assert_eq!(
        check_plan_record(&renamed, &merchant(), 9, &program()),
        Err(EngineError::Unauthorized)
    );
}

#[test]
fn plan_record_under_another_id_bump_or_program_fails() {
    let plan = plan_record(9);
    assert_eq!(
        check_plan_record(&plan, &merchant(), 10, &program()),
        Err(EngineError::AddressMismatch)
    );
    assert_eq!(
        check_plan_record(&plan, &merchant(), 9, &stranger()),
        Err(EngineError::AddressMismatch)
    );
    let mut other_bump = plan_record(9);
    other_bump.data.bump = other_bump.data.bump.wrapping_sub(1);
    assert_eq!(
        check_plan_record(&other_bump, &merchant(), 9, &program()),
        Err(EngineError::AddressMismatch)
    );
}

#[test]
fn subscription_record_in_order_passes() {
    let plan = plan_record(9);
    let subscription = subscription_record(&plan.key);
    assert_eq!(
        check_subscription_record(&subscription, &subscriber(), &plan.key, &program()),
        Ok(())
    );
}

#[test]
fn subscription_record_of_another_subscriber_or_plan_fails() {
    let plan = plan_record(9);
    let subscription = subscription_record(&plan.key);
    assert_eq!(
        check_subscription_record(&subscription, &stranger(), &plan.key, &program()),
        Err(EngineError::AddressMismatch)
    );
    assert_eq!(
        check_subscription_record(&subscription, &subscriber(), &plan_record(10).key, &program()),
        Err(EngineError::AddressMismatch)
    );
    let mut renamed = subscription_record(&plan.key);
    renamed.data.subscriber = stranger();
    assert_eq!(
        check_subscription_record(&renamed, &subscriber(), &plan.key, &program()),
        Err(EngineError::Unauthorized)
    );
}

#[test]
fn merchant_has_to_be_the_plans() {
    let plan = plan_record(9);
    assert_eq!(check_merchant(&plan.data, &merchant()), Ok(()));
    assert_eq!(check_merchant(&plan.data, &stranger()), Err(EngineError::Unauthorized));
}
