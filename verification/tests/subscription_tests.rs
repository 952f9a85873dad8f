use subscription_escrow::{
    Address, Event, PendingPayment, PendingSubscription, Subscription, SubscriptionError,
    SubscriptionEscrow, U256,
};

fn n(x: u64) -> U256 {
    U256::from_u64(x)
}

fn who(x: u64) -> Address {
    Address::from_u64(x)
}

const ADMIN: u64 = 1;
const PROVIDER: u64 = 2;
const USER: u64 = 3;
const DAY: u64 = 86400;
const START: u64 = 1_700_000_000;

fn with_plan(price: u64, interval: u64) -> (SubscriptionEscrow, U256) {
    let mut escrow = SubscriptionEscrow::new();
    assert_eq!(escrow.initialize(who(ADMIN)), Ok(true));
    assert_eq!(escrow.register_provider(who(PROVIDER), String::from("acme")), Ok(true));
    let plan_id = escrow
        .create_plan(who(PROVIDER), n(price), n(interval), String::from("hash"))
        .unwrap();
    escrow.take_events();
    (escrow, plan_id)
}

fn subscribed(price: u64, interval: u64, payment: u64) -> (SubscriptionEscrow, U256) {
    let (mut escrow, plan_id) = with_plan(price, interval);
    let pending = escrow.subscribe(who(USER), n(payment), START, plan_id).unwrap();
    let id = escrow.settle_subscribe(pending, true).unwrap();
    escrow.take_events();
    (escrow, id)
}

#[test]
fn subscribe_to_a_missing_plan_is_refused() {
    let (mut escrow, _) = with_plan(1000, DAY);
    escrow.deposit(who(USER), n(50)).unwrap();
    assert_eq!(
        escrow.subscribe(who(USER), n(5000), START, n(2)),
        Err(SubscriptionError::NotFound)
    );
    assert_eq!(
        escrow.subscribe(who(USER), n(5000), START, n(0)),
        Err(SubscriptionError::NotFound)
    );
    assert_eq!(escrow.get_user_balance(who(USER)), n(50));
    assert_eq!(escrow.next_subscription_id(), n(1));
}

#[test]
fn subscribe_without_the_price_is_refused() {
    let (mut escrow, plan_id) = with_plan(1000, DAY);
    escrow.deposit(who(USER), n(400)).unwrap();
    escrow.take_events();
    assert_eq!(
        escrow.subscribe(who(USER), n(599), START, plan_id),
        Err(SubscriptionError::InsufficientFunds)
    );
    assert_eq!(escrow.get_user_balance(who(USER)), n(400));
    assert_eq!(escrow.next_subscription_id(), n(1));
    assert!(!escrow.subscription(n(1)).active);
    assert!(escrow.events().is_empty());
}

#[test]
fn subscribe_credits_the_payment_before_it_debits_the_price() {
    let (mut escrow, plan_id) = with_plan(1000, DAY);
    escrow.deposit(who(USER), n(400)).unwrap();
    let pending = escrow.subscribe(who(USER), n(700), START, plan_id).unwrap();
    assert_eq!(pending.prior_balance, n(400));
    assert_eq!(escrow.get_user_balance(who(USER)), n(100));
}

#[test]
fn subscribe_draws_on_the_escrow_balance() {
    let (mut escrow, plan_id) = with_plan(1000, DAY);
    escrow.deposit(who(USER), n(2500)).unwrap();
    let first = escrow.subscribe(who(USER), n(0), START, plan_id).unwrap();
    assert_eq!(escrow.settle_subscribe(first, true), Ok(n(1)));
    let second = escrow.subscribe(who(USER), n(0), START + 1, plan_id).unwrap();
    assert_eq!(escrow.settle_subscribe(second, true), Ok(n(2)));
    assert_eq!(escrow.get_user_balance(who(USER)), n(500));
    assert_eq!(
        escrow.subscribe(who(USER), n(0), START + 2, plan_id),
        Err(SubscriptionError::InsufficientFunds)
    );
    assert_eq!(escrow.next_subscription_id(), n(3));
}

#[test]
fn subscribe_hands_back_what_the_host_is_to_transfer() {
    let (mut escrow, plan_id) = with_plan(1000, DAY);
    assert_eq!(
        escrow.subscribe(who(USER), n(1000), START, plan_id),
        Ok(PendingSubscription {
            subscription_id: n(1),
            subscriber: who(USER),
            plan_id,
            provider: who(PROVIDER),
            provider_amount: n(975),
            protocol_fee: n(25),
            prior_balance: n(0),
            started_at: START,
        })
    );
}

#[test]
fn subscribe_splits_a_small_price_without_a_fee() {
    let (mut escrow, plan_id) = with_plan(3, DAY);
    let pending = escrow.subscribe(who(USER), n(3), START, plan_id).unwrap();
    assert_eq!(pending.protocol_fee, n(0));
    assert_eq!(pending.provider_amount, n(3));
}

#[test]
fn settle_subscribe_records_the_subscription_and_logs_three_events() {
    let (mut escrow, plan_id) = with_plan(1000, DAY);
    let pending = escrow.subscribe(who(USER), n(1000), START, plan_id).unwrap();
    assert_eq!(escrow.next_subscription_id(), n(1));
    assert!(!escrow.subscription(n(1)).active);
    assert_eq!(escrow.settle_subscribe(pending, true), Ok(n(1)));
    assert_eq!(escrow.next_subscription_id(), n(2));
    assert_eq!(
        escrow.subscription(n(1)),
        Subscription {
            plan_id,
            subscriber: who(USER),
            last_payment_time: START,
            active: true
        }
    );
    assert_eq!(
        escrow.take_events(),
        vec![
            Event::SubscriptionCreated { subscription_id: n(1), user: who(USER), plan_id },
            Event::PaymentProcessed {
                from: who(USER),
                to: who(PROVIDER),
                amount: n(975),
                subscription_id: n(1)
            },
            Event::ProviderEarnings { provider: who(PROVIDER), plan_id, amount: n(975) },
        ]
    );
}

#[test]
fn settle_subscribe_undoes_the_call_where_the_transfer_fails() {
    let (mut escrow, plan_id) = with_plan(1000, DAY);
    escrow.deposit(who(USER), n(400)).unwrap();
    escrow.take_events();
    let pending = escrow.subscribe(who(USER), n(700), START, plan_id).unwrap();
    assert_eq!(escrow.settle_subscribe(pending, false), Err(SubscriptionError::InvalidInput));
    assert_eq!(escrow.get_user_balance(who(USER)), n(400));
    assert_eq!(escrow.next_subscription_id(), n(1));
    assert_eq!(
        escrow.subscription(n(1)),
        Subscription {
            plan_id: n(0),
            subscriber: Address::zero(),
            last_payment_time: 0,
            active: false
        }
    );
    assert!(escrow.events().is_empty());
}

#[test]
fn subscribe_before_setup_takes_no_fee_and_id_zero() {
    let mut escrow = SubscriptionEscrow::new();
    escrow.register_provider(who(PROVIDER), String::new()).unwrap();
    let plan_id = escrow.create_plan(who(PROVIDER), n(1000), n(DAY), String::new()).unwrap();
    let pending = escrow.subscribe(who(USER), n(1000), START, plan_id).unwrap();
    assert_eq!(pending.protocol_fee, n(0));
    assert_eq!(pending.provider_amount, n(1000));
    assert_eq!(escrow.settle_subscribe(pending, true), Ok(n(0)));
    assert_eq!(escrow.next_subscription_id(), n(1));
}

#[test]
fn end_to_end() {
    let mut escrow = SubscriptionEscrow::new();
    assert_eq!(escrow.initialize(who(ADMIN)), Ok(true));
    assert_eq!(escrow.register_provider(who(PROVIDER), String::from("acme")), Ok(true));
    let plan_id = escrow
        .create_plan(who(PROVIDER), n(1000), n(86400), String::from("hash"))
        .unwrap();
    assert_eq!(plan_id, n(1));
    let pending = escrow.subscribe(who(USER), n(1000), START, plan_id).unwrap();
    assert_eq!(pending.provider, who(PROVIDER));
    assert_eq!(pending.provider_amount, n(975));
    assert_eq!(escrow.settle_subscribe(pending, true), Ok(n(1)));
    assert!(escrow.subscription(n(1)).active);
    assert_eq!(escrow.get_user_balance(who(USER)), n(0));
    assert_eq!(
        escrow.process_subscription_payment(START + 86400, n(1)),
        Err(SubscriptionError::InsufficientFunds)
    );
    assert!(!escrow.subscription(n(1)).active);
}

#[test]
fn payment_before_it_is_due_is_refused() {
    let (mut escrow, id) = subscribed(1000, DAY, 5000);
    assert_eq!(
        escrow.process_subscription_payment(START + DAY - 1, id),
        Err(SubscriptionError::InvalidInput)
    );
    assert_eq!(
        escrow.process_subscription_payment(START, id),
        Err(SubscriptionError::InvalidInput)
    );
    assert_eq!(escrow.subscription(id).last_payment_time, START);
    assert!(escrow.subscription(id).active);
    assert_eq!(escrow.get_user_balance(who(USER)), n(4000));
}

#[test]
fn payment_is_due_once_the_interval_has_passed() {
    let (mut escrow, id) = subscribed(1000, DAY, 5000);
    assert!(escrow.process_subscription_payment(START + DAY, id).is_ok());
}

#[test]
fn payment_without_funds_switches_the_subscription_off() {
    let (mut escrow, id) = subscribed(1000, DAY, 1999);
    assert_eq!(escrow.get_user_balance(who(USER)), n(999));
    assert_eq!(
        escrow.process_subscription_payment(START + DAY, id),
        Err(SubscriptionError::InsufficientFunds)
    );
    assert_eq!(
        escrow.subscription(id),
        Subscription {
            plan_id: n(1),
            subscriber: who(USER),
            last_payment_time: START,
            active: false
        }
    );
    assert_eq!(escrow.get_user_balance(who(USER)), n(999));
    assert!(escrow.events().is_empty());
    assert_eq!(
        escrow.process_subscription_payment(START + DAY, id),
        Err(SubscriptionError::InvalidInput)
    );
    escrow.deposit(who(USER), n(5000)).unwrap();
    assert_eq!(
        escrow.process_subscription_payment(START + 2 * DAY, id),
        Err(SubscriptionError::InvalidInput)
    );
    assert!(!escrow.subscription(id).active);
}

#[test]
fn payment_on_an_unknown_subscription_is_refused() {
    let (mut escrow, _) = subscribed(1000, DAY, 5000);
    assert_eq!(
        escrow.process_subscription_payment(START + DAY, n(2)),
        Err(SubscriptionError::InvalidInput)
    );
    assert_eq!(
        escrow.process_subscription_payment(START + DAY, n(0)),
        Err(SubscriptionError::InvalidInput)
    );
}

#[test]
fn payment_debits_the_subscriber_and_moves_the_payment_time() {
    let (mut escrow, id) = subscribed(1000, DAY, 5000);
    let now = START + DAY + 17;
    let pending = escrow.process_subscription_payment(now, id).unwrap();
    assert_eq!(
        pending,
        PendingPayment {
            subscription_id: id,
            subscriber: who(USER),
            plan_id: n(1),
            provider: who(PROVIDER),
            provider_amount: n(975),
            protocol_fee: n(25),
            prior_balance: n(4000),
            prior_payment_time: START,
        }
    );
    assert_eq!(escrow.get_user_balance(who(USER)), n(3000));
    assert_eq!(escrow.subscription(id).last_payment_time, now);
    assert!(escrow.events().is_empty());
    assert_eq!(escrow.settle_payment(pending, true), Ok(true));
    assert_eq!(escrow.get_user_balance(who(USER)), n(3000));
    assert_eq!(
        escrow.take_events(),
        vec![
            Event::PaymentProcessed {
                from: who(USER),
                to: who(PROVIDER),
                amount: n(975),
                subscription_id: id
            },
            Event::ProviderEarnings { provider: who(PROVIDER), plan_id: n(1), amount: n(975) },
        ]
    );
    assert_eq!(
        escrow.process_subscription_payment(now + DAY - 1, id),
        Err(SubscriptionError::InvalidInput)
    );
    assert!(escrow.process_subscription_payment(now + DAY, id).is_ok());
}

#[test]
fn payment_is_undone_where_the_transfer_fails_and_can_be_tried_again() {
    let (mut escrow, id) = subscribed(1000, DAY, 5000);
    let now = START + DAY;
    let pending = escrow.process_subscription_payment(now, id).unwrap();
    assert_eq!(escrow.settle_payment(pending, false), Err(SubscriptionError::InvalidInput));
    assert_eq!(escrow.get_user_balance(who(USER)), n(4000));
    assert_eq!(
        escrow.subscription(id),
        Subscription {
            plan_id: n(1),
            subscriber: who(USER),
            last_payment_time: START,
            active: true
        }
    );
    assert!(escrow.events().is_empty());
    let again = escrow.process_subscription_payment(now, id).unwrap();
    assert_eq!(escrow.settle_payment(again, true), Ok(true));
    assert_eq!(escrow.get_user_balance(who(USER)), n(3000));
}

#[test]
fn payment_with_exactly_the_price_leaves_nothing() {
    let (mut escrow, id) = subscribed(1000, DAY, 2000);
    let pending = escrow.process_subscription_payment(START + DAY, id).unwrap();
    assert_eq!(escrow.settle_payment(pending, true), Ok(true));
    assert_eq!(escrow.get_user_balance(who(USER)), n(0));
    assert!(escrow.subscription(id).active);
}

#[test]
fn payment_on_the_longest_interval_never_comes_due() {
    let mut escrow = SubscriptionEscrow::new();
    escrow.initialize(who(ADMIN)).unwrap();
    escrow.register_provider(who(PROVIDER), String::new()).unwrap();
    let forever = U256 { limbs: [u64::MAX, u64::MAX, u64::MAX, u64::MAX] };
    let plan_id = escrow.create_plan(who(PROVIDER), n(10), forever, String::new()).unwrap();
    let pending = escrow.subscribe(who(USER), n(100), START, plan_id).unwrap();
    let id = escrow.settle_subscribe(pending, true).unwrap();
    assert_eq!(
        escrow.process_subscription_payment(u64::MAX, id),
        Err(SubscriptionError::InvalidInput)
    );
    assert!(escrow.subscription(id).active);
}

#[test]
fn value_is_conserved_over_a_run() {
    let (mut escrow, plan_id) = with_plan(1000, DAY);
    let other = who(4);
    let mut came_in: u64 = 0;
    let mut went_out: u64 = 0;
    let mut fees: u64 = 0;

    escrow.deposit(who(USER), n(2600)).unwrap();
    came_in += 2600;
    escrow.deposit(other, n(300)).unwrap();
    came_in += 300;

    let pending = escrow.subscribe(who(USER), n(0), START, plan_id).unwrap();
    escrow.settle_subscribe(pending, true).unwrap();
    went_out += 975;
    fees += 25;

    let pending = escrow.subscribe(other, n(700), START, plan_id).unwrap();
    escrow.settle_subscribe(pending, true).unwrap();
    came_in += 700;
    went_out += 975;
    fees += 25;

    let pending = escrow.subscribe(other, n(1000), START, plan_id).unwrap();
    assert!(escrow.settle_subscribe(pending, false).is_err());

    let pending = escrow.process_subscription_payment(START + DAY, n(1)).unwrap();
    escrow.settle_payment(pending, true).unwrap();
    went_out += 975;
    fees += 25;

    assert!(escrow.process_subscription_payment(START + DAY, n(2)).is_err());

    let pending = escrow.withdraw(who(USER), n(100)).unwrap();
    escrow.settle_withdraw(pending, true).unwrap();
    went_out += 100;

    let pending = escrow.withdraw(who(USER), n(100)).unwrap();
    assert!(escrow.settle_withdraw(pending, false).is_err());

    assert_eq!(escrow.get_user_balance(who(USER)), n(500));
    assert_eq!(escrow.get_user_balance(other), n(0));
    assert_eq!(500 + 0 + went_out + fees, came_in);
}
