//! The events that the escrow logs for those who follow it from outside.

use crate::address::Address;
use crate::model::EventRecord;
use crate::uint::U256;
use vstd::prelude::*;

verus! {

/// One logged event. The fields of each variant are given in the order in
/// which they are reported.
#[derive(Debug, PartialEq, Eq)]
pub enum Event {
    /// A caller became a provider under `name`.
    ProviderRegistered { provider: Address, name: String },
    /// A provider published a plan.
    PlanCreated { plan_id: U256, provider: Address, price: U256, interval: U256 },
    /// A subscriber took out a subscription to a plan.
    SubscriptionCreated { subscription_id: U256, user: Address, plan_id: U256 },
    /// A payment of `amount` went from a subscriber to a provider.
    PaymentProcessed { from: Address, to: Address, amount: U256, subscription_id: U256 },
    /// A provider earned `amount` on a plan.
    ProviderEarnings { provider: Address, plan_id: U256, amount: U256 },
    /// A user put `amount` into escrow and now holds `new_balance`.
    EscrowDeposit { user: Address, amount: U256, new_balance: U256 },
    /// A user took `amount` out of escrow and now holds `new_balance`.
    EscrowWithdrawal { user: Address, amount: U256, new_balance: U256 },
}

impl View for Event {
    type V = EventRecord;

    open spec fn view(&self) -> EventRecord {
        match *self {
            Event::ProviderRegistered { provider, name } => EventRecord::ProviderRegistered {
                provider: provider@,
                name: name@,
            },
            Event::PlanCreated { plan_id, provider, price, interval } => EventRecord::PlanCreated {
                plan_id: plan_id@,
                provider: provider@,
                price: price@,
                interval: interval@,
            },
            Event::SubscriptionCreated {
                subscription_id,
                user,
                plan_id,
            } => EventRecord::SubscriptionCreated {
                subscription_id: subscription_id@,
                user: user@,
                plan_id: plan_id@,
            },
            Event::PaymentProcessed {
                from,
                to,
                amount,
                subscription_id,
            } => EventRecord::PaymentProcessed {
                from: from@,
                to: to@,
                amount: amount@,
                subscription_id: subscription_id@,
            },
            Event::ProviderEarnings { provider, plan_id, amount } => EventRecord::ProviderEarnings {
                provider: provider@,
                plan_id: plan_id@,
                amount: amount@,
            },
            Event::EscrowDeposit { user, amount, new_balance } => EventRecord::EscrowDeposit {
                user: user@,
                amount: amount@,
                new_balance: new_balance@,
            },
            Event::EscrowWithdrawal { user, amount, new_balance } => EventRecord::EscrowWithdrawal {
                user: user@,
                amount: amount@,
                new_balance: new_balance@,
            },
        }
    }
}

} // verus!
