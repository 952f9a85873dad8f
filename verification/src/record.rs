//! The records that the escrow stores and hands out.

use crate::address::Address;
use crate::model::{
    PendingPaymentRecord, PendingSubscriptionRecord, PendingWithdrawalRecord, PlanRecord,
    SubscriptionRecord,
};
use crate::uint::U256;
use vstd::prelude::*;

verus! {

/// A recurring charge that a provider offers. A provider of zero means that
/// the slot is empty.
#[derive(Clone, Copy, Debug, PartialEq, Eq)]
pub struct Plan {
    pub provider: Address,
    pub price: U256,
    pub interval: U256,
}

impl View for Plan {
    type V = PlanRecord;

    open spec fn view(&self) -> PlanRecord {
        PlanRecord { provider: self.provider@, price: self.price@, interval: self.interval@ }
    }
}

/// The binding of one subscriber to one plan.
#[derive(Clone, Copy, Debug, PartialEq, Eq)]
pub struct Subscription {
    pub plan_id: U256,
    pub subscriber: Address,
    pub last_payment_time: u64,
    pub active: bool,
}

impl View for Subscription {
    type V = SubscriptionRecord;

    open spec fn view(&self) -> SubscriptionRecord {
        SubscriptionRecord {
            plan_id: self.plan_id@,
            subscriber: self.subscriber@,
            last_payment_time: self.last_payment_time as nat,
            active: self.active,
        }
    }
}

/// A subscription whose first payment has been debited. The host is to
/// transfer `provider_amount` to `provider` and report back how that went.
#[derive(Clone, Copy, Debug, PartialEq, Eq)]
pub struct PendingSubscription {
    pub subscription_id: U256,
    pub subscriber: Address,
    pub plan_id: U256,
    pub provider: Address,
    pub provider_amount: U256,
    pub protocol_fee: U256,
    pub prior_balance: U256,
    pub started_at: u64,
}

impl View for PendingSubscription {
    type V = PendingSubscriptionRecord;

    open spec fn view(&self) -> PendingSubscriptionRecord {
        PendingSubscriptionRecord {
            subscription_id: self.subscription_id@,
            subscriber: self.subscriber@,
            plan_id: self.plan_id@,
            provider: self.provider@,
            provider_amount: self.provider_amount@,
            protocol_fee: self.protocol_fee@,
            prior_balance: self.prior_balance@,
            started_at: self.started_at as nat,
        }
    }
}

/// A recurring payment that has been debited. The host is to transfer
/// `provider_amount` to `provider` and report back how that went.
#[derive(Clone, Copy, Debug, PartialEq, Eq)]
pub struct PendingPayment {
    pub subscription_id: U256,
    pub subscriber: Address,
    pub plan_id: U256,
    pub provider: Address,
    pub provider_amount: U256,
    pub protocol_fee: U256,
    pub prior_balance: U256,
    pub prior_payment_time: u64,
}

impl View for PendingPayment {
    type V = PendingPaymentRecord;

    open spec fn view(&self) -> PendingPaymentRecord {
        PendingPaymentRecord {
            subscription_id: self.subscription_id@,
            subscriber: self.subscriber@,
            plan_id: self.plan_id@,
            provider: self.provider@,
            provider_amount: self.provider_amount@,
            protocol_fee: self.protocol_fee@,
            prior_balance: self.prior_balance@,
            prior_payment_time: self.prior_payment_time as nat,
        }
    }
}

/// A withdrawal that has been debited. The host is to transfer `amount` to
/// `user` and report back how that went.
#[derive(Clone, Copy, Debug, PartialEq, Eq)]
pub struct PendingWithdrawal {
    pub user: Address,
    pub amount: U256,
    pub prior_balance: U256,
}

impl View for PendingWithdrawal {
    type V = PendingWithdrawalRecord;

    open spec fn view(&self) -> PendingWithdrawalRecord {
        PendingWithdrawalRecord {
            user: self.user@,
            amount: self.amount@,
            prior_balance: self.prior_balance@,
        }
    }
}

} // verus!
