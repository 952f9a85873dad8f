//! The ledger as mathematics.
//!
//! [`Ledger`] is the state of the escrow seen from outside: who the admin is,
//! the fee rate, the two id counters, who is a provider, and what every plan,
//! subscription and balance holds. Each operation of the escrow is given here
//! as a function from a ledger and the call's arguments to the ledger that
//! results, together with the reason, if any, for which the call is refused.
//! The executable escrow is proved to follow these functions step by step.
//!
//! Slots that were never written read as zero: an address that never received
//! anything has balance 0, a plan id that was never issued has provider 0.

use crate::error::SubscriptionError;
use vstd::prelude::*;

verus! {

/// Basis points in the whole: a rate of 10000 takes all of a payment.
pub open spec fn bps_scale() -> nat {
    10000
}

/// The fee rate that setting up the ledger installs: 2.5 %.
pub open spec fn initial_fee_bps() -> nat {
    250
}

/// The longest provider name accepted, in characters.
pub open spec fn max_name_len() -> nat {
    100
}

/// How many plan ids a listing holds at most.
pub open spec fn listing_cap() -> nat {
    10
}

/// `a - b` where `b` does not exceed `a`, and zero otherwise.
pub open spec fn minus(a: nat, b: nat) -> nat {
    if a >= b {
        (a - b) as nat
    } else {
        0
    }
}

/// The part of `price` that the protocol keeps at a rate of `fee_bps` basis
/// points, rounded down.
pub open spec fn protocol_fee(price: nat, fee_bps: nat) -> nat {
    price * fee_bps / bps_scale()
}

/// The part of `price` that goes to the provider: what the fee leaves.
pub open spec fn provider_share(price: nat, fee_bps: nat) -> nat {
    minus(price, protocol_fee(price, fee_bps))
}

/// What a plan slot holds. A provider of zero means that there is no plan.
pub struct PlanRecord {
    pub provider: nat,
    pub price: nat,
    pub interval: nat,
}

/// What a subscription slot holds.
pub struct SubscriptionRecord {
    pub plan_id: nat,
    pub subscriber: nat,
    pub last_payment_time: nat,
    pub active: bool,
}

/// One entry of the event log.
pub enum EventRecord {
    ProviderRegistered { provider: nat, name: Seq<char> },
    PlanCreated { plan_id: nat, provider: nat, price: nat, interval: nat },
    SubscriptionCreated { subscription_id: nat, user: nat, plan_id: nat },
    PaymentProcessed { from: nat, to: nat, amount: nat, subscription_id: nat },
    ProviderEarnings { provider: nat, plan_id: nat, amount: nat },
    EscrowDeposit { user: nat, amount: nat, new_balance: nat },
    EscrowWithdrawal { user: nat, amount: nat, new_balance: nat },
}

/// A subscription whose first payment has been debited and awaits the transfer
/// to the provider.
pub struct PendingSubscriptionRecord {
    pub subscription_id: nat,
    pub subscriber: nat,
    pub plan_id: nat,
    pub provider: nat,
    pub provider_amount: nat,
    pub protocol_fee: nat,
    pub prior_balance: nat,
    pub started_at: nat,
}

/// A recurring payment that has been debited and awaits the transfer to the
/// provider.
pub struct PendingPaymentRecord {
    pub subscription_id: nat,
    pub subscriber: nat,
    pub plan_id: nat,
    pub provider: nat,
    pub provider_amount: nat,
    pub protocol_fee: nat,
    pub prior_balance: nat,
    pub prior_payment_time: nat,
}

/// A withdrawal that has been debited and awaits the transfer to its owner.
pub struct PendingWithdrawalRecord {
    pub user: nat,
    pub amount: nat,
    pub prior_balance: nat,
}

/// The state of the escrow.
pub struct Ledger {
    pub admin: nat,
    pub fee_bps: nat,
    pub next_plan_id: nat,
    pub next_subscription_id: nat,
    pub providers: Set<nat>,
    pub plans: Map<nat, PlanRecord>,
    pub subscriptions: Map<nat, SubscriptionRecord>,
    pub balances: Map<nat, nat>,
    pub events: Seq<EventRecord>,
}

impl PlanRecord {
    /// The content of a plan slot that was never written.
    pub open spec fn absent() -> PlanRecord {
        PlanRecord { provider: 0, price: 0, interval: 0 }
    }
}

impl SubscriptionRecord {
    /// The content of a subscription slot that was never written.
    pub open spec fn absent() -> SubscriptionRecord {
        SubscriptionRecord { plan_id: 0, subscriber: 0, last_payment_time: 0, active: false }
    }
}

impl Ledger {
    /// The ledger before anything was written to it.
    pub open spec fn fresh() -> Ledger {
        Ledger {
            admin: 0,
            fee_bps: 0,
            next_plan_id: 0,
            next_subscription_id: 0,
            providers: Set::empty(),
            plans: Map::total(|id: nat| PlanRecord::absent()),
            subscriptions: Map::total(|id: nat| SubscriptionRecord::absent()),
            balances: Map::total(|a: nat| 0nat),
            events: Seq::empty(),
        }
    }

    /// The accounts that hold something.
    pub open spec fn funded(self) -> Set<nat> {
        Set::new(|a: nat| self.balances[a] != 0)
    }

    /// The sum of all escrow balances.
    pub open spec fn total_escrow(self) -> nat {
        held(self.balances, self.funded())
    }

    /// What holds of every ledger the escrow can be in: the fee never exceeds
    /// the payment it is taken from, finitely many accounts hold something,
    /// and every slot can be read.
    pub open spec fn valid(self) -> bool {
        &&& self.fee_bps <= bps_scale()
        &&& self.funded().finite()
        &&& forall|a: nat| self.balances.contains_key(a)
        &&& forall|id: nat| self.plans.contains_key(id)
        &&& forall|id: nat| self.subscriptions.contains_key(id)
    }

    // ---------------------------------------------------------------- setup

    /// Why `initialize` is refused, if it is: the admin is already set.
    pub open spec fn initialize_refusal(self) -> Option<SubscriptionError> {
        if self.admin != 0 {
            Some(SubscriptionError::InvalidInput)
        } else {
            None
        }
    }

    /// The ledger after `caller` asked to set it up.
    pub open spec fn initialize(self, caller: nat) -> Ledger {
        if self.initialize_refusal() is Some {
            self
        } else {
            Ledger {
                admin: caller,
                next_plan_id: 1,
                next_subscription_id: 1,
                fee_bps: initial_fee_bps(),
                ..self
            }
        }
    }

    // ------------------------------------------------------------ providers

    /// Why `register_provider` is refused, if it is: the name is too long or
    /// the caller is a provider already.
    pub open spec fn register_provider_refusal(self, caller: nat, name: Seq<char>) -> Option<
        SubscriptionError,
    > {
        if name.len() > max_name_len() || self.providers.contains(caller) {
            Some(SubscriptionError::InvalidInput)
        } else {
            None
        }
    }

    /// The ledger after `caller` asked to become a provider.
    pub open spec fn register_provider(self, caller: nat, name: Seq<char>) -> Ledger {
        if self.register_provider_refusal(caller, name) is Some {
            self
        } else {
            Ledger {
                providers: self.providers.insert(caller),
                events: self.events.push(
                    EventRecord::ProviderRegistered { provider: caller, name },
                ),
                ..self
            }
        }
    }

    // ---------------------------------------------------------------- plans

    /// Why `create_plan` is refused, if it is.
    pub open spec fn create_plan_refusal(self, caller: nat, price: nat, interval: nat) -> Option<
        SubscriptionError,
    > {
        if !self.providers.contains(caller) {
            Some(SubscriptionError::Unauthorized)
        } else if price == 0 || interval == 0 {
            Some(SubscriptionError::InvalidInput)
        } else {
            None
        }
    }

    /// The ledger after `caller` asked to publish a plan. The plan takes the
    /// next plan id.
    pub open spec fn create_plan(self, caller: nat, price: nat, interval: nat) -> Ledger {
        if self.create_plan_refusal(caller, price, interval) is Some {
            self
        } else {
            Ledger {
                plans: self.plans.insert(
                    self.next_plan_id,
                    PlanRecord { provider: caller, price, interval },
                ),
                next_plan_id: self.next_plan_id + 1,
                events: self.events.push(
                    EventRecord::PlanCreated {
                        plan_id: self.next_plan_id,
                        provider: caller,
                        price,
                        interval,
                    },
                ),
                ..self
            }
        }
    }

    /// The ids from 1 up to, not including, `bound` whose plan has a provider,
    /// in ascending order.
    pub open spec fn plans_below(self, bound: nat) -> Seq<nat>
        decreases bound,
    {
        if bound <= 1 {
            Seq::empty()
        } else {
            let id = (bound - 1) as nat;
            let before = self.plans_below(id);
            if self.plans[id].provider != 0 {
                before.push(id)
            } else {
                before
            }
        }
    }

    /// The plans below a smaller bound come first among the plans below a
    /// larger one.
    pub proof fn lemma_plans_below_prefix(self, lo: nat, hi: nat)
        requires
            lo <= hi,
        ensures
            self.plans_below(lo).len() <= self.plans_below(hi).len(),
            self.plans_below(hi).subrange(0, self.plans_below(lo).len() as int)
                == self.plans_below(lo),
        decreases hi,
    {
        if lo < hi && hi > 1 {
            self.lemma_plans_below_prefix(lo, (hi - 1) as nat);
        }
    }

    /// The marketplace listing: the first `listing_cap()` ids of existing plans
    /// below the next plan id, in ascending order.
    pub open spec fn plan_listing(self) -> Seq<nat> {
        let all = self.plans_below(self.next_plan_id);
        if all.len() <= listing_cap() {
            all
        } else {
            all.subrange(0, listing_cap() as int)
        }
    }

    // -------------------------------------------------------------- deposit

    /// Why `deposit` is refused, if it is: no value came with the call.
    pub open spec fn deposit_refusal(self, payment: nat) -> Option<SubscriptionError> {
        if payment == 0 {
            Some(SubscriptionError::InvalidInput)
        } else {
            None
        }
    }

    /// The ledger after `caller` deposited `payment`.
    pub open spec fn deposit(self, caller: nat, payment: nat) -> Ledger {
        if self.deposit_refusal(payment) is Some {
            self
        } else {
            Ledger {
                balances: self.balances.insert(caller, self.balances[caller] + payment),
                events: self.events.push(
                    EventRecord::EscrowDeposit {
                        user: caller,
                        amount: payment,
                        new_balance: self.balances[caller] + payment,
                    },
                ),
                ..self
            }
        }
    }

    // ------------------------------------------------------------- withdraw

    /// Why `withdraw` is refused, if it is: nothing was asked for, or more than
    /// the caller holds.
    pub open spec fn withdraw_refusal(self, caller: nat, amount: nat) -> Option<
        SubscriptionError,
    > {
        if amount == 0 || self.balances[caller] < amount {
            Some(SubscriptionError::InsufficientFunds)
        } else {
            None
        }
    }

    /// The withdrawal that awaits its transfer once `withdraw` was accepted.
    pub open spec fn withdraw_pending(self, caller: nat, amount: nat) -> PendingWithdrawalRecord {
        PendingWithdrawalRecord { user: caller, amount, prior_balance: self.balances[caller] }
    }

    /// The ledger after `caller` asked to withdraw `amount`: debited where the
    /// call was accepted, unchanged where it was refused.
    pub open spec fn withdraw(self, caller: nat, amount: nat) -> Ledger {
        if self.withdraw_refusal(caller, amount) is Some {
            self
        } else {
            Ledger {
                balances: self.balances.insert(caller, minus(self.balances[caller], amount)),
                ..self
            }
        }
    }

    /// The ledger after the transfer of a pending withdrawal succeeded or
    /// failed: logged in the first case, the debit undone in the second.
    pub open spec fn settle_withdraw(self, p: PendingWithdrawalRecord, transfer_ok: bool) -> Ledger {
        if transfer_ok {
            Ledger {
                events: self.events.push(
                    EventRecord::EscrowWithdrawal {
                        user: p.user,
                        amount: p.amount,
                        new_balance: minus(p.prior_balance, p.amount),
                    },
                ),
                ..self
            }
        } else {
            Ledger { balances: self.balances.insert(p.user, p.prior_balance), ..self }
        }
    }

    // ------------------------------------------------------------ subscribe

    /// Why `subscribe` is refused, if it is: the plan does not exist, or the
    /// caller's balance, with the payment that came with the call, does not
    /// cover the price.
    pub open spec fn subscribe_refusal(self, caller: nat, payment: nat, plan_id: nat) -> Option<
        SubscriptionError,
    > {
        if self.plans[plan_id].provider == 0 {
            Some(SubscriptionError::NotFound)
        } else if self.balances[caller] + payment < self.plans[plan_id].price {
            Some(SubscriptionError::InsufficientFunds)
        } else {
            None
        }
    }

    /// The subscription that awaits its transfer once `subscribe` was accepted.
    pub open spec fn subscribe_pending(
        self,
        caller: nat,
        now: nat,
        plan_id: nat,
    ) -> PendingSubscriptionRecord {
        let plan = self.plans[plan_id];
        PendingSubscriptionRecord {
            subscription_id: self.next_subscription_id,
            subscriber: caller,
            plan_id,
            provider: plan.provider,
            provider_amount: provider_share(plan.price, self.fee_bps),
            protocol_fee: protocol_fee(plan.price, self.fee_bps),
            prior_balance: self.balances[caller],
            started_at: now,
        }
    }

    /// The ledger after `caller` asked to subscribe to `plan_id` and sent
    /// `payment` along: the payment credited and the price debited where the
    /// call was accepted, unchanged where it was refused.
    pub open spec fn subscribe(self, caller: nat, payment: nat, plan_id: nat) -> Ledger {
        if self.subscribe_refusal(caller, payment, plan_id) is Some {
            self
        } else {
            Ledger {
                balances: self.balances.insert(
                    caller,
                    minus(self.balances[caller] + payment, self.plans[plan_id].price),
                ),
                ..self
            }
        }
    }

    /// The ledger after the transfer of a pending subscription succeeded or
    /// failed. On success the subscription is recorded as active, the counter
    /// moves on and three events are logged. On failure the subscriber's
    /// balance is what it was before the call.
    pub open spec fn settle_subscribe(
        self,
        p: PendingSubscriptionRecord,
        transfer_ok: bool,
    ) -> Ledger {
        if transfer_ok {
            Ledger {
                subscriptions: self.subscriptions.insert(
                    p.subscription_id,
                    SubscriptionRecord {
                        plan_id: p.plan_id,
                        subscriber: p.subscriber,
                        last_payment_time: p.started_at,
                        active: true,
                    },
                ),
                next_subscription_id: p.subscription_id + 1,
                events: self.events.push(
                    EventRecord::SubscriptionCreated {
                        subscription_id: p.subscription_id,
                        user: p.subscriber,
                        plan_id: p.plan_id,
                    },
                ).push(
                    EventRecord::PaymentProcessed {
                        from: p.subscriber,
                        to: p.provider,
                        amount: p.provider_amount,
                        subscription_id: p.subscription_id,
                    },
                ).push(
                    EventRecord::ProviderEarnings {
                        provider: p.provider,
                        plan_id: p.plan_id,
                        amount: p.provider_amount,
                    },
                ),
                ..self
            }
        } else {
            Ledger { balances: self.balances.insert(p.subscriber, p.prior_balance), ..self }
        }
    }

    // ---------------------------------------------------- recurring payment

    /// Whether the subscription's next payment has come due at time `now`.
    pub open spec fn payment_due(self, now: nat, subscription_id: nat) -> bool {
        let sub = self.subscriptions[subscription_id];
        now >= sub.last_payment_time + self.plans[sub.plan_id].interval
    }

    /// Why `process_subscription_payment` is refused, if it is: the
    /// subscription is not active, the payment is not yet due, or the
    /// subscriber cannot pay.
    pub open spec fn payment_refusal(self, now: nat, subscription_id: nat) -> Option<
        SubscriptionError,
    > {
        let sub = self.subscriptions[subscription_id];
        if !sub.active {
            Some(SubscriptionError::InvalidInput)
        } else if !self.payment_due(now, subscription_id) {
            Some(SubscriptionError::InvalidInput)
        } else if self.balances[sub.subscriber] < self.plans[sub.plan_id].price {
            Some(SubscriptionError::InsufficientFunds)
        } else {
            None
        }
    }

    /// The payment that awaits its transfer once
    /// `process_subscription_payment` was accepted.
    pub open spec fn payment_pending(self, subscription_id: nat) -> PendingPaymentRecord {
        let sub = self.subscriptions[subscription_id];
        let plan = self.plans[sub.plan_id];
        PendingPaymentRecord {
            subscription_id,
            subscriber: sub.subscriber,
            plan_id: sub.plan_id,
            provider: plan.provider,
            provider_amount: provider_share(plan.price, self.fee_bps),
            protocol_fee: protocol_fee(plan.price, self.fee_bps),
            prior_balance: self.balances[sub.subscriber],
            prior_payment_time: sub.last_payment_time,
        }
    }

    /// The ledger after someone asked to charge `subscription_id` at time
    /// `now`. Accepted: the price is debited and the payment time moves to
    /// `now`. Refused for want of funds: the subscription is switched off, for
    /// good. Refused otherwise: unchanged.
    pub open spec fn process_subscription_payment(self, now: nat, subscription_id: nat) -> Ledger {
        let sub = self.subscriptions[subscription_id];
        match self.payment_refusal(now, subscription_id) {
            Some(SubscriptionError::InsufficientFunds) => Ledger {
                subscriptions: self.subscriptions.insert(
                    subscription_id,
                    SubscriptionRecord { active: false, ..sub },
                ),
                ..self
            },
            Some(_) => self,
            None => Ledger {
                balances: self.balances.insert(
                    sub.subscriber,
                    minus(self.balances[sub.subscriber], self.plans[sub.plan_id].price),
                ),
                subscriptions: self.subscriptions.insert(
                    subscription_id,
                    SubscriptionRecord { last_payment_time: now, ..sub },
                ),
                ..self
            },
        }
    }

    /// The ledger after the transfer of a pending payment succeeded or failed.
    /// On success two events are logged. On failure the subscriber's balance
    /// and the payment time are what they were before the call, so that the
    /// payment is due at once.
    pub open spec fn settle_payment(self, p: PendingPaymentRecord, transfer_ok: bool) -> Ledger {
        if transfer_ok {
            Ledger {
                events: self.events.push(
                    EventRecord::PaymentProcessed {
                        from: p.subscriber,
                        to: p.provider,
                        amount: p.provider_amount,
                        subscription_id: p.subscription_id,
                    },
                ).push(
                    EventRecord::ProviderEarnings {
                        provider: p.provider,
                        plan_id: p.plan_id,
                        amount: p.provider_amount,
                    },
                ),
                ..self
            }
        } else {
            Ledger {
                balances: self.balances.insert(p.subscriber, p.prior_balance),
                subscriptions: self.subscriptions.insert(
                    p.subscription_id,
                    SubscriptionRecord {
                        last_payment_time: p.prior_payment_time,
                        ..self.subscriptions[p.subscription_id]
                    },
                ),
                ..self
            }
        }
    }

    /// What a settlement returns to the caller: the transfer's failure is an
    /// `InvalidInput`.
    pub open spec fn settle_refusal(transfer_ok: bool) -> Option<SubscriptionError> {
        if transfer_ok {
            None
        } else {
            Some(SubscriptionError::InvalidInput)
        }
    }
}

/// One complete call to the escrow, with what the host supplied: the caller,
/// the value and time that came with the call, and, where the call pays out,
/// whether the transfer went through.
pub enum Call {
    Initialize { caller: nat },
    RegisterProvider { caller: nat, name: Seq<char> },
    CreatePlan { caller: nat, price: nat, interval: nat },
    Deposit { caller: nat, payment: nat },
    Withdraw { caller: nat, amount: nat, transfer_ok: bool },
    Subscribe { caller: nat, payment: nat, now: nat, plan_id: nat, transfer_ok: bool },
    ProcessSubscriptionPayment { now: nat, subscription_id: nat, transfer_ok: bool },
}

impl Ledger {
    /// Why the call fails, if it does: refused at once, or accepted and then
    /// undone because the transfer failed.
    pub open spec fn failure(self, call: Call) -> Option<SubscriptionError> {
        match call {
            Call::Initialize { caller } => self.initialize_refusal(),
            Call::RegisterProvider { caller, name } => self.register_provider_refusal(caller, name),
            Call::CreatePlan { caller, price, interval } => self.create_plan_refusal(
                caller,
                price,
                interval,
            ),
            Call::Deposit { caller, payment } => self.deposit_refusal(payment),
            Call::Withdraw { caller, amount, transfer_ok } => match self.withdraw_refusal(
                caller,
                amount,
            ) {
                Some(e) => Some(e),
                None => Self::settle_refusal(transfer_ok),
            },
            Call::Subscribe {
                caller,
                payment,
                now,
                plan_id,
                transfer_ok,
            } => match self.subscribe_refusal(caller, payment, plan_id) {
                Some(e) => Some(e),
                None => Self::settle_refusal(transfer_ok),
            },
            Call::ProcessSubscriptionPayment {
                now,
                subscription_id,
                transfer_ok,
            } => match self.payment_refusal(now, subscription_id) {
                Some(e) => Some(e),
                None => Self::settle_refusal(transfer_ok),
            },
        }
    }

    /// The ledger after the call, settlement included.
    pub open spec fn step(self, call: Call) -> Ledger {
        match call {
            Call::Initialize { caller } => self.initialize(caller),
            Call::RegisterProvider { caller, name } => self.register_provider(caller, name),
            Call::CreatePlan { caller, price, interval } => self.create_plan(
                caller,
                price,
                interval,
            ),
            Call::Deposit { caller, payment } => self.deposit(caller, payment),
            Call::Withdraw { caller, amount, transfer_ok } => if self.withdraw_refusal(
                caller,
                amount,
            ) is Some {
                self
            } else {
                self.withdraw(caller, amount).settle_withdraw(
                    self.withdraw_pending(caller, amount),
                    transfer_ok,
                )
            },
            Call::Subscribe { caller, payment, now, plan_id, transfer_ok } => if self.subscribe_refusal(
                caller,
                payment,
                plan_id,
            ) is Some {
                self
            } else {
                self.subscribe(caller, payment, plan_id).settle_subscribe(
                    self.subscribe_pending(caller, now, plan_id),
                    transfer_ok,
                )
            },
            Call::ProcessSubscriptionPayment {
                now,
                subscription_id,
                transfer_ok,
            } => if self.payment_refusal(now, subscription_id) is Some {
                self.process_subscription_payment(now, subscription_id)
            } else {
                self.process_subscription_payment(now, subscription_id).settle_payment(
                    self.payment_pending(subscription_id),
                    transfer_ok,
                )
            },
        }
    }

    /// The accounts whose balance the call can change: the caller's for a
    /// deposit, a withdrawal or a new subscription, the subscriber's for a
    /// recurring payment, none for the rest.
    pub open spec fn accounts_touched(self, call: Call) -> Set<nat> {
        match call {
            Call::Deposit { caller, payment } => set![caller],
            Call::Withdraw { caller, amount, transfer_ok } => set![caller],
            Call::Subscribe { caller, payment, now, plan_id, transfer_ok } => set![caller],
            Call::ProcessSubscriptionPayment { now, subscription_id, transfer_ok } => set![
                self.subscriptions[subscription_id].subscriber,
            ],
            _ => Set::empty(),
        }
    }

    /// The value that the call brought into escrow: what came with a deposit
    /// or a new subscription, where the call succeeded.
    pub open spec fn value_in(self, call: Call) -> nat {
        if self.failure(call) is Some {
            0
        } else {
            match call {
                Call::Deposit { caller, payment } => payment,
                Call::Subscribe { caller, payment, now, plan_id, transfer_ok } => payment,
                _ => 0,
            }
        }
    }

    /// The value that the call paid out of escrow: the amount withdrawn, or
    /// what the provider received, where the call succeeded.
    pub open spec fn value_out(self, call: Call) -> nat {
        if self.failure(call) is Some {
            0
        } else {
            match call {
                Call::Withdraw { caller, amount, transfer_ok } => amount,
                Call::Subscribe {
                    caller,
                    payment,
                    now,
                    plan_id,
                    transfer_ok,
                } => self.subscribe_pending(caller, now, plan_id).provider_amount,
                Call::ProcessSubscriptionPayment {
                    now,
                    subscription_id,
                    transfer_ok,
                } => self.payment_pending(subscription_id).provider_amount,
                _ => 0,
            }
        }
    }

    /// The protocol fee that the call took out of escrow and kept, where the
    /// call succeeded.
    pub open spec fn fee_kept(self, call: Call) -> nat {
        if self.failure(call) is Some {
            0
        } else {
            match call {
                Call::Subscribe {
                    caller,
                    payment,
                    now,
                    plan_id,
                    transfer_ok,
                } => self.subscribe_pending(caller, now, plan_id).protocol_fee,
                Call::ProcessSubscriptionPayment {
                    now,
                    subscription_id,
                    transfer_ok,
                } => self.payment_pending(subscription_id).protocol_fee,
                _ => 0,
            }
        }
    }

    /// The ledger after the calls, one after the other.
    pub open spec fn run(self, calls: Seq<Call>) -> Ledger
        decreases calls.len(),
    {
        if calls.len() == 0 {
            self
        } else {
            self.run(calls.drop_last()).step(calls.last())
        }
    }

    /// The value that the calls brought into escrow, in all.
    pub open spec fn run_value_in(self, calls: Seq<Call>) -> nat
        decreases calls.len(),
    {
        if calls.len() == 0 {
            0
        } else {
            self.run_value_in(calls.drop_last()) + self.run(calls.drop_last()).value_in(
                calls.last(),
            )
        }
    }

    /// The value that the calls paid out of escrow, in all.
    pub open spec fn run_value_out(self, calls: Seq<Call>) -> nat
        decreases calls.len(),
    {
        if calls.len() == 0 {
            0
        } else {
            self.run_value_out(calls.drop_last()) + self.run(calls.drop_last()).value_out(
                calls.last(),
            )
        }
    }

    /// The protocol fees that the calls kept, in all.
    pub open spec fn run_fee_kept(self, calls: Seq<Call>) -> nat
        decreases calls.len(),
    {
        if calls.len() == 0 {
            0
        } else {
            self.run_fee_kept(calls.drop_last()) + self.run(calls.drop_last()).fee_kept(
                calls.last(),
            )
        }
    }

    /// Whether `accounts` holds every account that any of the calls touches.
    pub open spec fn run_within(self, calls: Seq<Call>, accounts: Set<nat>) -> bool
        decreases calls.len(),
    {
        if calls.len() == 0 {
            true
        } else {
            self.run_within(calls.drop_last(), accounts) && self.run(
                calls.drop_last(),
            ).accounts_touched(calls.last()).subset_of(accounts)
        }
    }
}

/// The sum of the balances of `accounts`.
pub open spec fn held(balances: Map<nat, nat>, accounts: Set<nat>) -> nat
    decreases accounts.len(),
    when accounts.finite()
{
    if accounts.len() == 0 {
        0
    } else {
        let a = accounts.choose();
        balances[a] + held(balances, accounts.remove(a))
    }
}

} // verus!
