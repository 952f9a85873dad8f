//! The escrow: the ledger's tables and the operations on them.
//!
//! The escrow does not talk to the outside itself. Whoever runs it supplies,
//! with each call, what the host knows: who is calling, how much value came
//! along, what time it is. Where an operation pays out, it debits first and
//! hands back a pending record; the host attempts the transfer and reports the
//! outcome to the matching `settle_` operation, which either completes the
//! operation or undoes the debit.
//!
//! A call that is refused leaves the ledger as it was. The one exception is a
//! recurring payment refused for want of funds, which switches the
//! subscription off.

use crate::address::Address;
use crate::error::SubscriptionError;
use crate::event::Event;
use crate::fee::split_payment;
use crate::model::{Ledger, PlanRecord, SubscriptionRecord};
use crate::record::{PendingPayment, PendingSubscription, PendingWithdrawal, Plan, Subscription};
use crate::table::Table;
use crate::uint::U256;
use vstd::prelude::*;

verus! {

/// The subscription escrow: provider registry, plan catalog, subscriptions,
/// escrow balances and the event log.
pub struct SubscriptionEscrow {
    admin: Address,
    fee_bps: u64,
    next_plan_id: U256,
    next_subscription_id: U256,
    providers: Table<bool>,
    plans: Table<Plan>,
    subscriptions: Table<Subscription>,
    balances: Table<U256>,
    events: Vec<Event>,
}

impl View for SubscriptionEscrow {
    type V = Ledger;

    /// The ledger that the stored tables stand for.
    closed spec fn view(&self) -> Ledger {
        Ledger {
            admin: self.admin@,
            fee_bps: self.fee_bps as nat,
            next_plan_id: self.next_plan_id@,
            next_subscription_id: self.next_subscription_id@,
            providers: Set::new(|a: nat| self.providers@.contains_key(a) && self.providers@[a]),
            plans: Map::total(
                |id: nat|
                    if self.plans@.contains_key(id) {
                        self.plans@[id]@
                    } else {
                        PlanRecord::absent()
                    },
            ),
            subscriptions: Map::total(
                |id: nat|
                    if self.subscriptions@.contains_key(id) {
                        self.subscriptions@[id]@
                    } else {
                        SubscriptionRecord::absent()
                    },
            ),
            balances: Map::total(
                |a: nat|
                    if self.balances@.contains_key(a) {
                        self.balances@[a]@
                    } else {
                        0nat
                    },
            ),
            events: records(self.events@),
        }
    }
}

/// The numbers that a sequence of ids stands for.
pub open spec fn numbers(ids: Seq<U256>) -> Seq<nat> {
    ids.map_values(|id: U256| id@)
}

/// The log entries that a sequence of events stands for.
pub open spec fn records(events: Seq<Event>) -> Seq<crate::model::EventRecord> {
    events.map_values(|e: Event| e@)
}

impl SubscriptionEscrow {
    /// The escrow's invariant: its tables are in order and the fee rate is at
    /// most the whole.
    pub closed spec fn wf(&self) -> bool {
        &&& self.providers.wf()
        &&& self.plans.wf()
        &&& self.subscriptions.wf()
        &&& self.balances.wf()
        &&& self.fee_bps <= 10000
    }

    /// A well-formed escrow stands for a valid ledger, and every number in it
    /// fits in 256 bits.
    pub proof fn lemma_view_valid(&self)
        requires
            self.wf(),
        ensures
            self@.valid(),
            self@.next_plan_id <= U256::max_value(),
            self@.next_subscription_id <= U256::max_value(),
            forall|a: nat| #[trigger] self@.balances[a] <= U256::max_value(),
    {
        self.next_plan_id.lemma_bounded();
        self.next_subscription_id.lemma_bounded();
        self.balances.lemma_finite();
        vstd::set_lib::lemma_len_subset(self@.funded(), self.balances@.dom());
        assert forall|a: nat| #[trigger] self@.balances[a] <= U256::max_value() by {
            if self.balances@.contains_key(a) {
                self.balances@[a].lemma_bounded();
            }
        }
    }

    /// An escrow on which nothing has happened yet: no admin, no fee, both
    /// counters at zero, every table empty.
    pub fn new() -> (r: SubscriptionEscrow)
        ensures
            r.wf(),
            r@ == Ledger::fresh(),
    {
        let r = SubscriptionEscrow {
            admin: Address::zero(),
            fee_bps: 0,
            next_plan_id: U256::zero(),
            next_subscription_id: U256::zero(),
            providers: Table::new(),
            plans: Table::new(),
            subscriptions: Table::new(),
            balances: Table::new(),
            events: Vec::new(),
        };
        assert(r@.providers =~= Ledger::fresh().providers);
        assert(r@.plans =~= Ledger::fresh().plans);
        assert(r@.subscriptions =~= Ledger::fresh().subscriptions);
        assert(r@.balances =~= Ledger::fresh().balances);
        assert(r@.events =~= Ledger::fresh().events);
        r
    }

    // ------------------------------------------------------ table access

    fn balance(&self, user: &Address) -> (r: U256)
        requires
            self.wf(),
        ensures
            r@ == self@.balances[user@],
    {
        match self.balances.get(&user.word) {
            Some(b) => b,
            None => U256::zero(),
        }
    }

    fn set_balance(&mut self, user: &Address, amount: U256)
        requires
            old(self).wf(),
        ensures
            final(self).wf(),
            final(self)@ == (Ledger {
                balances: old(self)@.balances.insert(user@, amount@),
                ..old(self)@
            }),
    {
        self.balances.insert(user.word, amount);
        assert(self@.balances =~= old(self)@.balances.insert(user@, amount@));
    }

    fn plan_at(&self, plan_id: &U256) -> (r: Plan)
        requires
            self.wf(),
        ensures
            r@ == self@.plans[plan_id@],
    {
        match self.plans.get(plan_id) {
            Some(p) => p,
            None => Plan { provider: Address::zero(), price: U256::zero(), interval: U256::zero() },
        }
    }

    fn subscription_at(&self, subscription_id: &U256) -> (r: Subscription)
        requires
            self.wf(),
        ensures
            r@ == self@.subscriptions[subscription_id@],
    {
        match self.subscriptions.get(subscription_id) {
            Some(s) => s,
            None => Subscription {
                plan_id: U256::zero(),
                subscriber: Address::zero(),
                last_payment_time: 0,
                active: false,
            },
        }
    }

    fn set_subscription(&mut self, subscription_id: U256, subscription: Subscription)
        requires
            old(self).wf(),
        ensures
            final(self).wf(),
            final(self)@ == (Ledger {
                subscriptions: old(self)@.subscriptions.insert(subscription_id@, subscription@),
                ..old(self)@
            }),
    {
        self.subscriptions.insert(subscription_id, subscription);
        assert(self@.subscriptions =~= old(self)@.subscriptions.insert(
            subscription_id@,
            subscription@,
        ));
    }

    fn emit(&mut self, event: Event)
        requires
            old(self).wf(),
        ensures
            final(self).wf(),
            final(self)@ == (Ledger { events: old(self)@.events.push(event@), ..old(self)@ }),
    {
        self.events.push(event);
        assert(self@.events =~= old(self)@.events.push(event@));
    }

    // ------------------------------------------------------------ queries

    /// The escrow balance of `user`; zero for one who never held any.
    pub fn get_user_balance(&self, user: Address) -> (r: U256)
        requires
            self.wf(),
        ensures
            r@ == self@.balances[user@],
    {
        self.balance(&user)
    }

    /// Whether `provider` has registered.
    pub fn is_provider_registered(&self, provider: Address) -> (r: bool)
        requires
            self.wf(),
        ensures
            r == self@.providers.contains(provider@),
    {
        match self.providers.get(&provider.word) {
            Some(registered) => registered,
            None => false,
        }
    }

    /// The admin; zero while the escrow has not been set up.
    pub fn admin(&self) -> (r: Address)
        ensures
            r@ == self@.admin,
    {
        self.admin
    }

    /// The protocol fee rate, in basis points.
    pub fn fee_bps(&self) -> (r: u64)
        requires
            self.wf(),
        ensures
            r == self@.fee_bps,
            r <= 10000,
    {
        self.fee_bps
    }

    /// The id that the next plan will take.
    pub fn next_plan_id(&self) -> (r: U256)
        ensures
            r@ == self@.next_plan_id,
    {
        self.next_plan_id
    }

    /// The id that the next subscription will take.
    pub fn next_subscription_id(&self) -> (r: U256)
        ensures
            r@ == self@.next_subscription_id,
    {
        self.next_subscription_id
    }

    /// What the plan slot `plan_id` holds; all zero where no plan was created
    /// under that id.
    pub fn plan(&self, plan_id: U256) -> (r: Plan)
        requires
            self.wf(),
        ensures
            r@ == self@.plans[plan_id@],
    {
        self.plan_at(&plan_id)
    }

    /// What the subscription slot `subscription_id` holds; all zero and
    /// inactive where no subscription was created under that id.
    pub fn subscription(&self, subscription_id: U256) -> (r: Subscription)
        requires
            self.wf(),
        ensures
            r@ == self@.subscriptions[subscription_id@],
    {
        self.subscription_at(&subscription_id)
    }

    /// The events logged since the log was last taken, oldest first.
    pub fn events(&self) -> (r: &Vec<Event>)
        ensures
            records(r@) == self@.events,
    {
        &self.events
    }

    /// Takes the logged events out, oldest first, and leaves the log empty.
    pub fn take_events(&mut self) -> (r: Vec<Event>)
        requires
            old(self).wf(),
        ensures
            final(self).wf(),
            records(r@) == old(self)@.events,
            final(self)@ == (Ledger { events: Seq::empty(), ..old(self)@ }),
    {
        let mut taken: Vec<Event> = Vec::new();
        core::mem::swap(&mut self.events, &mut taken);
        assert(self@.events =~= Seq::empty());
        taken
    }

    // ------------------------------------------------------ stored state

    /// An escrow with the given settings and empty tables, for a host that
    /// keeps the ledger's slots itself and hands over those a call needs.
    /// `None` where the fee rate exceeds the whole.
    pub fn resume(
        admin: Address,
        fee_bps: u64,
        next_plan_id: U256,
        next_subscription_id: U256,
    ) -> (r: Option<SubscriptionEscrow>)
        ensures
            match r {
                Some(escrow) => escrow.wf() && fee_bps <= 10000 && escrow@ == (Ledger {
                    admin: admin@,
                    fee_bps: fee_bps as nat,
                    next_plan_id: next_plan_id@,
                    next_subscription_id: next_subscription_id@,
                    ..Ledger::fresh()
                }),
                None => fee_bps > 10000,
            },
    {
        if fee_bps > 10000 {
            return None;
        }
        let escrow = SubscriptionEscrow {
            admin,
            fee_bps,
            next_plan_id,
            next_subscription_id,
            providers: Table::new(),
            plans: Table::new(),
            subscriptions: Table::new(),
            balances: Table::new(),
            events: Vec::new(),
        };
        assert(escrow@.providers =~= Ledger::fresh().providers);
        assert(escrow@.plans =~= Ledger::fresh().plans);
        assert(escrow@.subscriptions =~= Ledger::fresh().subscriptions);
        assert(escrow@.balances =~= Ledger::fresh().balances);
        assert(escrow@.events =~= Ledger::fresh().events);
        Some(escrow)
    }

    /// Writes the provider slot of `provider`.
    pub fn put_provider(&mut self, provider: Address, registered: bool)
        requires
            old(self).wf(),
        ensures
            final(self).wf(),
            final(self)@ == (Ledger {
                providers: if registered {
                    old(self)@.providers.insert(provider@)
                } else {
                    old(self)@.providers.remove(provider@)
                },
                ..old(self)@
            }),
    {
        self.providers.insert(provider.word, registered);
        if registered {
            assert(self@.providers =~= old(self)@.providers.insert(provider@));
        } else {
            assert(self@.providers =~= old(self)@.providers.remove(provider@));
        }
    }

    /// Writes the plan slot `plan_id`.
    pub fn put_plan(&mut self, plan_id: U256, plan: Plan)
        requires
            old(self).wf(),
        ensures
            final(self).wf(),
            final(self)@ == (Ledger {
                plans: old(self)@.plans.insert(plan_id@, plan@),
                ..old(self)@
            }),
    {
        self.plans.insert(plan_id, plan);
        assert(self@.plans =~= old(self)@.plans.insert(plan_id@, plan@));
    }

    /// Writes the subscription slot `subscription_id`.
    pub fn put_subscription(&mut self, subscription_id: U256, subscription: Subscription)
        requires
            old(self).wf(),
        ensures
            final(self).wf(),
            final(self)@ == (Ledger {
                subscriptions: old(self)@.subscriptions.insert(subscription_id@, subscription@),
                ..old(self)@
            }),
    {
        self.set_subscription(subscription_id, subscription);
    }

    /// Writes the balance slot of `user`.
    pub fn put_balance(&mut self, user: Address, amount: U256)
        requires
            old(self).wf(),
        ensures
            final(self).wf(),
            final(self)@ == (Ledger {
                balances: old(self)@.balances.insert(user@, amount@),
                ..old(self)@
            }),
    {
        self.set_balance(&user, amount);
    }

    // -------------------------------------------------------------- setup

    /// Sets the escrow up, once: `caller` becomes the admin, both id counters
    /// start at 1 and the fee rate is 250 basis points. Refused with
    /// `InvalidInput` where an admin is already set.
    pub fn initialize(&mut self, caller: Address) -> (r: Result<bool, SubscriptionError>)
        requires
            old(self).wf(),
        ensures
            final(self).wf(),
            final(self)@ == old(self)@.initialize(caller@),
            match r {
                Ok(done) => done && old(self)@.initialize_refusal() is None,
                Err(e) => old(self)@.initialize_refusal() == Some(e),
            },
    {
        if !self.admin.is_zero() {
            return Err(SubscriptionError::InvalidInput);
        }
        self.admin = caller;
        self.next_plan_id = U256::from_u64(1);
        self.next_subscription_id = U256::from_u64(1);
        self.fee_bps = 250;
        Ok(true)
    }

    // ---------------------------------------------------------- providers

    /// Registers `caller` as a provider under `name` and logs it. Refused with
    /// `InvalidInput` where the name has more than 100 characters or the
    /// caller is a provider already.
    pub fn register_provider(&mut self, caller: Address, name: String) -> (r: Result<
        bool,
        SubscriptionError,
    >)
        requires
            old(self).wf(),
        ensures
            final(self).wf(),
            final(self)@ == old(self)@.register_provider(caller@, name@),
            match r {
                Ok(done) => done && old(self)@.register_provider_refusal(caller@, name@) is None,
                Err(e) => old(self)@.register_provider_refusal(caller@, name@) == Some(e),
            },
    {
        if name.as_str().unicode_len() > 100 {
            return Err(SubscriptionError::InvalidInput);
        }
        if self.is_provider_registered(caller) {
            return Err(SubscriptionError::InvalidInput);
        }
        self.providers.insert(caller.word, true);
        assert(self@.providers =~= old(self)@.providers.insert(caller@));
        self.emit(Event::ProviderRegistered { provider: caller, name });
        Ok(true)
    }

    // ------------------------------------------------------------ deposit

    /// Credits the value that came with the call to `caller`'s balance and
    /// logs the new balance. Refused with `InvalidInput` where no value came.
    pub fn deposit(&mut self, caller: Address, payment: U256) -> (r: Result<
        bool,
        SubscriptionError,
    >)
        requires
            old(self).wf(),
            old(self)@.balances[caller@] + payment@ <= U256::max_value(),
        ensures
            final(self).wf(),
            final(self)@ == old(self)@.deposit(caller@, payment@),
            match r {
                Ok(done) => done && old(self)@.deposit_refusal(payment@) is None,
                Err(e) => old(self)@.deposit_refusal(payment@) == Some(e),
            },
    {
        if payment.is_zero() {
            return Err(SubscriptionError::InvalidInput);
        }
        let current_balance = self.balance(&caller);
        let new_balance = current_balance.checked_add(payment).unwrap();
        self.set_balance(&caller, new_balance);
        self.emit(Event::EscrowDeposit { user: caller, amount: payment, new_balance });
        Ok(true)
    }

    // -------------------------------------------------------------- plans
    /// Passes a registered provider and refuses anyone else as `Unauthorized`.
    fn require_registered_provider(&self, provider: Address) -> (r: Result<(), SubscriptionError>)
        requires
            self.wf(),
        ensures
            match r {
                Ok(_) => self@.providers.contains(provider@),
                Err(e) => e == SubscriptionError::Unauthorized && !self@.providers.contains(
                    provider@,
                ),
            },
    {
        if !self.is_provider_registered(provider) {
            return Err(SubscriptionError::Unauthorized);
        }
        Ok(())
    }


    /// Publishes a plan of `caller` at `price` per `interval` under the next
    /// plan id, logs it and returns the id. `metadata_hash` is taken and not
    /// stored. Refused with `Unauthorized` where the caller is no provider,
    /// else with `InvalidInput` where the price or the interval is zero.
    pub fn create_plan(
        &mut self,
        caller: Address,
        price: U256,
        interval: U256,
        _metadata_hash: String,
    ) -> (r: Result<U256, SubscriptionError>)
        requires
            old(self).wf(),
            old(self)@.next_plan_id < U256::max_value(),
        ensures
            final(self).wf(),
            final(self)@ == old(self)@.create_plan(caller@, price@, interval@),
            match r {
                Ok(plan_id) => plan_id@ == old(self)@.next_plan_id && old(
                    self,
                )@.create_plan_refusal(caller@, price@, interval@) is None,
                Err(e) => old(self)@.create_plan_refusal(caller@, price@, interval@) == Some(e),
            },
    {
        match self.require_registered_provider(caller) {
            Ok(()) => {},
            Err(e) => {
                return Err(e);
            },
        }
        if price.is_zero() || interval.is_zero() {
            return Err(SubscriptionError::InvalidInput);
        }
        let plan_id = self.next_plan_id;
        self.plans.insert(plan_id, Plan { provider: caller, price, interval });
        self.next_plan_id = plan_id.checked_add(U256::from_u64(1)).unwrap();
        assert(self@.plans =~= old(self)@.plans.insert(
            plan_id@,
            PlanRecord { provider: caller@, price: price@, interval: interval@ },
        ));
        self.emit(Event::PlanCreated { plan_id, provider: caller, price, interval });
        Ok(plan_id)
    }

    // ----------------------------------------------------------- withdraw

    /// Debits `amount` from `caller`'s balance and hands back the withdrawal
    /// for the host to pay out. Refused with `InsufficientFunds` where the
    /// amount is zero or more than the caller holds.
    pub fn withdraw(&mut self, caller: Address, amount: U256) -> (r: Result<
        PendingWithdrawal,
        SubscriptionError,
    >)
        requires
            old(self).wf(),
        ensures
            final(self).wf(),
            final(self)@ == old(self)@.withdraw(caller@, amount@),
            match r {
                Ok(pending) => pending@ == old(self)@.withdraw_pending(caller@, amount@) && old(
                    self,
                )@.withdraw_refusal(caller@, amount@) is None,
                Err(e) => old(self)@.withdraw_refusal(caller@, amount@) == Some(e),
            },
    {
        let user_balance = self.balance(&caller);
        if amount.is_zero() || user_balance.lt(&amount) {
            return Err(SubscriptionError::InsufficientFunds);
        }
        let new_balance = user_balance.checked_sub(amount).unwrap();
        self.set_balance(&caller, new_balance);
        Ok(PendingWithdrawal { user: caller, amount, prior_balance: user_balance })
    }

    /// Completes a withdrawal once the host has attempted the transfer. Where
    /// it went through, the withdrawal is logged with the balance it left.
    /// Where it failed, the balance is put back and the call is refused with
    /// `InvalidInput`.
    pub fn settle_withdraw(&mut self, pending: PendingWithdrawal, transfer_ok: bool) -> (r: Result<
        bool,
        SubscriptionError,
    >)
        requires
            old(self).wf(),
        ensures
            final(self).wf(),
            final(self)@ == old(self)@.settle_withdraw(pending@, transfer_ok),
            match r {
                Ok(done) => done && transfer_ok,
                Err(e) => Ledger::settle_refusal(transfer_ok) == Some(e),
            },
    {
        if !transfer_ok {
            self.set_balance(&pending.user, pending.prior_balance);
            return Err(SubscriptionError::InvalidInput);
        }
        let new_balance = match pending.prior_balance.checked_sub(pending.amount) {
            Some(left) => left,
            None => U256::zero(),
        };
        self.emit(
            Event::EscrowWithdrawal { user: pending.user, amount: pending.amount, new_balance },
        );
        Ok(true)
    }

    /// The marketplace listing: the ids of the first ten existing plans, in
    /// ascending order. Ids are scanned from 1 up to the next plan id.
    pub fn get_plans(&self) -> (r: Vec<U256>)
        requires
            self.wf(),
        ensures
            numbers(r@) == self@.plan_listing(),
    {
        let bound = self.next_plan_id;
        let mut ids: Vec<U256> = Vec::new();
        let mut id = U256::from_u64(1);
        while id.lt(&bound) && ids.len() < 10
            invariant
                self.wf(),
                bound@ == self@.next_plan_id,
                id@ == 1 || 1 < id@ <= bound@,
                numbers(ids@) == self@.plans_below(id@),
                ids.len() <= 10,
            decreases bound@ - id@,
        {
            proof {
                bound.lemma_bounded();
            }
            let plan = self.plan_at(&id);
            if !plan.provider.is_zero() {
                ids.push(id);
            }
            id = id.checked_add(U256::from_u64(1)).unwrap();
        }
        proof {
            if id@ <= bound@ {
                self@.lemma_plans_below_prefix(id@, bound@);
            }
        }
        ids
    }

    // ---------------------------------------------------------- subscribe

    /// Starts a subscription of `caller` to `plan_id` at time `now`. The
    /// value that came with the call is credited first; then the price is
    /// debited and the subscription is handed back for the host to pay the
    /// provider. Refused with `NotFound` where the plan does not exist, else
    /// with `InsufficientFunds` where balance and payment together do not
    /// cover the price.
    pub fn subscribe(&mut self, caller: Address, payment: U256, now: u64, plan_id: U256) -> (r:
        Result<PendingSubscription, SubscriptionError>)
        requires
            old(self).wf(),
            old(self)@.balances[caller@] + payment@ <= U256::max_value(),
        ensures
            final(self).wf(),
            final(self)@ == old(self)@.subscribe(caller@, payment@, plan_id@),
            match r {
                Ok(pending) => pending@ == old(self)@.subscribe_pending(
                    caller@,
                    now as nat,
                    plan_id@,
                ) && old(self)@.subscribe_refusal(caller@, payment@, plan_id@) is None,
                Err(e) => old(self)@.subscribe_refusal(caller@, payment@, plan_id@) == Some(e),
            },
    {
        let plan = self.plan_at(&plan_id);
        if plan.provider.is_zero() {
            return Err(SubscriptionError::NotFound);
        }
        let prior_balance = self.balance(&caller);
        let funded = prior_balance.checked_add(payment).unwrap();
        if funded.lt(&plan.price) {
            return Err(SubscriptionError::InsufficientFunds);
        }
        let (provider_amount, protocol_fee) = split_payment(plan.price, self.fee_bps);
        let subscription_id = self.next_subscription_id;
        self.set_balance(&caller, funded.checked_sub(plan.price).unwrap());
        Ok(
            PendingSubscription {
                subscription_id,
                subscriber: caller,
                plan_id,
                provider: plan.provider,
                provider_amount,
                protocol_fee,
                prior_balance,
                started_at: now,
            },
        )
    }

    /// Completes a subscription once the host has attempted the transfer.
    /// Where it went through, the subscription is recorded as active from its
    /// start time, the subscription counter moves past its id, three events
    /// are logged and the id is returned. Where it failed, the subscriber's
    /// balance is what it was before the call, and the call is refused with
    /// `InvalidInput`.
    pub fn settle_subscribe(&mut self, pending: PendingSubscription, transfer_ok: bool) -> (r:
        Result<U256, SubscriptionError>)
        requires
            old(self).wf(),
            pending@.subscription_id < U256::max_value(),
        ensures
            final(self).wf(),
            final(self)@ == old(self)@.settle_subscribe(pending@, transfer_ok),
            match r {
                Ok(id) => id@ == pending@.subscription_id && transfer_ok,
                Err(e) => Ledger::settle_refusal(transfer_ok) == Some(e),
            },
    {
        if !transfer_ok {
            self.set_balance(&pending.subscriber, pending.prior_balance);
            return Err(SubscriptionError::InvalidInput);
        }
        self.set_subscription(
            pending.subscription_id,
            Subscription {
                plan_id: pending.plan_id,
                subscriber: pending.subscriber,
                last_payment_time: pending.started_at,
                active: true,
            },
        );
        self.next_subscription_id = pending.subscription_id.checked_add(
            U256::from_u64(1),
        ).unwrap();
        self.emit(
            Event::SubscriptionCreated {
                subscription_id: pending.subscription_id,
                user: pending.subscriber,
                plan_id: pending.plan_id,
            },
        );
        self.emit(
            Event::PaymentProcessed {
                from: pending.subscriber,
                to: pending.provider,
                amount: pending.provider_amount,
                subscription_id: pending.subscription_id,
            },
        );
        self.emit(
            Event::ProviderEarnings {
                provider: pending.provider,
                plan_id: pending.plan_id,
                amount: pending.provider_amount,
            },
        );
        Ok(pending.subscription_id)
    }

    // -------------------------------------------------- recurring payment

    /// Charges `subscription_id` for another interval at time `now`; anyone
    /// may ask. The price is debited from the subscriber, the payment time
    /// moves to `now`, and the payment is handed back for the host to pay the
    /// provider. Refused with `InvalidInput` where the subscription is not
    /// active or the interval has not yet passed since the last payment.
    /// Refused with `InsufficientFunds` where the subscriber's balance is
    /// below the price; the subscription is then switched off for good.
    pub fn process_subscription_payment(&mut self, now: u64, subscription_id: U256) -> (r: Result<
        PendingPayment,
        SubscriptionError,
    >)
        requires
            old(self).wf(),
        ensures
            final(self).wf(),
            final(self)@ == old(self)@.process_subscription_payment(now as nat, subscription_id@),
            match r {
                Ok(pending) => pending@ == old(self)@.payment_pending(subscription_id@) && old(
                    self,
                )@.payment_refusal(now as nat, subscription_id@) is None,
                Err(e) => old(self)@.payment_refusal(now as nat, subscription_id@) == Some(e),
            },
    {
        let subscription = self.subscription_at(&subscription_id);
        if !subscription.active {
            return Err(SubscriptionError::InvalidInput);
        }
        let plan = self.plan_at(&subscription.plan_id);
        let due = match U256::from_u64(subscription.last_payment_time).checked_add(plan.interval) {
            Some(due_at) => !U256::from_u64(now).lt(&due_at),
            None => false,
        };
        if !due {
            return Err(SubscriptionError::InvalidInput);
        }
        let user_balance = self.balance(&subscription.subscriber);
        if user_balance.lt(&plan.price) {
            self.set_subscription(subscription_id, Subscription { active: false, ..subscription });
            return Err(SubscriptionError::InsufficientFunds);
        }
        let (provider_amount, protocol_fee) = split_payment(plan.price, self.fee_bps);
        self.set_balance(&subscription.subscriber, user_balance.checked_sub(plan.price).unwrap());
        self.set_subscription(
            subscription_id,
            Subscription { last_payment_time: now, ..subscription },
        );
        Ok(
            PendingPayment {
                subscription_id,
                subscriber: subscription.subscriber,
                plan_id: subscription.plan_id,
                provider: plan.provider,
                provider_amount,
                protocol_fee,
                prior_balance: user_balance,
                prior_payment_time: subscription.last_payment_time,
            },
        )
    }

    /// Completes a recurring payment once the host has attempted the
    /// transfer. Where it went through, two events are logged. Where it
    /// failed, the subscriber's balance and the payment time are what they
    /// were before the call, so that the payment is due at once, and the call
    /// is refused with `InvalidInput`.
    pub fn settle_payment(&mut self, pending: PendingPayment, transfer_ok: bool) -> (r: Result<
        bool,
        SubscriptionError,
    >)
        requires
            old(self).wf(),
        ensures
            final(self).wf(),
            final(self)@ == old(self)@.settle_payment(pending@, transfer_ok),
            match r {
                Ok(done) => done && transfer_ok,
                Err(e) => Ledger::settle_refusal(transfer_ok) == Some(e),
            },
    {
        if !transfer_ok {
            self.set_balance(&pending.subscriber, pending.prior_balance);
            let subscription = self.subscription_at(&pending.subscription_id);
            self.set_subscription(
                pending.subscription_id,
                Subscription { last_payment_time: pending.prior_payment_time, ..subscription },
            );
            return Err(SubscriptionError::InvalidInput);
        }
        self.emit(
            Event::PaymentProcessed {
                from: pending.subscriber,
                to: pending.provider,
                amount: pending.provider_amount,
                subscription_id: pending.subscription_id,
            },
        );
        self.emit(
            Event::ProviderEarnings {
                provider: pending.provider,
                plan_id: pending.plan_id,
                amount: pending.provider_amount,
            },
        );
        Ok(true)
    }
}

} // verus!
