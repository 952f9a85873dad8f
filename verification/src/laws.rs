//! What holds of the ledger whatever is asked of it.

use crate::error::SubscriptionError;
use crate::model::{bps_scale, held, protocol_fee, provider_share, Call, Ledger, SubscriptionRecord};
use vstd::prelude::*;

verus! {

// ------------------------------------------------------------------ fees

/// A payment is split without remainder: what the provider receives and what
/// the protocol keeps add up to the price, at any rate up to the whole.
pub proof fn law_split_is_exact(price: nat, fee_bps: nat)
    requires
        fee_bps <= bps_scale(),
    ensures
        provider_share(price, fee_bps) + protocol_fee(price, fee_bps) == price,
        protocol_fee(price, fee_bps) <= price,
{
    assert(price * fee_bps <= price * 10000) by (nonlinear_arith)
        requires
            fee_bps <= 10000,
    ;
    assert((price * fee_bps) / 10000 <= price) by (nonlinear_arith)
        requires
            price * fee_bps <= price * 10000,
    ;
}

/// The first payment of every accepted subscription is split without
/// remainder.
pub proof fn law_subscribe_split_is_exact(
    ledger: Ledger,
    caller: nat,
    payment: nat,
    now: nat,
    plan_id: nat,
)
    requires
        ledger.valid(),
        ledger.subscribe_refusal(caller, payment, plan_id) is None,
    ensures
        ledger.subscribe_pending(caller, now, plan_id).provider_amount + ledger.subscribe_pending(
            caller,
            now,
            plan_id,
        ).protocol_fee == ledger.plans[plan_id].price,
{
    law_split_is_exact(ledger.plans[plan_id].price, ledger.fee_bps);
}

/// Every accepted recurring payment is split without remainder.
pub proof fn law_payment_split_is_exact(ledger: Ledger, now: nat, subscription_id: nat)
    requires
        ledger.valid(),
        ledger.payment_refusal(now, subscription_id) is None,
    ensures
        ledger.payment_pending(subscription_id).provider_amount + ledger.payment_pending(
            subscription_id,
        ).protocol_fee == ledger.plans[ledger.subscriptions[subscription_id].plan_id].price,
{
    law_split_is_exact(
        ledger.plans[ledger.subscriptions[subscription_id].plan_id].price,
        ledger.fee_bps,
    );
}

// ------------------------------------------------------ validity is kept

/// The ledger on which nothing has happened is valid and holds nothing.
pub proof fn law_fresh_is_valid()
    ensures
        Ledger::fresh().valid(),
        Ledger::fresh().total_escrow() == 0,
{
    assert(Ledger::fresh().funded() =~= Set::empty());
}


/// No call leads out of the valid ledgers.
pub proof fn law_step_keeps_valid(ledger: Ledger, call: Call)
    requires
        ledger.valid(),
    ensures
        ledger.step(call).valid(),
{
    let reach = ledger.funded().union(ledger.accounts_touched(call));
    vstd::set_lib::lemma_len_subset(ledger.step(call).funded(), reach);
}

/// No sequence of calls leads out of the valid ledgers.
pub proof fn law_run_keeps_valid(ledger: Ledger, calls: Seq<Call>)
    requires
        ledger.valid(),
    ensures
        ledger.run(calls).valid(),
    decreases calls.len(),
{
    if calls.len() > 0 {
        law_run_keeps_valid(ledger, calls.drop_last());
        law_step_keeps_valid(ledger.run(calls.drop_last()), calls.last());
    }
}

// ------------------------------------------------------- failed calls

/// A call that fails leaves the ledger exactly as it was: balances, counters,
/// records and log. This holds of a call refused at once and of one undone
/// after a failed transfer. The one call it does not hold of is a recurring
/// payment refused for want of funds.
pub proof fn law_failed_call_changes_nothing(ledger: Ledger, call: Call)
    requires
        ledger.valid(),
        ledger.failure(call) is Some,
        !(call is ProcessSubscriptionPayment && ledger.failure(call) == Some(
            SubscriptionError::InsufficientFunds,
        )),
    ensures
        ledger.step(call) == ledger,
{
    let after = ledger.step(call);
    assert(after.balances =~= ledger.balances);
    assert(after.subscriptions =~= ledger.subscriptions);
}

/// A recurring payment that is due on an active subscription whose
/// subscriber holds less than the price is refused for want of funds. It
/// switches the subscription off and changes nothing else; from then on a
/// payment on that subscription is refused as invalid, whenever it is asked
/// for.
pub proof fn law_unfunded_payment_switches_off(
    ledger: Ledger,
    now: nat,
    subscription_id: nat,
    transfer_ok: bool,
    later: nat,
)
    requires
        ledger.valid(),
        ledger.subscriptions[subscription_id].active,
        ledger.payment_due(now, subscription_id),
        ledger.balances[ledger.subscriptions[subscription_id].subscriber]
            < ledger.plans[ledger.subscriptions[subscription_id].plan_id].price,
    ensures
        ledger.failure(Call::ProcessSubscriptionPayment { now, subscription_id, transfer_ok })
            == Some(SubscriptionError::InsufficientFunds),
        ledger.step(Call::ProcessSubscriptionPayment { now, subscription_id, transfer_ok }) == (
        Ledger {
            subscriptions: ledger.subscriptions.insert(
                subscription_id,
                SubscriptionRecord { active: false, ..ledger.subscriptions[subscription_id] },
            ),
            ..ledger
        }),
        ledger.step(
            Call::ProcessSubscriptionPayment { now, subscription_id, transfer_ok },
        ).payment_refusal(later, subscription_id) == Some(SubscriptionError::InvalidInput),
{
}

/// Whoever is a provider is refused a second registration, under whatever
/// name, and the refusal changes nothing.
pub proof fn law_second_registration_is_refused(
    ledger: Ledger,
    caller: nat,
    first_name: Seq<char>,
    second_name: Seq<char>,
)
    requires
        ledger.valid(),
        ledger.register_provider_refusal(caller, first_name) is None,
    ensures
        ledger.register_provider(caller, first_name).register_provider_refusal(caller, second_name)
            == Some(SubscriptionError::InvalidInput),
        ledger.register_provider(caller, first_name).register_provider(caller, second_name)
            == ledger.register_provider(caller, first_name),
{
}

/// A recurring payment asked for on an active subscription before the
/// interval has passed since the last payment is refused as invalid, and the
/// ledger, the time of the last payment included, stays as it was.
pub proof fn law_early_payment_is_refused(
    ledger: Ledger,
    now: nat,
    subscription_id: nat,
    transfer_ok: bool,
)
    requires
        ledger.valid(),
        ledger.subscriptions[subscription_id].active,
        now < ledger.subscriptions[subscription_id].last_payment_time
            + ledger.plans[ledger.subscriptions[subscription_id].plan_id].interval,
    ensures
        ledger.failure(Call::ProcessSubscriptionPayment { now, subscription_id, transfer_ok })
            == Some(SubscriptionError::InvalidInput),
        ledger.step(Call::ProcessSubscriptionPayment { now, subscription_id, transfer_ok })
            == ledger,
{
    law_failed_call_changes_nothing(
        ledger,
        Call::ProcessSubscriptionPayment { now, subscription_id, transfer_ok },
    );
}

// ------------------------------------------------------- conservation

/// The sum over a set can be taken starting from any of its members.
proof fn lemma_held_from(balances: Map<nat, nat>, accounts: Set<nat>, a: nat)
    requires
        accounts.finite(),
        accounts.contains(a),
    ensures
        held(balances, accounts) == balances[a] + held(balances, accounts.remove(a)),
    decreases accounts.len(),
{
    let c = accounts.choose();
    if c != a {
        lemma_held_from(balances, accounts.remove(c), a);
        lemma_held_from(balances, accounts.remove(a), c);
        assert(accounts.remove(c).remove(a) =~= accounts.remove(a).remove(c));
    }
}

/// Balances that agree on a set have the same sum over it.
proof fn lemma_held_agrees(b1: Map<nat, nat>, b2: Map<nat, nat>, accounts: Set<nat>)
    requires
        accounts.finite(),
        forall|a: nat| accounts.contains(a) ==> b1[a] == b2[a],
    ensures
        held(b1, accounts) == held(b2, accounts),
    decreases accounts.len(),
{
    if accounts.len() != 0 {
        let c = accounts.choose();
        lemma_held_agrees(b1, b2, accounts.remove(c));
    }
}

/// Changing one member's balance changes the sum by as much.
proof fn lemma_held_after_change(balances: Map<nat, nat>, accounts: Set<nat>, a: nat, v: nat)
    requires
        accounts.finite(),
        accounts.contains(a),
    ensures
        held(balances.insert(a, v), accounts) + balances[a] == held(balances, accounts) + v,
{
    lemma_held_from(balances, accounts, a);
    lemma_held_from(balances.insert(a, v), accounts, a);
    lemma_held_agrees(balances, balances.insert(a, v), accounts.remove(a));
}

/// Accounts that hold nothing add nothing to a sum.
proof fn lemma_held_ignores_empty(balances: Map<nat, nat>, some: Set<nat>, more: Set<nat>)
    requires
        more.finite(),
        some.subset_of(more),
        forall|a: nat| more.contains(a) && !some.contains(a) ==> balances[a] == 0,
    ensures
        held(balances, some) == held(balances, more),
    decreases more.len(),
{
    if !(some =~= more) {
        let a = choose|a: nat| more.contains(a) && !some.contains(a);
        lemma_held_from(balances, more, a);
        lemma_held_ignores_empty(balances, some, more.remove(a));
    }
}

/// Value is conserved by every call. Over any finite set of accounts that
/// holds those the call touches, the balances after the call, with what was
/// paid out and what the protocol kept as its fee, add up to the balances
/// before the call with what came in. No other balance changes.
pub proof fn law_call_conserves_value(ledger: Ledger, call: Call, accounts: Set<nat>)
    requires
        ledger.valid(),
        accounts.finite(),
        ledger.accounts_touched(call).subset_of(accounts),
    ensures
        held(ledger.step(call).balances, accounts) + ledger.value_out(call) + ledger.fee_kept(call)
            == held(ledger.balances, accounts) + ledger.value_in(call),
        forall|a: nat|
            !ledger.accounts_touched(call).contains(a) ==> ledger.step(call).balances[a]
                == ledger.balances[a],
{
    let after = ledger.step(call);
    match call {
        Call::Deposit { caller, payment } => {
            if ledger.failure(call) is None {
                lemma_held_after_change(
                    ledger.balances,
                    accounts,
                    caller,
                    ledger.balances[caller] + payment,
                );
            }
        },
        Call::Withdraw { caller, amount, transfer_ok } => {
            if ledger.withdraw_refusal(caller, amount) is None {
                if transfer_ok {
                    lemma_held_after_change(
                        ledger.balances,
                        accounts,
                        caller,
                        (ledger.balances[caller] - amount) as nat,
                    );
                } else {
                    assert(after.balances =~= ledger.balances);
                }
            }
        },
        Call::Subscribe { caller, payment, now, plan_id, transfer_ok } => {
            if ledger.subscribe_refusal(caller, payment, plan_id) is None {
                if transfer_ok {
                    law_split_is_exact(ledger.plans[plan_id].price, ledger.fee_bps);
                    lemma_held_after_change(
                        ledger.balances,
                        accounts,
                        caller,
                        (ledger.balances[caller] + payment - ledger.plans[plan_id].price) as nat,
                    );
                } else {
                    assert(after.balances =~= ledger.balances);
                }
            }
        },
        Call::ProcessSubscriptionPayment { now, subscription_id, transfer_ok } => {
            let sub = ledger.subscriptions[subscription_id];
            if ledger.payment_refusal(now, subscription_id) is None {
                if transfer_ok {
                    law_split_is_exact(ledger.plans[sub.plan_id].price, ledger.fee_bps);
                    lemma_held_after_change(
                        ledger.balances,
                        accounts,
                        sub.subscriber,
                        (ledger.balances[sub.subscriber] - ledger.plans[sub.plan_id].price) as nat,
                    );
                } else {
                    assert(after.balances =~= ledger.balances);
                }
            }
        },
        _ => {},
    }
}

/// Value is conserved by every sequence of calls. Over any finite set of
/// accounts that holds those the calls touch, the balances at the end, with
/// all that was paid out and all that the protocol kept as fees, add up to the
/// balances at the start with all that came in.
pub proof fn law_run_conserves_value(ledger: Ledger, calls: Seq<Call>, accounts: Set<nat>)
    requires
        ledger.valid(),
        accounts.finite(),
        ledger.run_within(calls, accounts),
    ensures
        held(ledger.run(calls).balances, accounts) + ledger.run_value_out(calls)
            + ledger.run_fee_kept(calls) == held(ledger.balances, accounts) + ledger.run_value_in(
            calls,
        ),
    decreases calls.len(),
{
    if calls.len() > 0 {
        law_run_conserves_value(ledger, calls.drop_last(), accounts);
        law_run_keeps_valid(ledger, calls.drop_last());
        law_call_conserves_value(ledger.run(calls.drop_last()), calls.last(), accounts);
    }
}

/// The sum of all escrow balances after a call, with what the call paid out
/// and what the protocol kept as its fee, is the sum before the call with what
/// the call brought in.
pub proof fn law_call_conserves_total(ledger: Ledger, call: Call)
    requires
        ledger.valid(),
    ensures
        ledger.step(call).total_escrow() + ledger.value_out(call) + ledger.fee_kept(call)
            == ledger.total_escrow() + ledger.value_in(call),
{
    let after = ledger.step(call);
    let reach = ledger.funded().union(ledger.accounts_touched(call));
    law_step_keeps_valid(ledger, call);
    law_call_conserves_value(ledger, call, reach);
    lemma_held_ignores_empty(ledger.balances, ledger.funded(), reach);
    lemma_held_ignores_empty(after.balances, after.funded(), reach);
}

/// The sum of all escrow balances after a sequence of calls, with all that
/// was paid out and all that the protocol kept as fees, is the sum at the
/// start with all that came in. Where no fee was kept, the change in the sum
/// is what came in less what went out.
pub proof fn law_run_conserves_total(ledger: Ledger, calls: Seq<Call>)
    requires
        ledger.valid(),
    ensures
        ledger.run(calls).total_escrow() + ledger.run_value_out(calls) + ledger.run_fee_kept(calls)
            == ledger.total_escrow() + ledger.run_value_in(calls),
        ledger.run_fee_kept(calls) == 0 ==> ledger.run(calls).total_escrow() - ledger.total_escrow()
            == ledger.run_value_in(calls) - ledger.run_value_out(calls),
        ledger.run(calls).total_escrow() + ledger.run_value_out(calls) <= ledger.total_escrow()
            + ledger.run_value_in(calls),
    decreases calls.len(),
{
    if calls.len() > 0 {
        law_run_conserves_total(ledger, calls.drop_last());
        law_run_keeps_valid(ledger, calls.drop_last());
        law_call_conserves_total(ledger.run(calls.drop_last()), calls.last());
    }
}

/// The escrow never holds more than came in less what went out: over any
/// finite set of accounts that holds those the calls touch, the balances at
/// the end and all that was paid out stay within the balances at the start
/// and all that came in.
pub proof fn law_run_never_creates_value(ledger: Ledger, calls: Seq<Call>, accounts: Set<nat>)
    requires
        ledger.valid(),
        accounts.finite(),
        ledger.run_within(calls, accounts),
    ensures
        held(ledger.run(calls).balances, accounts) + ledger.run_value_out(calls) <= held(
            ledger.balances,
            accounts,
        ) + ledger.run_value_in(calls),
{
    law_run_conserves_value(ledger, calls, accounts);
}

// ----------------------------------------------------------- counters

/// The id counters never go back: no call but the one that sets the ledger up
/// lowers either of them, and a plan or a subscription that was created took
/// the id the counter stood at.
pub proof fn law_counters_never_go_back(ledger: Ledger, call: Call)
    requires
        ledger.valid(),
        !(call is Initialize),
    ensures
        ledger.step(call).next_plan_id >= ledger.next_plan_id,
        ledger.step(call).next_subscription_id >= ledger.next_subscription_id,
        call is CreatePlan && ledger.failure(call) is None ==> ledger.step(call).next_plan_id
            == ledger.next_plan_id + 1,
        call is Subscribe && ledger.failure(call) is None ==> ledger.step(
            call,
        ).next_subscription_id == ledger.next_subscription_id + 1,
{
}

// ------------------------------------------------------------ records

/// The admin and the fee rate are set when the ledger is set up and by
/// nothing else, and the ledger can be set up only while it has no admin.
pub proof fn law_settings_change_only_at_setup(ledger: Ledger, call: Call)
    requires
        ledger.valid(),
    ensures
        ledger.step(call).admin != ledger.admin || ledger.step(call).fee_bps != ledger.fee_bps
            ==> call is Initialize && ledger.admin == 0,
{
}

/// A provider stays a provider.
pub proof fn law_providers_are_never_removed(ledger: Ledger, call: Call, provider: nat)
    requires
        ledger.valid(),
        ledger.providers.contains(provider),
    ensures
        ledger.step(call).providers.contains(provider),
{
}

/// A plan slot changes only when a plan is created in it, under the id that
/// the plan counter stood at; the new plan belongs to a registered provider
/// and has a price and an interval.
pub proof fn law_plans_change_only_by_creation(ledger: Ledger, call: Call, plan_id: nat)
    requires
        ledger.valid(),
        ledger.step(call).plans[plan_id] != ledger.plans[plan_id],
    ensures
        call is CreatePlan,
        ledger.failure(call) is None,
        plan_id == ledger.next_plan_id,
        ledger.providers.contains(ledger.step(call).plans[plan_id].provider),
        ledger.step(call).plans[plan_id].price > 0,
        ledger.step(call).plans[plan_id].interval > 0,
{
}

/// A subscription becomes active only by a successful `subscribe`, under the
/// id that the subscription counter stood at: a subscription that was switched
/// off is not switched on again by any payment.
pub proof fn law_only_subscribe_activates(ledger: Ledger, call: Call, subscription_id: nat)
    requires
        ledger.valid(),
        !ledger.subscriptions[subscription_id].active,
        ledger.step(call).subscriptions[subscription_id].active,
    ensures
        call is Subscribe,
        ledger.failure(call) is None,
        subscription_id == ledger.next_subscription_id,
{
}

/// A balance goes down only by a successful withdrawal of its owner or by a
/// successful payment of its owner's subscription, and then by exactly the
/// amount withdrawn or the plan's price less what came with the call.
pub proof fn law_balance_falls_only_by_payment(ledger: Ledger, call: Call, user: nat)
    requires
        ledger.valid(),
        ledger.step(call).balances[user] < ledger.balances[user],
    ensures
        ledger.failure(call) is None,
        ledger.accounts_touched(call).contains(user),
        ledger.balances[user] + ledger.value_in(call) == ledger.step(call).balances[user]
            + ledger.value_out(call) + ledger.fee_kept(call),
{
    match call {
        Call::Subscribe { caller, payment, now, plan_id, transfer_ok } => {
            law_split_is_exact(ledger.plans[plan_id].price, ledger.fee_bps);
        },
        Call::ProcessSubscriptionPayment { now, subscription_id, transfer_ok } => {
            let sub = ledger.subscriptions[subscription_id];
            law_split_is_exact(ledger.plans[sub.plan_id].price, ledger.fee_bps);
        },
        _ => {},
    }
}

/// A subscription is switched off only by a recurring payment on it that is
/// refused for want of funds.
pub proof fn law_only_unfunded_payment_deactivates(
    ledger: Ledger,
    call: Call,
    subscription_id: nat,
)
    requires
        ledger.valid(),
        ledger.subscriptions[subscription_id].active,
        !ledger.step(call).subscriptions[subscription_id].active,
    ensures
        call matches Call::ProcessSubscriptionPayment { subscription_id: charged, .. } && charged
            == subscription_id,
        ledger.failure(call) == Some(SubscriptionError::InsufficientFunds),
{
}

// ------------------------------------------------------------ listing

/// What `plans_below` holds: ids from 1 up to the bound, each of an existing
/// plan, in strictly ascending order, and every such id.
proof fn lemma_plans_below(ledger: Ledger, bound: nat)
    ensures
        forall|i: int|
            0 <= i < ledger.plans_below(bound).len() ==> 1 <= #[trigger] ledger.plans_below(
                bound,
            )[i] < bound && ledger.plans[ledger.plans_below(bound)[i]].provider != 0,
        forall|i: int, j: int|
            0 <= i < j < ledger.plans_below(bound).len() ==> ledger.plans_below(bound)[i]
                < ledger.plans_below(bound)[j],
        forall|id: nat|
            1 <= id < bound && ledger.plans[id].provider != 0 ==> ledger.plans_below(
                bound,
            ).contains(id),
    decreases bound,
{
    if bound > 1 {
        let last = (bound - 1) as nat;
        let before = ledger.plans_below(last);
        lemma_plans_below(ledger, last);
        assert forall|id: nat|
            1 <= id < bound && ledger.plans[id].provider != 0 implies ledger.plans_below(
            bound,
        ).contains(id) by {
            if id == last {
                assert(ledger.plans_below(bound)[before.len() as int] == id);
            } else {
                assert(before.contains(id));
                let i = choose|i: int| 0 <= i < before.len() && before[i] == id;
                assert(ledger.plans_below(bound)[i] == id);
            }
        }
    }
}

/// The listing holds at most ten ids, each of an existing plan below the next
/// plan id, in strictly ascending order; and it passes over no existing plan:
/// one that is not listed comes after ten that are.
pub proof fn law_listing_is_the_first_ten(ledger: Ledger)
    requires
        ledger.valid(),
    ensures
        ledger.plan_listing().len() <= 10,
        forall|i: int|
            0 <= i < ledger.plan_listing().len() ==> 1 <= #[trigger] ledger.plan_listing()[i]
                < ledger.next_plan_id && ledger.plans[ledger.plan_listing()[i]].provider != 0,
        forall|i: int, j: int|
            0 <= i < j < ledger.plan_listing().len() ==> ledger.plan_listing()[i]
                < ledger.plan_listing()[j],
        forall|id: nat|
            1 <= id < ledger.next_plan_id && ledger.plans[id].provider != 0
                && !ledger.plan_listing().contains(id) ==> ledger.plan_listing().len() == 10
                && ledger.plan_listing()[9] < id,
{
    let all = ledger.plans_below(ledger.next_plan_id);
    let listing = ledger.plan_listing();
    lemma_plans_below(ledger, ledger.next_plan_id);
    assert forall|id: nat|
        1 <= id < ledger.next_plan_id && ledger.plans[id].provider != 0 && !listing.contains(
            id,
        ) implies listing.len() == 10 && listing[9] < id by {
        assert(all.contains(id));
        let i = choose|i: int| 0 <= i < all.len() && all[i] == id;
        if i < listing.len() {
            assert(listing[i] == id);
        }
    }
}

} // verus!
