use vstd::prelude::*;

use crate::blocklist::BlocklistEntry;
use crate::merchant::{initialize_outcome, update_outcome, updated_config, MerchantConfig};
use crate::paging::page;
use crate::statements::{
    has_period, is_period, lemma_upsert_then_lookup, merchant_in_range, period_lookup, period_of,
    periods_unique, upserted, BillingStatementFinalization, PeriodBillingStatement,
    PeriodStatementAmounts,
};
use crate::subscription::{is_expired_at, Subscription, SubscriptionStatus};
use crate::types::{Address, Error};
use crate::vault::{
    add_token_step, blocklist_add_step, blocklist_remove_step, cancel_step, charge_step,
    cleanup_step, compact_step, create_step, deposit_step, emergency_stop_step, finalize_step,
    pause_step, period_statement, refund_step, remove_token_step, resume_step, rotate_admin_step,
    set_min_topup_step, set_retention_step, state_wf, usage_step, withdraw_step, Transfer,
    TransferDirection, VaultState, VaultParts, parts_valid, state_of_parts, VaultEvent,
};

verus! {

// ─── Escrow accounting ───────────────────────────────────────────────────────

/// The sum of all prepaid balances held in escrow.
pub open spec fn escrow_total(subs: Seq<Subscription>) -> int
    decreases subs.len(),
{
    if subs.len() == 0 {
        0
    } else {
        escrow_total(subs.drop_last()) + subs.last().prepaid_balance
    }
}

/// How much a call's transfer moves into the vault (negative when it pays out).
pub open spec fn inflow(r: Result<Transfer, Error>) -> int {
    match r {
        Ok(t) => match t.direction {
            TransferDirection::IntoVault => t.amount as int,
            TransferDirection::OutOfVault => -t.amount,
        },
        Err(_) => 0,
    }
}

proof fn lemma_escrow_update(subs: Seq<Subscription>, i: int, s: Subscription)
    requires
        0 <= i < subs.len(),
    ensures
        escrow_total(subs.update(i, s)) == escrow_total(subs) - subs[i].prepaid_balance
            + s.prepaid_balance,
    decreases subs.len(),
{
    let u = subs.update(i, s);
    if i == subs.len() - 1 {
        assert(u.drop_last() =~= subs.drop_last());
    } else {
        assert(u.drop_last() =~= subs.drop_last().update(i, s));
        lemma_escrow_update(subs.drop_last(), i, s);
    }
}

proof fn lemma_escrow_push(subs: Seq<Subscription>, s: Subscription)
    ensures
        escrow_total(subs.push(s)) == escrow_total(subs) + s.prepaid_balance,
{
    assert(subs.push(s).drop_last() =~= subs);
}

/// Funds are never created or deleted: every change of the escrow is matched
/// by the transfer that the call hands to the host, for deposits, charges,
/// usage charges, withdrawals and refunds.
pub proof fn law_escrow_moves_only_with_transfers(
    st: VaultState,
    id: u32,
    who: Address,
    amount: i128,
    now: u64,
)
    requires
        state_wf(st),
    ensures
        escrow_total(deposit_step(st, id, who, amount, now).0.subs) == escrow_total(st.subs)
            + inflow(deposit_step(st, id, who, amount, now).1),
        escrow_total(charge_step(st, id, now).0.subs) == escrow_total(st.subs) + inflow(
            charge_step(st, id, now).1,
        ),
        escrow_total(usage_step(st, id, amount, now).0.subs) == escrow_total(st.subs) + inflow(
            usage_step(st, id, amount, now).1,
        ),
        escrow_total(withdraw_step(st, id, who, now).0.subs) == escrow_total(st.subs) + inflow(
            withdraw_step(st, id, who, now).1,
        ),
        escrow_total(refund_step(st, st.admin, id, who, amount).0.subs) == escrow_total(st.subs)
            + inflow(refund_step(st, st.admin, id, who, amount).1),
{
    if id < st.subs.len() {
        let i = id as int;
        if deposit_step(st, id, who, amount, now).1 is Ok {
            lemma_escrow_update(st.subs, i, deposit_step(st, id, who, amount, now).0.subs[i]);
        }
        if charge_step(st, id, now).1 is Ok {
            lemma_escrow_update(st.subs, i, charge_step(st, id, now).0.subs[i]);
        }
        if usage_step(st, id, amount, now).1 is Ok {
            lemma_escrow_update(st.subs, i, usage_step(st, id, amount, now).0.subs[i]);
        }
        if withdraw_step(st, id, who, now).1 is Ok {
            lemma_escrow_update(st.subs, i, withdraw_step(st, id, who, now).0.subs[i]);
        }
        if refund_step(st, st.admin, id, who, amount).1 is Ok {
            lemma_escrow_update(st.subs, i, refund_step(st, st.admin, id, who, amount).0.subs[i]);
        }
    }
}

/// Lifecycle calls (create, pause, resume, cancel, archive) never change the escrow.
pub proof fn law_lifecycle_keeps_escrow(
    st: VaultState,
    id: u32,
    caller: Address,
    subscriber: Address,
    merchant: Address,
    token: Address,
    amount: i128,
    interval_seconds: u64,
    usage_enabled: bool,
    lifetime_cap: Option<i128>,
    expires_at: Option<u64>,
    now: u64,
)
    requires
        state_wf(st),
    ensures
        escrow_total(
            create_step(
                st,
                subscriber,
                merchant,
                token,
                amount,
                interval_seconds,
                usage_enabled,
                lifetime_cap,
                expires_at,
                now,
            ).0.subs,
        ) == escrow_total(st.subs),
        escrow_total(pause_step(st, id, caller, now).0.subs) == escrow_total(st.subs),
        escrow_total(resume_step(st, id, caller, now).0.subs) == escrow_total(st.subs),
        escrow_total(cancel_step(st, id, caller, now).0.subs) == escrow_total(st.subs),
        escrow_total(cleanup_step(st, id, caller, now).0.subs) == escrow_total(st.subs),
{
    let c = create_step(
        st,
        subscriber,
        merchant,
        token,
        amount,
        interval_seconds,
        usage_enabled,
        lifetime_cap,
        expires_at,
        now,
    );
    if c.1 is Ok {
        lemma_escrow_push(st.subs, c.0.subs.last());
        assert(c.0.subs =~= st.subs.push(c.0.subs.last()));
    }
    if id < st.subs.len() {
        let i = id as int;
        lemma_escrow_update(st.subs, i, pause_step(st, id, caller, now).0.subs[i]);
        lemma_escrow_update(st.subs, i, resume_step(st, id, caller, now).0.subs[i]);
        lemma_escrow_update(st.subs, i, cancel_step(st, id, caller, now).0.subs[i]);
        lemma_escrow_update(st.subs, i, cleanup_step(st, id, caller, now).0.subs[i]);
        if pause_step(st, id, caller, now).1 is Err {
            assert(pause_step(st, id, caller, now).0.subs =~= st.subs.update(i, st.subs[i]));
        }
        if resume_step(st, id, caller, now).1 is Err {
            assert(resume_step(st, id, caller, now).0.subs =~= st.subs.update(i, st.subs[i]));
        }
        if cancel_step(st, id, caller, now).1 is Err {
            assert(cancel_step(st, id, caller, now).0.subs =~= st.subs.update(i, st.subs[i]));
        }
        if cleanup_step(st, id, caller, now).1 is Err {
            assert(cleanup_step(st, id, caller, now).0.subs =~= st.subs.update(i, st.subs[i]));
        }
    }
}

// ─── Expiry and archival ─────────────────────────────────────────────────────

/// Once a live subscription's expiry time is reached, interval charges,
/// usage charges, deposits and cancellation are all rejected, and none of
/// them changes the subscription.
pub proof fn law_expired_subscription_rejects(
    st: VaultState,
    id: u32,
    caller: Address,
    amount: i128,
    now: u64,
)
    requires
        state_wf(st),
        id < st.subs.len(),
        st.subs[id as int].status == SubscriptionStatus::Active || st.subs[id as int].status
            == SubscriptionStatus::Paused,
        is_expired_at(st.subs[id as int], now),
    ensures
        charge_step(st, id, now).1 is Err,
        charge_step(st, id, now).0.subs == st.subs,
        usage_step(st, id, amount, now).1 is Err,
        usage_step(st, id, amount, now).0.subs == st.subs,
        deposit_step(st, id, caller, amount, now).1 is Err,
        deposit_step(st, id, caller, amount, now).0.subs == st.subs,
        cancel_step(st, id, caller, now).1 is Err,
        cancel_step(st, id, caller, now).0.subs == st.subs,
{
}

/// Every charge attempt that finds an active subscription expired
/// fails with `SubscriptionExpired` and publishes the expiry event.
pub proof fn law_charge_on_expired_publishes_event(st: VaultState, id: u32, now: u64)
    requires
        state_wf(st),
        !st.emergency_stop,
        id < st.subs.len(),
        st.subs[id as int].status == SubscriptionStatus::Active,
        is_expired_at(st.subs[id as int], now),
    ensures
        charge_step(st, id, now).1 == Err::<Transfer, Error>(Error::SubscriptionExpired),
        charge_step(st, id, now).0.events == st.events.push(
            crate::vault::VaultEvent::SubscriptionExpired { subscription_id: id, timestamp: now },
        ),
{
}

/// A subscription without an expiry time never expires: given an elapsed
/// interval and enough escrow, an active one is charged at any time.
pub proof fn law_no_expiry_charges_any_time(st: VaultState, id: u32, now: u64)
    requires
        state_wf(st),
        !st.emergency_stop,
        id < st.subs.len(),
        st.subs[id as int].status == SubscriptionStatus::Active,
        st.subs[id as int].expires_at is None,
        st.subs[id as int].lifetime_cap is None,
        now >= st.subs[id as int].last_payment_timestamp + st.subs[id as int].interval_seconds,
        st.subs[id as int].prepaid_balance >= st.subs[id as int].amount,
        st.subs[id as int].lifetime_charged + st.subs[id as int].amount <= i128::MAX,
    ensures
        charge_step(st, id, now).1 is Ok,
        charge_step(st, id, now).0.subs[id as int].lifetime_charged == st.subs[id as int].lifetime_charged
            + st.subs[id as int].amount,
{
}

/// Archival is terminal: no call takes an archived subscription out of the
/// archived status, and only the subscriber's withdrawal and the admin's
/// refund touch it at all (its escrow).
pub proof fn law_archived_is_terminal(
    st: VaultState,
    id: u32,
    caller: Address,
    amount: i128,
    now: u64,
)
    requires
        state_wf(st),
        id < st.subs.len(),
        st.subs[id as int].status == SubscriptionStatus::Archived,
    ensures
        charge_step(st, id, now).0.subs == st.subs,
        usage_step(st, id, amount, now).0.subs == st.subs,
        deposit_step(st, id, caller, amount, now).0.subs == st.subs,
        pause_step(st, id, caller, now).0.subs == st.subs,
        resume_step(st, id, caller, now).0.subs == st.subs,
        cancel_step(st, id, caller, now).0.subs == st.subs,
        cleanup_step(st, id, caller, now).0.subs == st.subs,
        withdraw_step(st, id, caller, now).0.subs[id as int].status == SubscriptionStatus::Archived,
        refund_step(st, caller, id, caller, amount).0.subs[id as int].status
            == SubscriptionStatus::Archived,
{
}

/// A cancelled or expired subscription can always be archived by its
/// subscriber, and archival keeps every field but the status.
pub proof fn law_terminal_subscription_archives(st: VaultState, id: u32, now: u64)
    requires
        state_wf(st),
        id < st.subs.len(),
        st.subs[id as int].status == SubscriptionStatus::Cancelled || (st.subs[id as int].status
            != SubscriptionStatus::Archived && is_expired_at(st.subs[id as int], now)),
    ensures
        cleanup_step(st, id, st.subs[id as int].subscriber, now).1 is Ok,
        cleanup_step(st, id, st.subs[id as int].subscriber, now).0.subs[id as int] == (Subscription {
            status: SubscriptionStatus::Archived,
            ..st.subs[id as int]
        }),
{
}

/// Whatever escrow a cancelled, expired or archived subscription holds can
/// be withdrawn by its subscriber, in full.
pub proof fn law_terminal_escrow_is_withdrawable(st: VaultState, id: u32, now: u64)
    requires
        state_wf(st),
        id < st.subs.len(),
        st.subs[id as int].prepaid_balance > 0,
        st.subs[id as int].status == SubscriptionStatus::Cancelled || st.subs[id as int].status
            == SubscriptionStatus::Archived || is_expired_at(st.subs[id as int], now),
    ensures
        withdraw_step(st, id, st.subs[id as int].subscriber, now).1 == Ok::<Transfer, Error>(
            Transfer {
                token: st.subs[id as int].token,
                account: st.subs[id as int].subscriber,
                amount: st.subs[id as int].prepaid_balance,
                direction: TransferDirection::OutOfVault,
            },
        ),
{
}

// ─── Admin authorization ─────────────────────────────────────────────────────

/// Rotation is atomic: once the admin role moves to `new_admin`, the old
/// admin is answered `Unauthorized` on every admin-only route and changes
/// nothing.
pub proof fn law_rotation_revokes_old_admin(
    st: VaultState,
    new_admin: Address,
    id: u32,
    who: Address,
    token: Address,
    keep: u32,
    amount: i128,
    period_index: u32,
    amounts: PeriodStatementAmounts,
    flags: u32,
    finalized_by: BillingStatementFinalization,
    now: u64,
)
    requires
        state_wf(st),
        new_admin != st.admin,
    ensures
        ({
            let old_admin = st.admin;
            let s = rotate_admin_step(st, old_admin, new_admin).0;
            &&& rotate_admin_step(st, old_admin, new_admin).1 is Ok
            &&& s.admin == new_admin
            &&& rotate_admin_step(s, old_admin, who) == (s, Err::<(), Error>(Error::Unauthorized))
            &&& set_min_topup_step(s, old_admin, amount) == (s, Err::<(), Error>(Error::Unauthorized))
            &&& emergency_stop_step(s, old_admin, true) == (s, Err::<(), Error>(Error::Unauthorized))
            &&& emergency_stop_step(s, old_admin, false) == (s, Err::<(), Error>(Error::Unauthorized))
            &&& add_token_step(s, old_admin, token) == (s, Err::<(), Error>(Error::Unauthorized))
            &&& remove_token_step(s, old_admin, token) == (s, Err::<(), Error>(Error::Unauthorized))
            &&& set_retention_step(s, old_admin, keep) == (s, Err::<(), Error>(Error::Unauthorized))
            &&& compact_step(s, old_admin, id, Some(keep)) == (s, Err::<usize, Error>(Error::Unauthorized))
            &&& refund_step(s, old_admin, id, who, amount) == (s, Err::<Transfer, Error>(
                Error::Unauthorized,
            ))
            &&& finalize_step(
                s,
                old_admin,
                id,
                period_index,
                who,
                who,
                now,
                now,
                amounts,
                flags,
                finalized_by,
                now,
            ) == (s, Err::<(), Error>(Error::Unauthorized))
            &&& blocklist_remove_step(s, old_admin, who, now) == (s, Err::<(), Error>(
                Error::Unauthorized,
            ))
        }),
{
}

/// Admin-only routes answer a caller who is not the stored admin with
/// `Unauthorized` (never `Forbidden`) and change nothing.
pub proof fn law_admin_routes_never_forbidden(
    st: VaultState,
    caller: Address,
    id: u32,
    who: Address,
    token: Address,
    keep: u32,
    amount: i128,
    period_index: u32,
    amounts: PeriodStatementAmounts,
    flags: u32,
    finalized_by: BillingStatementFinalization,
    now: u64,
)
    requires
        state_wf(st),
        caller != st.admin,
    ensures
        rotate_admin_step(st, caller, who) == (st, Err::<(), Error>(Error::Unauthorized)),
        set_min_topup_step(st, caller, amount) == (st, Err::<(), Error>(Error::Unauthorized)),
        emergency_stop_step(st, caller, true) == (st, Err::<(), Error>(Error::Unauthorized)),
        emergency_stop_step(st, caller, false) == (st, Err::<(), Error>(Error::Unauthorized)),
        add_token_step(st, caller, token) == (st, Err::<(), Error>(Error::Unauthorized)),
        remove_token_step(st, caller, token) == (st, Err::<(), Error>(Error::Unauthorized)),
        set_retention_step(st, caller, keep) == (st, Err::<(), Error>(Error::Unauthorized)),
        compact_step(st, caller, id, Some(keep)) == (st, Err::<usize, Error>(Error::Unauthorized)),
        refund_step(st, caller, id, who, amount) == (st, Err::<Transfer, Error>(
            Error::Unauthorized,
        )),
        finalize_step(
            st,
            caller,
            id,
            period_index,
            who,
            who,
            now,
            now,
            amounts,
            flags,
            finalized_by,
            now,
        ) == (st, Err::<(), Error>(Error::Unauthorized)),
        blocklist_remove_step(st, caller, who, now) == (st, Err::<(), Error>(Error::Unauthorized)),
{
}

/// The emergency stop is idempotent: engaging or releasing it twice is the
/// same as doing so once.
pub proof fn law_emergency_stop_idempotent(st: VaultState, enabled: bool)
    requires
        state_wf(st),
    ensures
        emergency_stop_step(emergency_stop_step(st, st.admin, enabled).0, st.admin, enabled)
            == emergency_stop_step(st, st.admin, enabled),
{
}

/// While the emergency stop is engaged, no subscription is created, funded or charged.
pub proof fn law_emergency_stop_halts_money_flow(
    st: VaultState,
    id: u32,
    subscriber: Address,
    merchant: Address,
    amount: i128,
    interval_seconds: u64,
    usage_enabled: bool,
    lifetime_cap: Option<i128>,
    expires_at: Option<u64>,
    now: u64,
)
    requires
        state_wf(st),
        st.emergency_stop,
    ensures
        create_step(
            st,
            subscriber,
            merchant,
            st.token,
            amount,
            interval_seconds,
            usage_enabled,
            lifetime_cap,
            expires_at,
            now,
        ) == (st, Err::<u32, Error>(Error::EmergencyStopActive)),
        deposit_step(st, id, subscriber, amount, now) == (st, Err::<Transfer, Error>(
            Error::EmergencyStopActive,
        )),
        charge_step(st, id, now) == (st, Err::<Transfer, Error>(Error::EmergencyStopActive)),
        usage_step(st, id, amount, now) == (st, Err::<Transfer, Error>(
            Error::EmergencyStopActive,
        )),
{
}

// ─── Blocklist ───────────────────────────────────────────────────────────────

/// A blocked subscriber can open no subscription (with any token), fund none
/// of its subscriptions, and resume none itself.
pub proof fn law_blocklisted_subscriber_is_held(
    st: VaultState,
    subscriber: Address,
    merchant: Address,
    token: Address,
    id: u32,
    amount: i128,
    interval_seconds: u64,
    usage_enabled: bool,
    lifetime_cap: Option<i128>,
    expires_at: Option<u64>,
    now: u64,
)
    requires
        state_wf(st),
        st.blocklist.contains_key(subscriber),
        !st.emergency_stop,
    ensures
        create_step(
            st,
            subscriber,
            merchant,
            token,
            amount,
            interval_seconds,
            usage_enabled,
            lifetime_cap,
            expires_at,
            now,
        ) == (st, Err::<u32, Error>(Error::SubscriberBlocklisted)),
        id < st.subs.len() && st.subs[id as int].subscriber == subscriber ==> deposit_step(
            st,
            id,
            subscriber,
            amount,
            now,
        ) == (st, Err::<Transfer, Error>(Error::SubscriberBlocklisted)),
        id < st.subs.len() && st.subs[id as int].subscriber == subscriber ==> resume_step(
            st,
            id,
            subscriber,
            now,
        ) == (st, Err::<(), Error>(Error::SubscriberBlocklisted)),
{
}

/// Blocking takes nothing away: a blocked subscriber may still cancel,
/// pause and withdraw, and its subscriptions are still charged, exactly as
/// for an unblocked one.
pub proof fn law_blocklist_preserves_obligations(
    st: VaultState,
    subscriber: Address,
    entry: BlocklistEntry,
    id: u32,
    now: u64,
)
    requires
        state_wf(st),
    ensures
        ({
            let b = VaultState { blocklist: st.blocklist.insert(subscriber, entry), ..st };
            &&& cancel_step(b, id, subscriber, now).1 == cancel_step(st, id, subscriber, now).1
            &&& pause_step(b, id, subscriber, now).1 == pause_step(st, id, subscriber, now).1
            &&& withdraw_step(b, id, subscriber, now).1 == withdraw_step(st, id, subscriber, now).1
            &&& charge_step(b, id, now).1 == charge_step(st, id, now).1
        }),
{
}

/// Adding a subscriber who is already blocked is rejected and leaves the
/// original entry (who added it, when, and why) unchanged.
pub proof fn law_duplicate_block_keeps_entry(
    st: VaultState,
    authorizer: Address,
    subscriber: Address,
    reason: Option<String>,
    now: u64,
)
    requires
        state_wf(st),
        st.blocklist.contains_key(subscriber),
    ensures
        blocklist_add_step(st, authorizer, subscriber, reason, now).1 is Err,
        blocklist_add_step(st, authorizer, subscriber, reason, now).0 == st,
{
}

/// After the admin unblocks a subscriber, blocking no longer stands in the
/// way of creating, funding or resuming.
pub proof fn law_unblock_restores_access(
    st: VaultState,
    subscriber: Address,
    merchant: Address,
    id: u32,
    amount: i128,
    interval_seconds: u64,
    usage_enabled: bool,
    lifetime_cap: Option<i128>,
    expires_at: Option<u64>,
    now: u64,
)
    requires
        state_wf(st),
        st.blocklist.contains_key(subscriber),
    ensures
        ({
            let s = blocklist_remove_step(st, st.admin, subscriber, now).0;
            &&& blocklist_remove_step(st, st.admin, subscriber, now).1 is Ok
            &&& !s.blocklist.contains_key(subscriber)
            &&& create_step(
                s,
                subscriber,
                merchant,
                s.token,
                amount,
                interval_seconds,
                usage_enabled,
                lifetime_cap,
                expires_at,
                now,
            ).1 != Err::<u32, Error>(Error::SubscriberBlocklisted)
            &&& deposit_step(s, id, subscriber, amount, now).1 != Err::<Transfer, Error>(
                Error::SubscriberBlocklisted,
            )
            &&& resume_step(s, id, subscriber, now).1 != Err::<(), Error>(
                Error::SubscriberBlocklisted,
            )
        }),
{
}

// ─── Statements ──────────────────────────────────────────────────────────────

/// A finalized statement is read back as written; the statements of every
/// other period read as before; a period never has two statements.
pub proof fn law_finalized_statement_reads_back(
    st: VaultState,
    id: u32,
    period_index: u32,
    subscriber: Address,
    merchant: Address,
    period_start: u64,
    period_end: u64,
    amounts: PeriodStatementAmounts,
    flags: u32,
    finalized_by: BillingStatementFinalization,
    now: u64,
    other_id: u32,
    other_period: u32,
)
    requires
        state_wf(st),
        id < st.subs.len(),
        period_start <= period_end,
    ensures
        ({
            let r = finalize_step(
                st,
                st.admin,
                id,
                period_index,
                subscriber,
                merchant,
                period_start,
                period_end,
                amounts,
                flags,
                finalized_by,
                now,
            );
            let x = period_statement(
                st,
                id,
                period_index,
                subscriber,
                merchant,
                period_start,
                period_end,
                amounts,
                flags,
                finalized_by,
                now,
            );
            &&& r.1 is Ok
            &&& periods_unique(r.0.periods)
            &&& period_lookup(r.0.periods, id, period_index) == Some(x)
            &&& (other_id != id || other_period != period_index) ==> period_lookup(
                r.0.periods,
                other_id,
                other_period,
            ) == period_lookup(st.periods, other_id, other_period)
            &&& r.0.periods.len() == st.periods.len() + (if has_period(
                st.periods,
                id,
                period_index,
            ) {
                0int
            } else {
                1int
            })
        }),
{
    let x = period_statement(
        st,
        id,
        period_index,
        subscriber,
        merchant,
        period_start,
        period_end,
        amounts,
        flags,
        finalized_by,
        now,
    );
    lemma_upsert_then_lookup(st.periods, x, id, period_index);
    lemma_upsert_then_lookup(st.periods, x, other_id, other_period);
}

/// The two statement logs are independent: charging writes one per-charge
/// row and leaves period statements alone; finalizing a period statement
/// leaves the per-charge rows and the subscriptions alone.
pub proof fn law_statement_logs_are_independent(
    st: VaultState,
    id: u32,
    period_index: u32,
    subscriber: Address,
    merchant: Address,
    period_start: u64,
    period_end: u64,
    amounts: PeriodStatementAmounts,
    flags: u32,
    finalized_by: BillingStatementFinalization,
    now: u64,
)
    requires
        state_wf(st),
    ensures
        charge_step(st, id, now).0.periods == st.periods,
        charge_step(st, id, now).1 is Ok ==> charge_step(st, id, now).0.charges.len()
            == st.charges.len() + 1,
        ({
            let f = finalize_step(
                st,
                st.admin,
                id,
                period_index,
                subscriber,
                merchant,
                period_start,
                period_end,
                amounts,
                flags,
                finalized_by,
                now,
            ).0;
            f.charges == st.charges && f.subs == st.subs
        }),
{
}

/// Compaction touches only the per-charge rows of the compacted
/// subscription: subscriptions, period statements, the blocklist and the
/// rows of every other subscription are unchanged.
pub proof fn law_compaction_is_local(
    st: VaultState,
    id: u32,
    keep: Option<u32>,
    other: u32,
)
    requires
        state_wf(st),
        other != id,
    ensures
        ({
            let s = compact_step(st, st.admin, id, keep).0;
            &&& s.subs == st.subs
            &&& s.periods == st.periods
            &&& s.blocklist == st.blocklist
            &&& s.charges.filter(crate::statements::charge_of(other)) == st.charges.filter(
                crate::statements::charge_of(other),
            )
        }),
{
    match crate::vault::retention_for(st, keep) {
        Some(k) => {
            if id < st.subs.len() {
                crate::statements::lemma_keep_newest_other_rows(st.charges, id, k as nat, other);
            }
        },
        None => {},
    }
}

/// Compaction with a row count keeps exactly the newest rows of the
/// compacted subscription, in order, and reports how many it dropped.
pub proof fn law_compaction_keeps_newest_rows(st: VaultState, id: u32, keep: u32)
    requires
        state_wf(st),
        id < st.subs.len(),
    ensures
        ({
            let (s, r) = compact_step(st, st.admin, id, Some(keep));
            let own = st.charges.filter(crate::statements::charge_of(id));
            &&& r == Ok::<usize, Error>((st.charges.len() - s.charges.len()) as usize)
            &&& s.charges.filter(crate::statements::charge_of(id)) == own.subrange(
                own.len() - crate::statements::min_nat(keep as nat, own.len()),
                own.len() as int,
            )
        }),
{
    crate::statements::lemma_keep_newest_own_rows(st.charges, id, keep as nat);
}

// ─── Paging over a run of finalized statements ──────────────────────────────

/// The arguments of one `finalize_billing_statement` call by the admin.
pub struct PeriodWrite {
    pub id: u32,
    pub period_index: u32,
    pub subscriber: Address,
    pub merchant: Address,
    pub period_start: u64,
    pub period_end: u64,
    pub amounts: PeriodStatementAmounts,
    pub status_flags: u32,
    pub finalized_by: BillingStatementFinalization,
    pub now: u64,
}

/// The state after the admin makes one write.
pub open spec fn apply_write(st: VaultState, w: PeriodWrite) -> VaultState {
    finalize_step(
        st,
        st.admin,
        w.id,
        w.period_index,
        w.subscriber,
        w.merchant,
        w.period_start,
        w.period_end,
        w.amounts,
        w.status_flags,
        w.finalized_by,
        w.now,
    ).0
}

/// The state after the admin makes the writes in order.
pub open spec fn finalize_all(st: VaultState, ws: Seq<PeriodWrite>) -> VaultState
    decreases ws.len(),
{
    if ws.len() == 0 {
        st
    } else {
        apply_write(finalize_all(st, ws.drop_last()), ws.last())
    }
}

/// The statement that a write stores.
pub open spec fn written_statement(st: VaultState, w: PeriodWrite) -> PeriodBillingStatement {
    period_statement(
        st,
        w.id,
        w.period_index,
        w.subscriber,
        w.merchant,
        w.period_start,
        w.period_end,
        w.amounts,
        w.status_flags,
        w.finalized_by,
        w.now,
    )
}

/// The statements that the writes store, in write order.
pub open spec fn written_statements(st: VaultState, ws: Seq<PeriodWrite>) -> Seq<
    PeriodBillingStatement,
> {
    ws.map_values(|w: PeriodWrite| written_statement(st, w))
}

/// Each write is accepted and is for a new period: its subscription exists,
/// its period is well ordered, the vault holds no statement for it, and no
/// two writes are for the same period.
pub open spec fn fresh_writes(st: VaultState, ws: Seq<PeriodWrite>) -> bool {
    &&& forall|k: int|
        0 <= k < ws.len() ==> (#[trigger] ws[k]).id < st.subs.len() && ws[k].period_start
            <= ws[k].period_end && !has_period(st.periods, ws[k].id, ws[k].period_index)
    &&& forall|k: int, l: int|
        0 <= k < ws.len() && 0 <= l < ws.len() && k != l ==> !(#[trigger] ws[k].id
            == #[trigger] ws[l].id && ws[k].period_index == ws[l].period_index)
}

/// Writes for new periods are appended in write order.
pub proof fn law_fresh_writes_append(st: VaultState, ws: Seq<PeriodWrite>)
    requires
        state_wf(st),
        fresh_writes(st, ws),
    ensures
        state_wf(finalize_all(st, ws)),
        finalize_all(st, ws).subs == st.subs,
        finalize_all(st, ws).admin == st.admin,
        finalize_all(st, ws).periods == st.periods + written_statements(st, ws),
    decreases ws.len(),
{
    if ws.len() > 0 {
        let init = ws.drop_last();
        let w = ws.last();
        assert forall|k: int| 0 <= k < init.len() implies (#[trigger] init[k]).id < st.subs.len()
            && init[k].period_start <= init[k].period_end && !has_period(
            st.periods,
            init[k].id,
            init[k].period_index,
        ) by {
            assert(init[k] == ws[k]);
        }
        assert forall|k: int, l: int|
            0 <= k < init.len() && 0 <= l < init.len() && k != l implies !(#[trigger] init[k].id
            == #[trigger] init[l].id && init[k].period_index == init[l].period_index) by {
            assert(init[k] == ws[k] && init[l] == ws[l]);
        }
        law_fresh_writes_append(st, init);
        let mid = finalize_all(st, init);
        let prefix = written_statements(st, init);
        let x = written_statement(st, w);
        assert(ws[ws.len() - 1] == w);
        assert(written_statement(mid, w) == x);
        if has_period(mid.periods, w.id, w.period_index) {
            let i = choose|i: int|
                0 <= i < mid.periods.len() && #[trigger] is_period(
                    mid.periods[i],
                    w.id,
                    w.period_index,
                );
            if i < st.periods.len() {
                assert(mid.periods[i] == st.periods[i]);
                assert(is_period(st.periods[i], w.id, w.period_index));
            } else {
                let k = i - st.periods.len();
                assert(mid.periods[i] == prefix[k]);
                assert(init[k] == ws[k]);
                assert(ws[k].id == ws[ws.len() - 1].id);
            }
        }
        lemma_upsert_then_lookup(mid.periods, x, w.id, w.period_index);
        assert(upserted(mid.periods, x) == mid.periods.push(x));
        assert(written_statements(st, ws) =~= prefix.push(x));
        assert(st.periods + prefix.push(x) =~= (st.periods + prefix).push(x));
    }
}

/// Filtering with a predicate that every item meets keeps everything.
pub proof fn lemma_filter_keeps_all<T>(s: Seq<T>, p: spec_fn(T) -> bool)
    requires
        forall|i: int| 0 <= i < s.len() ==> p(#[trigger] s[i]),
    ensures
        s.filter(p) == s,
    decreases s.len(),
{
    reveal(Seq::filter);
    if s.len() > 0 {
        lemma_filter_keeps_all(s.drop_last(), p);
        assert(p(s[s.len() - 1]));
        assert(s.drop_last().push(s.last()) =~= s);
    }
}

/// Paging by subscription over a run of writes for new periods of one
/// subscription that had no statements: the page from `start` holds
/// `min(limit, n - min(start, n))` statements, the `i`-th being the one of
/// write `start + i` (oldest first); it is empty when `start >= n` or
/// `limit == 0`.
pub proof fn law_subscription_pages_follow_writes(
    st: VaultState,
    id: u32,
    ws: Seq<PeriodWrite>,
    start: u32,
    limit: u32,
)
    requires
        state_wf(st),
        fresh_writes(st, ws),
        forall|k: int| 0 <= k < ws.len() ==> (#[trigger] ws[k]).id == id,
        st.periods.filter(period_of(id)).len() == 0,
    ensures
        ({
            let n = ws.len() as int;
            let r = page(finalize_all(st, ws).periods.filter(period_of(id)), start as int, limit as int);
            let skipped = if start < n { start as int } else { n };
            &&& r.len() == (if limit < n - skipped { limit as int } else { n - skipped })
            &&& forall|i: int| 0 <= i < r.len() ==> r[i] == written_statement(st, ws[start + i])
                && r[i].period_index == ws[start + i].period_index
        }),
{
    law_fresh_writes_append(st, ws);
    let stmts = written_statements(st, ws);
    Seq::filter_distributes_over_add(st.periods, stmts, period_of(id));
    assert(st.periods.filter(period_of(id)) =~= Seq::<PeriodBillingStatement>::empty());
    lemma_filter_keeps_all(stmts, period_of(id));
    assert(Seq::<PeriodBillingStatement>::empty() + stmts =~= stmts);
}

/// Paging by merchant over a run of writes for new periods: the statements
/// listed are those of the merchant whose period ends within `[from, to]`
/// (both ends included), the vault's earlier ones first and then the new ones
/// in write order; no other merchant's statement is listed. From a vault with
/// no matching statement, the page is the matching new statements, skipping
/// `start` and taking at most `limit`.
pub proof fn law_merchant_pages_follow_writes(
    st: VaultState,
    ws: Seq<PeriodWrite>,
    merchant: Address,
    from: u64,
    to: u64,
    start: u32,
    limit: u32,
)
    requires
        state_wf(st),
        fresh_writes(st, ws),
    ensures
        ({
            let p = merchant_in_range(merchant, from, to);
            let listed = finalize_all(st, ws).periods.filter(p);
            let news = written_statements(st, ws).filter(p);
            &&& listed == st.periods.filter(p) + news
            &&& forall|i: int|
                0 <= i < listed.len() ==> (#[trigger] listed[i]).merchant == merchant && from
                    <= listed[i].period_end_timestamp <= to
            &&& forall|k: int|
                0 <= k < ws.len() ==> (#[trigger] written_statements(st, ws)[k]).merchant
                    == ws[k].merchant && written_statements(st, ws)[k].period_end_timestamp
                    == ws[k].period_end
            &&& st.periods.filter(p).len() == 0 ==> page(listed, start as int, limit as int) == page(
                news,
                start as int,
                limit as int,
            )
        }),
{
    let p = merchant_in_range(merchant, from, to);
    law_fresh_writes_append(st, ws);
    let stmts = written_statements(st, ws);
    Seq::filter_distributes_over_add(st.periods, stmts, p);
    let listed = finalize_all(st, ws).periods.filter(p);
    broadcast use vstd::seq_lib::group_filter_ensures;

    assert forall|i: int| 0 <= i < listed.len() implies (#[trigger] listed[i]).merchant
        == merchant && from <= listed[i].period_end_timestamp <= to by {
        assert(p(listed[i]));
    }
    if st.periods.filter(p).len() == 0 {
        assert(st.periods.filter(p) + stmts.filter(p) =~= stmts.filter(p));
    }
}

// ─── Which status each call needs ────────────────────────────────────────────

/// Only an active subscription is charged. A successful interval or usage
/// charge found the subscription active, takes exactly the charged amount from
/// its escrow and leaves it active (or cancelled when the lifetime cap is
/// reached). On a subscription that is paused, cancelled or archived, both
/// charges are refused with `InvalidStatusTransition` and change neither the
/// subscriptions nor the audit rows, so nothing leaves the escrow.
pub proof fn law_only_active_subscriptions_are_charged(
    st: VaultState,
    id: u32,
    usage_amount: i128,
    now: u64,
)
    requires
        state_wf(st),
    ensures
        charge_step(st, id, now).1 is Ok ==> id < st.subs.len() && st.subs[id as int].status
            == SubscriptionStatus::Active && charge_step(st, id, now).0.subs[id as int].prepaid_balance
            == st.subs[id as int].prepaid_balance - st.subs[id as int].amount && (charge_step(
            st,
            id,
            now,
        ).0.subs[id as int].status == SubscriptionStatus::Active || charge_step(
            st,
            id,
            now,
        ).0.subs[id as int].status == SubscriptionStatus::Cancelled),
        usage_step(st, id, usage_amount, now).1 is Ok ==> id < st.subs.len() && st.subs[id as int].status
            == SubscriptionStatus::Active && usage_step(st, id, usage_amount, now).0.subs[id as int].prepaid_balance
            == st.subs[id as int].prepaid_balance - usage_amount,
        !st.emergency_stop && id < st.subs.len() && st.subs[id as int].status
            != SubscriptionStatus::Active ==> charge_step(st, id, now).1 == Err::<Transfer, Error>(
            Error::InvalidStatusTransition,
        ) && charge_step(st, id, now).0.subs == st.subs && charge_step(st, id, now).0.charges
            == st.charges,
        !st.emergency_stop && id < st.subs.len() && st.subs[id as int].status
            != SubscriptionStatus::Active ==> usage_step(st, id, usage_amount, now).1 == Err::<
            Transfer,
            Error,
        >(Error::InvalidStatusTransition) && usage_step(st, id, usage_amount, now).0.subs
            == st.subs && usage_step(st, id, usage_amount, now).0.charges == st.charges,
{
}

/// Pause, resume and cancel move between the statuses they name and no
/// others: pausing succeeds only from active and gives paused, resuming only
/// from paused and gives active, cancelling only from active or paused and
/// gives cancelled.
pub proof fn law_status_moves(st: VaultState, id: u32, caller: Address, now: u64)
    requires
        state_wf(st),
    ensures
        pause_step(st, id, caller, now).1 is Ok ==> id < st.subs.len() && st.subs[id as int].status
            == SubscriptionStatus::Active && pause_step(st, id, caller, now).0.subs[id as int].status
            == SubscriptionStatus::Paused,
        resume_step(st, id, caller, now).1 is Ok ==> id < st.subs.len() && st.subs[id as int].status
            == SubscriptionStatus::Paused && resume_step(st, id, caller, now).0.subs[id as int].status
            == SubscriptionStatus::Active,
        cancel_step(st, id, caller, now).1 is Ok ==> id < st.subs.len() && (st.subs[id as int].status
            == SubscriptionStatus::Active || st.subs[id as int].status
            == SubscriptionStatus::Paused) && cancel_step(st, id, caller, now).0.subs[id as int].status
            == SubscriptionStatus::Cancelled,
{
}

/// Cancellation is terminal: no call brings a cancelled subscription back to
/// active or paused; only archival moves it on, to archived.
pub proof fn law_cancelled_is_terminal(
    st: VaultState,
    k: u32,
    id: u32,
    caller: Address,
    amount: i128,
    now: u64,
)
    requires
        state_wf(st),
        k < st.subs.len(),
        st.subs[k as int].status == SubscriptionStatus::Cancelled,
    ensures
        pause_step(st, id, caller, now).0.subs[k as int].status == SubscriptionStatus::Cancelled,
        resume_step(st, id, caller, now).0.subs[k as int].status == SubscriptionStatus::Cancelled,
        cancel_step(st, id, caller, now).0.subs[k as int].status == SubscriptionStatus::Cancelled,
        deposit_step(st, id, caller, amount, now).0.subs[k as int].status
            == SubscriptionStatus::Cancelled,
        charge_step(st, id, now).0.subs[k as int].status == SubscriptionStatus::Cancelled,
        usage_step(st, id, amount, now).0.subs[k as int].status == SubscriptionStatus::Cancelled,
        withdraw_step(st, id, caller, now).0.subs[k as int].status == SubscriptionStatus::Cancelled,
        refund_step(st, caller, id, caller, amount).0.subs[k as int].status
            == SubscriptionStatus::Cancelled,
        cleanup_step(st, id, caller, now).0.subs[k as int].status == SubscriptionStatus::Cancelled
            || cleanup_step(st, id, caller, now).0.subs[k as int].status
            == SubscriptionStatus::Archived,
{
}

/// The subscriber takes the escrow back only from a cancelled, archived or
/// expired subscription; from an active or paused one that has not expired
/// the withdrawal is refused with `InvalidStatusTransition` and nothing changes.
pub proof fn law_withdrawal_needs_terminal_status(
    st: VaultState,
    id: u32,
    subscriber: Address,
    now: u64,
)
    requires
        state_wf(st),
    ensures
        withdraw_step(st, id, subscriber, now).1 is Ok ==> id < st.subs.len() && (
        st.subs[id as int].status == SubscriptionStatus::Cancelled || st.subs[id as int].status
            == SubscriptionStatus::Archived || (st.subs[id as int].expires_at matches Some(t)
            && now >= t)),
        id < st.subs.len() && subscriber == st.subs[id as int].subscriber && (
        st.subs[id as int].status == SubscriptionStatus::Active || st.subs[id as int].status
            == SubscriptionStatus::Paused) && !(st.subs[id as int].expires_at matches Some(t)
            && now >= t) ==> withdraw_step(st, id, subscriber, now) == (st, Err::<Transfer, Error>(
            Error::InvalidStatusTransition,
        )),
{
}

/// Only a cancelled subscription, or an expired one not yet archived, is
/// archived; an active or paused subscription that has not expired is refused
/// with `InvalidStatusTransition` and nothing changes (no event either).
pub proof fn law_archival_needs_terminal_status(
    st: VaultState,
    id: u32,
    caller: Address,
    now: u64,
)
    requires
        state_wf(st),
    ensures
        cleanup_step(st, id, caller, now).1 is Ok ==> id < st.subs.len() && (
        st.subs[id as int].status == SubscriptionStatus::Cancelled || (st.subs[id as int].status
            != SubscriptionStatus::Archived && (st.subs[id as int].expires_at matches Some(t)
            && now >= t))) && cleanup_step(st, id, caller, now).0.subs[id as int].status
            == SubscriptionStatus::Archived,
        id < st.subs.len() && (caller == st.subs[id as int].subscriber || caller
            == st.subs[id as int].merchant) && (st.subs[id as int].status
            == SubscriptionStatus::Active || st.subs[id as int].status
            == SubscriptionStatus::Paused) && !(st.subs[id as int].expires_at matches Some(t)
            && now >= t) ==> cleanup_step(st, id, caller, now) == (st, Err::<(), Error>(
            Error::InvalidStatusTransition,
        )),
{
}

/// A merchant (any authorizer but the admin) blocks a subscriber only while
/// it bills that subscriber on an active or paused subscription; otherwise the
/// request is answered `Forbidden` and nothing changes.
pub proof fn law_merchant_blocks_only_live_subscribers(
    st: VaultState,
    authorizer: Address,
    subscriber: Address,
    reason: Option<String>,
    now: u64,
)
    requires
        state_wf(st),
        authorizer != st.admin,
    ensures
        blocklist_add_step(st, authorizer, subscriber, reason, now).1 is Ok ==> exists|i: int|
            0 <= i < st.subs.len() && #[trigger] st.subs[i].merchant == authorizer
                && st.subs[i].subscriber == subscriber && (st.subs[i].status
                == SubscriptionStatus::Active || st.subs[i].status == SubscriptionStatus::Paused),
        !(exists|i: int|
            0 <= i < st.subs.len() && #[trigger] st.subs[i].merchant == authorizer
                && st.subs[i].subscriber == subscriber && (st.subs[i].status
                == SubscriptionStatus::Active || st.subs[i].status == SubscriptionStatus::Paused))
            ==> blocklist_add_step(st, authorizer, subscriber, reason, now) == (st, Err::<
            (),
            Error,
        >(Error::Forbidden)),
{
}

/// What a successful interval charge means: the subscription was active and
/// not expired, a full interval had passed since the last payment, the
/// escrow covered the amount and the lifetime cap allowed it; the merchant is
/// paid exactly the amount in the subscription's token, the lifetime total
/// grows by it, the last payment moves to now, and one audit row records it.
pub proof fn law_charge_outcome(st: VaultState, id: u32, now: u64)
    requires
        state_wf(st),
    ensures
        charge_step(st, id, now).1 is Ok ==> ({
            let s = st.subs[id as int];
            let n = charge_step(st, id, now).0.subs[id as int];
            &&& !st.emergency_stop
            &&& !(s.expires_at matches Some(t) && now >= t)
            &&& now >= s.last_payment_timestamp + s.interval_seconds
            &&& s.prepaid_balance >= s.amount
            &&& (s.lifetime_cap matches Some(c) ==> s.lifetime_charged + s.amount <= c)
            &&& charge_step(st, id, now).1 == Ok::<Transfer, Error>(
                Transfer {
                    token: s.token,
                    account: s.merchant,
                    amount: s.amount,
                    direction: TransferDirection::OutOfVault,
                },
            )
            &&& n.lifetime_charged == s.lifetime_charged + s.amount
            &&& n.last_payment_timestamp == now
            &&& n.subscriber == s.subscriber && n.merchant == s.merchant && n.amount == s.amount
            &&& charge_step(st, id, now).0.charges.len() == st.charges.len() + 1
            &&& charge_step(st, id, now).0.charges.last().subscription_id == id
            &&& charge_step(st, id, now).0.charges.last().amount == s.amount
        }),
{
}

/// What a successful deposit means: the depositor is the subscriber and is
/// not blocked, the subscription is active or paused and not expired, and the
/// amount is positive and at least the minimum top-up; the escrow grows by
/// exactly the amount, which the subscriber transfers into the vault.
pub proof fn law_deposit_outcome(st: VaultState, id: u32, depositor: Address, amount: i128, now: u64)
    requires
        state_wf(st),
    ensures
        deposit_step(st, id, depositor, amount, now).1 is Ok ==> ({
            let s = st.subs[id as int];
            &&& id < st.subs.len()
            &&& !st.emergency_stop
            &&& depositor == s.subscriber
            &&& !st.blocklist.contains_key(depositor)
            &&& (s.status == SubscriptionStatus::Active || s.status == SubscriptionStatus::Paused)
            &&& !(s.expires_at matches Some(t) && now >= t)
            &&& amount > 0 && amount >= st.min_topup
            &&& deposit_step(st, id, depositor, amount, now).0.subs[id as int].prepaid_balance
                == s.prepaid_balance + amount
            &&& deposit_step(st, id, depositor, amount, now).1 == Ok::<Transfer, Error>(
                Transfer {
                    token: s.token,
                    account: depositor,
                    amount,
                    direction: TransferDirection::IntoVault,
                },
            )
        }),
{
}

/// What a successful withdrawal or refund pays: a withdrawal pays the
/// subscriber the whole positive escrow and leaves it empty; a refund, made by
/// the admin to the subscription's own subscriber, pays a positive amount no
/// larger than the escrow and takes exactly that from it. Neither changes the
/// status.
pub proof fn law_payout_outcome(st: VaultState, id: u32, who: Address, amount: i128, now: u64)
    requires
        state_wf(st),
    ensures
        withdraw_step(st, id, who, now).1 is Ok ==> ({
            let s = st.subs[id as int];
            let n = withdraw_step(st, id, who, now).0.subs[id as int];
            &&& who == s.subscriber
            &&& s.prepaid_balance > 0
            &&& n.prepaid_balance == 0
            &&& n.status == s.status
            &&& withdraw_step(st, id, who, now).1 == Ok::<Transfer, Error>(
                Transfer {
                    token: s.token,
                    account: who,
                    amount: s.prepaid_balance,
                    direction: TransferDirection::OutOfVault,
                },
            )
        }),
        refund_step(st, st.admin, id, who, amount).1 is Ok ==> ({
            let s = st.subs[id as int];
            let n = refund_step(st, st.admin, id, who, amount).0.subs[id as int];
            &&& who == s.subscriber
            &&& 0 < amount <= s.prepaid_balance
            &&& n.prepaid_balance == s.prepaid_balance - amount
            &&& n.status == s.status
        }),
{
}

// ─── Storage ─────────────────────────────────────────────────────────────────

/// Stored parts determine the vault: two states that the same valid parts
/// describe differ at most in their published events. So restoring what
/// `to_parts` stored gives back the same vault.
pub proof fn law_parts_determine_state(a: VaultState, b: VaultState, p: VaultParts)
    requires
        parts_valid(p),
        state_of_parts(a, p),
        state_of_parts(b, p),
    ensures
        (VaultState { events: Seq::<VaultEvent>::empty(), ..a }) == (VaultState {
            events: Seq::<VaultEvent>::empty(),
            ..b
        }),
{
    let s = p.blocklist@;
    assert forall|k: Address| a.blocklist.contains_key(k) implies b.blocklist.contains_key(k)
        && a.blocklist[k] == b.blocklist[k] by {
        let i = choose|i: int| 0 <= i < s.len() && #[trigger] s[i].subscriber == k;
        assert(a.blocklist[s[i].subscriber] == s[i]);
    }
    assert forall|k: Address| b.blocklist.contains_key(k) implies a.blocklist.contains_key(k) by {
        let i = choose|i: int| 0 <= i < s.len() && #[trigger] s[i].subscriber == k;
        assert(a.blocklist.contains_key(s[i].subscriber));
    }
    assert(a.blocklist =~= b.blocklist);
}

// ─── Merchant configuration ──────────────────────────────────────────────────

/// A freshly initialized merchant configuration is read back as created:
/// active, not paused, with the given terms.
pub proof fn law_initialized_config_reads_back(
    configs: Map<Address, MerchantConfig>,
    merchant: Address,
    payout_address: Address,
    fee_bips: u32,
    allowed_operations: u32,
    fee_address: Option<Address>,
    redirect_url: String,
)
    requires
        initialize_outcome(
            configs,
            merchant,
            payout_address,
            fee_bips,
            allowed_operations,
            fee_address,
            redirect_url,
        ) is Ok,
    ensures
        ({
            let c = initialize_outcome(
                configs,
                merchant,
                payout_address,
                fee_bips,
                allowed_operations,
                fee_address,
                redirect_url,
            )->Ok_0;
            &&& configs.insert(merchant, c)[merchant] == c
            &&& c.is_active
            &&& !c.paused
            &&& c.fee_bips == fee_bips
            &&& c.allowed_operations == allowed_operations
            &&& c.redirect_url == redirect_url
        }),
{
}

/// A partial update changes exactly the fields it names: an update that
/// names no field leaves the configuration as it was.
pub proof fn law_partial_update_preserves_other_fields(c: MerchantConfig, fee_bips: u32)
    ensures
        updated_config(c, None, None, None, None, None, None, None) == c,
        updated_config(c, None, Some(fee_bips), None, None, None, None, None) == (MerchantConfig {
            fee_bips,
            ..c
        }),
{
}

/// Updating a merchant that has no configuration is answered `ConfigNotFound`.
pub proof fn law_update_needs_config(
    configs: Map<Address, MerchantConfig>,
    merchant: Address,
    fee_bips: Option<u32>,
)
    requires
        !configs.contains_key(merchant),
    ensures
        update_outcome(configs, merchant, None, fee_bips, None, None, None, None, None) == Err::<
            MerchantConfig,
            Error,
        >(Error::ConfigNotFound),
{
}

} // verus!
