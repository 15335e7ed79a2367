use vstd::prelude::*;

use crate::blocklist::{entries_describe, entries_unique, Blocklist, BlocklistEntry};
use crate::paging::{lemma_take_succ, page};
use crate::statements::{
    charge_of, keep_newest, merchant_in_range, period_lookup, period_of, upserted,
    BillingStatementFinalization, ChargeKind, ChargeLog, ChargeStatement, PeriodBillingStatement,
    PeriodStatementAmounts, PeriodStatementBook, StatementPage,
};
use crate::subscription::{
    cancel_result, charge_result, cleanup_result, creation_result, deposit_result, pause_result,
    refund_result, resume_result, subscription_wf, usage_charge_result, withdraw_result,
    Subscription, SubscriptionStatus,
};
use crate::types::{Address, Error};

verus! {

/// Which way a token transfer goes, seen from the vault.
#[derive(Clone, Copy, Debug, PartialEq, Eq, Structural)]
pub enum TransferDirection {
    IntoVault,
    OutOfVault,
}

/// A token movement that the host must perform for a call to take effect.
#[derive(Clone, Copy, Debug, PartialEq, Eq, Structural)]
pub struct Transfer {
    pub token: Address,
    pub account: Address,
    pub amount: i128,
    pub direction: TransferDirection,
}

/// The vault's configuration and size, as exported to the admin.
#[derive(Clone, Copy, Debug, PartialEq, Eq, Structural)]
pub struct ContractSnapshot {
    pub admin: Address,
    pub token: Address,
    pub token_decimals: u32,
    pub min_topup: i128,
    pub grace_period: u64,
    pub emergency_stop: bool,
    pub billing_retention: Option<u32>,
    pub subscription_count: u32,
}

/// Events the vault publishes.
#[derive(Debug, PartialEq, Eq)]
pub enum VaultEvent {
    SubscriptionExpired { subscription_id: u32, timestamp: u64 },
    SubscriptionArchived { subscription_id: u32, timestamp: u64 },
    BlocklistAdded {
        subscriber: Address,
        added_by: Address,
        timestamp: u64,
        reason: Option<String>,
    },
    BlocklistRemoved { subscriber: Address, removed_by: Address, timestamp: u64 },
}

/// The abstract state of the vault.
#[verifier::ext_equal]
pub struct VaultState {
    pub admin: Address,
    pub token: Address,
    pub token_decimals: u32,
    pub min_topup: i128,
    pub grace_period: u64,
    pub emergency_stop: bool,
    pub accepted_tokens: Seq<Address>,
    pub billing_retention: Option<u32>,
    /// Subscription `id` is `subs[id]`.
    pub subs: Seq<Subscription>,
    pub charges: Seq<ChargeStatement>,
    pub periods: Seq<PeriodBillingStatement>,
    pub blocklist: Map<Address, BlocklistEntry>,
    pub events: Seq<VaultEvent>,
}

/// The bounds every vault state keeps.
pub open spec fn state_wf(st: VaultState) -> bool {
    &&& st.min_topup > 0
    &&& st.accepted_tokens.contains(st.token)
    &&& st.subs.len() <= u32::MAX
    &&& forall|i: int| 0 <= i < st.subs.len() ==> subscription_wf(#[trigger] st.subs[i])
    &&& crate::statements::periods_unique(st.periods)
}

// ─── Rules of each call, over the abstract state ─────────────────────────────

/// Whether `caller` is the subscriber or the merchant of `s`.
pub open spec fn is_party(s: Subscription, caller: Address) -> bool {
    caller == s.subscriber || caller == s.merchant
}

/// Whether `merchant` bills `subscriber` on a live (active or paused) subscription.
/// A paused subscription still counts as an active relationship; cancelled
/// and archived ones do not.
pub open spec fn merchant_serves(subs: Seq<Subscription>, merchant: Address, subscriber: Address) -> bool {
    exists|i: int|
        0 <= i < subs.len() && #[trigger] subs[i].merchant == merchant && subs[i].subscriber
            == subscriber && (subs[i].status == SubscriptionStatus::Active || subs[i].status
            == SubscriptionStatus::Paused)
}

/// The state with subscription `id` replaced.
pub open spec fn with_sub(st: VaultState, id: u32, s: Subscription) -> VaultState {
    VaultState { subs: st.subs.update(id as int, s), ..st }
}

/// The state with one more event.
pub open spec fn with_event(st: VaultState, e: VaultEvent) -> VaultState {
    VaultState { events: st.events.push(e), ..st }
}

pub open spec fn create_step(
    st: VaultState,
    subscriber: Address,
    merchant: Address,
    token: Address,
    amount: i128,
    interval_seconds: u64,
    usage_enabled: bool,
    lifetime_cap: Option<i128>,
    expires_at: Option<u64>,
    now: u64,
) -> (VaultState, Result<u32, Error>) {
    if st.emergency_stop {
        (st, Err(Error::EmergencyStopActive))
    } else if st.blocklist.contains_key(subscriber) {
        (st, Err(Error::SubscriberBlocklisted))
    } else if !st.accepted_tokens.contains(token) {
        (st, Err(Error::TokenNotAccepted))
    } else {
        match creation_result(
            subscriber,
            merchant,
            token,
            amount,
            interval_seconds,
            usage_enabled,
            lifetime_cap,
            expires_at,
            now,
        ) {
            Err(e) => (st, Err(e)),
            Ok(s) => if st.subs.len() >= u32::MAX {
                (st, Err(Error::Overflow))
            } else {
                (VaultState { subs: st.subs.push(s), ..st }, Ok(st.subs.len() as u32))
            },
        }
    }
}

pub open spec fn deposit_step(
    st: VaultState,
    id: u32,
    depositor: Address,
    amount: i128,
    now: u64,
) -> (VaultState, Result<Transfer, Error>) {
    if st.emergency_stop {
        (st, Err(Error::EmergencyStopActive))
    } else if id >= st.subs.len() {
        (st, Err(Error::NotFound))
    } else if depositor != st.subs[id as int].subscriber {
        (st, Err(Error::Forbidden))
    } else if st.blocklist.contains_key(depositor) {
        (st, Err(Error::SubscriberBlocklisted))
    } else {
        let s = st.subs[id as int];
        match deposit_result(s, amount, st.min_topup, now) {
            Err(e) => (st, Err(e)),
            Ok(ns) => (
                with_sub(st, id, ns),
                Ok(
                    Transfer {
                        token: s.token,
                        account: depositor,
                        amount,
                        direction: TransferDirection::IntoVault,
                    },
                ),
            ),
        }
    }
}

pub open spec fn charge_step(st: VaultState, id: u32, now: u64) -> (VaultState, Result<
    Transfer,
    Error,
>) {
    if st.emergency_stop {
        (st, Err(Error::EmergencyStopActive))
    } else if id >= st.subs.len() {
        (st, Err(Error::NotFound))
    } else {
        let s = st.subs[id as int];
        match charge_result(s, now) {
            Err(e) => if e == Error::SubscriptionExpired {
                (
                    with_event(
                        st,
                        VaultEvent::SubscriptionExpired { subscription_id: id, timestamp: now },
                    ),
                    Err(e),
                )
            } else {
                (st, Err(e))
            },
            Ok(ns) => (
                VaultState {
                    subs: st.subs.update(id as int, ns),
                    charges: st.charges.push(
                        ChargeStatement {
                            subscription_id: id,
                            charged_at: now,
                            amount: s.amount,
                            kind: ChargeKind::Interval,
                        },
                    ),
                    ..st
                },
                Ok(
                    Transfer {
                        token: s.token,
                        account: s.merchant,
                        amount: s.amount,
                        direction: TransferDirection::OutOfVault,
                    },
                ),
            ),
        }
    }
}

pub open spec fn usage_step(st: VaultState, id: u32, usage_amount: i128, now: u64) -> (
    VaultState,
    Result<Transfer, Error>,
) {
    if st.emergency_stop {
        (st, Err(Error::EmergencyStopActive))
    } else if id >= st.subs.len() {
        (st, Err(Error::NotFound))
    } else {
        let s = st.subs[id as int];
        match usage_charge_result(s, usage_amount, now) {
            Err(e) => if e == Error::SubscriptionExpired {
                (
                    with_event(
                        st,
                        VaultEvent::SubscriptionExpired { subscription_id: id, timestamp: now },
                    ),
                    Err(e),
                )
            } else {
                (st, Err(e))
            },
            Ok(ns) => (
                VaultState {
                    subs: st.subs.update(id as int, ns),
                    charges: st.charges.push(
                        ChargeStatement {
                            subscription_id: id,
                            charged_at: now,
                            amount: usage_amount,
                            kind: ChargeKind::Usage,
                        },
                    ),
                    ..st
                },
                Ok(
                    Transfer {
                        token: s.token,
                        account: s.merchant,
                        amount: usage_amount,
                        direction: TransferDirection::OutOfVault,
                    },
                ),
            ),
        }
    }
}

/// Charging each listed subscription in turn.
pub open spec fn batch_step(st: VaultState, ids: Seq<u32>, now: u64) -> (VaultState, Seq<
    Result<Transfer, Error>,
>)
    decreases ids.len(),
{
    if ids.len() == 0 {
        (st, Seq::empty())
    } else {
        let prev = batch_step(st, ids.drop_last(), now);
        let last = charge_step(prev.0, ids.last(), now);
        (last.0, prev.1.push(last.1))
    }
}

/// Pausing, resuming and cancelling are for the subscriber or the merchant.
pub open spec fn pause_step(st: VaultState, id: u32, caller: Address, now: u64) -> (
    VaultState,
    Result<(), Error>,
) {
    if id >= st.subs.len() {
        (st, Err(Error::NotFound))
    } else if !is_party(st.subs[id as int], caller) {
        (st, Err(Error::Forbidden))
    } else {
        match pause_result(st.subs[id as int], now) {
            Err(e) => (st, Err(e)),
            Ok(ns) => (with_sub(st, id, ns), Ok(())),
        }
    }
}

pub open spec fn resume_step(st: VaultState, id: u32, caller: Address, now: u64) -> (
    VaultState,
    Result<(), Error>,
) {
    if id >= st.subs.len() {
        (st, Err(Error::NotFound))
    } else if !is_party(st.subs[id as int], caller) {
        (st, Err(Error::Forbidden))
    } else if caller == st.subs[id as int].subscriber && st.blocklist.contains_key(caller) {
        (st, Err(Error::SubscriberBlocklisted))
    } else {
        match resume_result(st.subs[id as int], now) {
            Err(e) => (st, Err(e)),
            Ok(ns) => (with_sub(st, id, ns), Ok(())),
        }
    }
}

pub open spec fn cancel_step(st: VaultState, id: u32, caller: Address, now: u64) -> (
    VaultState,
    Result<(), Error>,
) {
    if id >= st.subs.len() {
        (st, Err(Error::NotFound))
    } else if !is_party(st.subs[id as int], caller) {
        (st, Err(Error::Forbidden))
    } else {
        match cancel_result(st.subs[id as int], now) {
            Err(e) => (st, Err(e)),
            Ok(ns) => (with_sub(st, id, ns), Ok(())),
        }
    }
}

pub open spec fn cleanup_step(st: VaultState, id: u32, caller: Address, now: u64) -> (
    VaultState,
    Result<(), Error>,
) {
    if id >= st.subs.len() {
        (st, Err(Error::NotFound))
    } else if !is_party(st.subs[id as int], caller) {
        (st, Err(Error::Forbidden))
    } else {
        match cleanup_result(st.subs[id as int], now) {
            Err(e) => (st, Err(e)),
            Ok(ns) => (
                with_event(
                    with_sub(st, id, ns),
                    VaultEvent::SubscriptionArchived { subscription_id: id, timestamp: now },
                ),
                Ok(()),
            ),
        }
    }
}

/// Only the subscriber takes the escrow back.
pub open spec fn withdraw_step(st: VaultState, id: u32, subscriber: Address, now: u64) -> (
    VaultState,
    Result<Transfer, Error>,
) {
    if id >= st.subs.len() {
        (st, Err(Error::NotFound))
    } else if subscriber != st.subs[id as int].subscriber {
        (st, Err(Error::Forbidden))
    } else {
        let s = st.subs[id as int];
        match withdraw_result(s, now) {
            Err(e) => (st, Err(e)),
            Ok(ns) => (
                with_sub(st, id, ns),
                Ok(
                    Transfer {
                        token: s.token,
                        account: subscriber,
                        amount: s.prepaid_balance,
                        direction: TransferDirection::OutOfVault,
                    },
                ),
            ),
        }
    }
}

pub open spec fn refund_step(
    st: VaultState,
    admin: Address,
    id: u32,
    subscriber: Address,
    amount: i128,
) -> (VaultState, Result<Transfer, Error>) {
    if admin != st.admin {
        (st, Err(Error::Unauthorized))
    } else if id >= st.subs.len() {
        (st, Err(Error::NotFound))
    } else if subscriber != st.subs[id as int].subscriber {
        (st, Err(Error::Unauthorized))
    } else {
        let s = st.subs[id as int];
        match refund_result(s, amount) {
            Err(e) => (st, Err(e)),
            Ok(ns) => (
                with_sub(st, id, ns),
                Ok(
                    Transfer {
                        token: s.token,
                        account: subscriber,
                        amount,
                        direction: TransferDirection::OutOfVault,
                    },
                ),
            ),
        }
    }
}

pub open spec fn rotate_admin_step(st: VaultState, current: Address, new_admin: Address) -> (
    VaultState,
    Result<(), Error>,
) {
    if current != st.admin {
        (st, Err(Error::Unauthorized))
    } else {
        (VaultState { admin: new_admin, ..st }, Ok(()))
    }
}

pub open spec fn set_min_topup_step(st: VaultState, admin: Address, min_topup: i128) -> (
    VaultState,
    Result<(), Error>,
) {
    if admin != st.admin {
        (st, Err(Error::Unauthorized))
    } else if min_topup <= 0 {
        (st, Err(Error::InvalidAmount))
    } else {
        (VaultState { min_topup, ..st }, Ok(()))
    }
}

pub open spec fn emergency_stop_step(st: VaultState, admin: Address, enabled: bool) -> (
    VaultState,
    Result<(), Error>,
) {
    if admin != st.admin {
        (st, Err(Error::Unauthorized))
    } else {
        (VaultState { emergency_stop: enabled, ..st }, Ok(()))
    }
}

pub open spec fn add_token_step(st: VaultState, admin: Address, token: Address) -> (
    VaultState,
    Result<(), Error>,
) {
    if admin != st.admin {
        (st, Err(Error::Unauthorized))
    } else if st.accepted_tokens.contains(token) {
        (st, Ok(()))
    } else {
        (VaultState { accepted_tokens: st.accepted_tokens.push(token), ..st }, Ok(()))
    }
}

/// Selects the tokens other than `token`.
pub open spec fn other_than(token: Address) -> spec_fn(Address) -> bool {
    |t: Address| t != token
}

pub open spec fn remove_token_step(st: VaultState, admin: Address, token: Address) -> (
    VaultState,
    Result<(), Error>,
) {
    if admin != st.admin {
        (st, Err(Error::Unauthorized))
    } else if token == st.token {
        (st, Err(Error::InvalidInput))
    } else if !st.accepted_tokens.contains(token) {
        (st, Err(Error::NotFound))
    } else {
        (
            VaultState { accepted_tokens: st.accepted_tokens.filter(other_than(token)), ..st },
            Ok(()),
        )
    }
}

pub open spec fn set_retention_step(st: VaultState, admin: Address, keep: u32) -> (
    VaultState,
    Result<(), Error>,
) {
    if admin != st.admin {
        (st, Err(Error::Unauthorized))
    } else {
        (VaultState { billing_retention: Some(keep), ..st }, Ok(()))
    }
}

/// How many rows compaction keeps: the given count, else the configured retention.
pub open spec fn retention_for(st: VaultState, keep: Option<u32>) -> Option<u32> {
    match keep {
        Some(k) => Some(k),
        None => st.billing_retention,
    }
}

pub open spec fn compact_step(st: VaultState, admin: Address, id: u32, keep: Option<u32>) -> (
    VaultState,
    Result<usize, Error>,
) {
    if admin != st.admin {
        (st, Err(Error::Unauthorized))
    } else if id >= st.subs.len() {
        (st, Err(Error::NotFound))
    } else {
        match retention_for(st, keep) {
            None => (st, Ok(0usize)),
            Some(k) => {
                let c = keep_newest(st.charges, id, k as nat);
                (VaultState { charges: c, ..st }, Ok((st.charges.len() - c.len()) as usize))
            },
        }
    }
}

/// The statement that `finalize_billing_statement` writes.
pub open spec fn period_statement(
    st: VaultState,
    id: u32,
    period_index: u32,
    subscriber: Address,
    merchant: Address,
    period_start: u64,
    period_end: u64,
    amounts: PeriodStatementAmounts,
    status_flags: u32,
    finalized_by: BillingStatementFinalization,
    now: u64,
) -> PeriodBillingStatement {
    PeriodBillingStatement {
        subscription_id: id,
        period_index,
        subscriber,
        merchant,
        token: st.subs[id as int].token,
        period_start_timestamp: period_start,
        period_end_timestamp: period_end,
        total_amount_charged: amounts.total_amount_charged,
        total_usage_units: amounts.total_usage_units,
        protocol_fee_amount: amounts.protocol_fee_amount,
        net_amount_to_merchant: amounts.net_amount_to_merchant,
        refund_amount: amounts.refund_amount,
        status_flags,
        finalized_by,
        finalized_at: now,
    }
}

pub open spec fn finalize_step(
    st: VaultState,
    admin: Address,
    id: u32,
    period_index: u32,
    subscriber: Address,
    merchant: Address,
    period_start: u64,
    period_end: u64,
    amounts: PeriodStatementAmounts,
    status_flags: u32,
    finalized_by: BillingStatementFinalization,
    now: u64,
) -> (VaultState, Result<(), Error>) {
    if admin != st.admin {
        (st, Err(Error::Unauthorized))
    } else if id >= st.subs.len() {
        (st, Err(Error::NotFound))
    } else if period_start > period_end {
        (st, Err(Error::InvalidInput))
    } else {
        (
            VaultState {
                periods: upserted(
                    st.periods,
                    period_statement(
                        st,
                        id,
                        period_index,
                        subscriber,
                        merchant,
                        period_start,
                        period_end,
                        amounts,
                        status_flags,
                        finalized_by,
                        now,
                    ),
                ),
                ..st
            },
            Ok(()),
        )
    }
}

/// The admin blocks anyone; a merchant blocks only a subscriber it serves.
pub open spec fn blocklist_add_step(
    st: VaultState,
    authorizer: Address,
    subscriber: Address,
    reason: Option<String>,
    now: u64,
) -> (VaultState, Result<(), Error>) {
    if authorizer != st.admin && !merchant_serves(st.subs, authorizer, subscriber) {
        (st, Err(Error::Forbidden))
    } else if st.blocklist.contains_key(subscriber) {
        (st, Err(Error::InvalidInput))
    } else {
        (
            VaultState {
                blocklist: st.blocklist.insert(
                    subscriber,
                    BlocklistEntry { subscriber, added_by: authorizer, added_at: now, reason },
                ),
                events: st.events.push(
                    VaultEvent::BlocklistAdded {
                        subscriber,
                        added_by: authorizer,
                        timestamp: now,
                        reason,
                    },
                ),
                ..st
            },
            Ok(()),
        )
    }
}

pub open spec fn blocklist_remove_step(
    st: VaultState,
    admin: Address,
    subscriber: Address,
    now: u64,
) -> (VaultState, Result<(), Error>) {
    if admin != st.admin {
        (st, Err(Error::Unauthorized))
    } else if !st.blocklist.contains_key(subscriber) {
        (st, Err(Error::NotFound))
    } else {
        (
            VaultState {
                blocklist: st.blocklist.remove(subscriber),
                events: st.events.push(
                    VaultEvent::BlocklistRemoved { subscriber, removed_by: admin, timestamp: now },
                ),
                ..st
            },
            Ok(()),
        )
    }
}

/// The snapshot of a state.
pub open spec fn snapshot_of(st: VaultState) -> ContractSnapshot {
    ContractSnapshot {
        admin: st.admin,
        token: st.token,
        token_decimals: st.token_decimals,
        min_topup: st.min_topup,
        grace_period: st.grace_period,
        emergency_stop: st.emergency_stop,
        billing_retention: st.billing_retention,
        subscription_count: st.subs.len() as u32,
    }
}

/// The stored form of a vault, field by field; the blocklist is kept as a
/// list of entries. Events are not stored: they are published as they occur.
pub struct VaultParts {
    pub admin: Address,
    pub token: Address,
    pub token_decimals: u32,
    pub min_topup: i128,
    pub grace_period: u64,
    pub emergency_stop: bool,
    pub accepted_tokens: Vec<Address>,
    pub billing_retention: Option<u32>,
    pub subscriptions: Vec<Subscription>,
    pub charges: Vec<ChargeStatement>,
    pub periods: Vec<PeriodBillingStatement>,
    pub blocklist: Vec<BlocklistEntry>,
}

/// Whether stored parts describe a well-formed vault.
pub open spec fn parts_valid(p: VaultParts) -> bool {
    &&& p.min_topup > 0
    &&& p.accepted_tokens@.contains(p.token)
    &&& p.subscriptions@.len() <= u32::MAX
    &&& forall|i: int|
        0 <= i < p.subscriptions@.len() ==> subscription_wf(#[trigger] p.subscriptions@[i])
    &&& crate::statements::periods_unique(p.periods@)
    &&& entries_unique(p.blocklist@)
}

/// Whether a vault state is the one that stored parts describe (with no events).
pub open spec fn state_of_parts(st: VaultState, p: VaultParts) -> bool {
    &&& st.admin == p.admin
    &&& st.token == p.token
    &&& st.token_decimals == p.token_decimals
    &&& st.min_topup == p.min_topup
    &&& st.grace_period == p.grace_period
    &&& st.emergency_stop == p.emergency_stop
    &&& st.accepted_tokens == p.accepted_tokens@
    &&& st.billing_retention == p.billing_retention
    &&& st.subs == p.subscriptions@
    &&& st.charges == p.charges@
    &&& st.periods == p.periods@
    &&& entries_describe(p.blocklist@, st.blocklist)
}

// ─── The vault ───────────────────────────────────────────────────────────────

/// A subscription billing vault: escrowed prepaid balances, charges,
/// statements, a subscriber blocklist and admin controls.
pub struct Vault {
    admin: Address,
    token: Address,
    token_decimals: u32,
    min_topup: i128,
    grace_period: u64,
    emergency_stop: bool,
    accepted_tokens: Vec<Address>,
    billing_retention: Option<u32>,
    subscriptions: Vec<Subscription>,
    charges: ChargeLog,
    periods: PeriodStatementBook,
    blocklist: Blocklist,
    events: Vec<VaultEvent>,
}

impl View for Vault {
    type V = VaultState;

    closed spec fn view(&self) -> VaultState {
        VaultState {
            admin: self.admin,
            token: self.token,
            token_decimals: self.token_decimals,
            min_topup: self.min_topup,
            grace_period: self.grace_period,
            emergency_stop: self.emergency_stop,
            accepted_tokens: self.accepted_tokens@,
            billing_retention: self.billing_retention,
            subs: self.subscriptions@,
            charges: self.charges@,
            periods: self.periods@,
            blocklist: self.blocklist@,
            events: self.events@,
        }
    }
}

impl Vault {
    pub closed spec fn wf(&self) -> bool {
        &&& state_wf(self@)
        &&& self.blocklist.wf()
        &&& self.periods.wf()
    }

    /// Sets the vault up with its admin and default token.
    pub fn init(
        token: Address,
        token_decimals: u32,
        admin: Address,
        min_topup: i128,
        grace_period: u64,
    ) -> (r: Result<Vault, Error>)
        ensures
            r is Err <==> min_topup <= 0,
            r matches Err(e) ==> e == Error::InvalidAmount,
            r matches Ok(v) ==> v.wf() && v@ == (VaultState {
                admin,
                token,
                token_decimals,
                min_topup,
                grace_period,
                emergency_stop: false,
                accepted_tokens: seq![token],
                billing_retention: None,
                subs: Seq::empty(),
                charges: Seq::empty(),
                periods: Seq::empty(),
                blocklist: Map::empty(),
                events: Seq::empty(),
            }),
    {
        if min_topup <= 0 {
            return Err(Error::InvalidAmount);
        }
        let mut accepted_tokens = Vec::new();
        accepted_tokens.push(token);
        let v = Vault {
            admin,
            token,
            token_decimals,
            min_topup,
            grace_period,
            emergency_stop: false,
            accepted_tokens,
            billing_retention: None,
            subscriptions: Vec::new(),
            charges: ChargeLog::new(),
            periods: PeriodStatementBook::new(),
            blocklist: Blocklist::new(),
            events: Vec::new(),
        };
        assert(v@.accepted_tokens[0] == token);
        Ok(v)
    }

    // ── reads ──

    pub fn admin(&self) -> (r: Address)
        ensures
            r == self@.admin,
    {
        self.admin
    }

    pub fn token(&self) -> (r: Address)
        ensures
            r == self@.token,
    {
        self.token
    }

    pub fn token_decimals(&self) -> (r: u32)
        ensures
            r == self@.token_decimals,
    {
        self.token_decimals
    }

    pub fn min_topup(&self) -> (r: i128)
        ensures
            r == self@.min_topup,
    {
        self.min_topup
    }

    pub fn grace_period(&self) -> (r: u64)
        ensures
            r == self@.grace_period,
    {
        self.grace_period
    }

    pub fn is_emergency_stop_enabled(&self) -> (r: bool)
        ensures
            r == self@.emergency_stop,
    {
        self.emergency_stop
    }

    pub fn billing_retention(&self) -> (r: Option<u32>)
        ensures
            r == self@.billing_retention,
    {
        self.billing_retention
    }

    pub fn accepted_tokens(&self) -> (r: &Vec<Address>)
        ensures
            r@ == self@.accepted_tokens,
    {
        &self.accepted_tokens
    }

    pub fn events(&self) -> (r: &Vec<VaultEvent>)
        ensures
            r@ == self@.events,
    {
        &self.events
    }

    pub fn subscription_count(&self) -> (r: usize)
        ensures
            r == self@.subs.len(),
    {
        self.subscriptions.len()
    }

    /// The subscription with the given id.
    pub fn get_subscription(&self, id: u32) -> (r: Result<Subscription, Error>)
        ensures
            r == (if id < self@.subs.len() {
                Ok(self@.subs[id as int])
            } else {
                Err(Error::NotFound)
            }),
    {
        if (id as usize) < self.subscriptions.len() {
            Ok(self.subscriptions[id as usize])
        } else {
            Err(Error::NotFound)
        }
    }

    /// Whether the subscription is expired at `now`.
    pub fn is_subscription_expired(&self, id: u32, now: u64) -> (r: Result<bool, Error>)
        ensures
            r == (if id < self@.subs.len() {
                Ok(crate::subscription::is_expired_at(self@.subs[id as int], now))
            } else {
                Err(Error::NotFound)
            }),
    {
        if (id as usize) < self.subscriptions.len() {
            Ok(self.subscriptions[id as usize].is_expired(now))
        } else {
            Err(Error::NotFound)
        }
    }

    fn accepts(&self, token: Address) -> (r: bool)
        ensures
            r == self@.accepted_tokens.contains(token),
    {
        let len = self.accepted_tokens.len();
        for i in 0..len
            invariant
                len == self.accepted_tokens@.len(),
                forall|j: int| 0 <= j < i ==> self.accepted_tokens@[j] != token,
        {
            if self.accepted_tokens[i] == token {
                assert(self@.accepted_tokens[i as int] == token);
                return true;
            }
        }
        false
    }

    fn serves(&self, merchant: Address, subscriber: Address) -> (r: bool)
        ensures
            r == merchant_serves(self@.subs, merchant, subscriber),
    {
        let len = self.subscriptions.len();
        for i in 0..len
            invariant
                len == self.subscriptions@.len(),
                forall|j: int|
                    0 <= j < i ==> !(#[trigger] self.subscriptions@[j].merchant == merchant
                        && self.subscriptions@[j].subscriber == subscriber && (
                    self.subscriptions@[j].status == SubscriptionStatus::Active
                        || self.subscriptions@[j].status == SubscriptionStatus::Paused)),
        {
            let s = self.subscriptions[i];
            if s.merchant == merchant && s.subscriber == subscriber && (s.status
                == SubscriptionStatus::Active || s.status == SubscriptionStatus::Paused) {
                return true;
            }
        }
        false
    }
    // ── subscriptions ──

    /// Opens a subscription billed in the default token; returns its id.
    pub fn create_subscription(
        &mut self,
        subscriber: Address,
        merchant: Address,
        amount: i128,
        interval_seconds: u64,
        usage_enabled: bool,
        lifetime_cap: Option<i128>,
        expires_at: Option<u64>,
        now: u64,
    ) -> (r: Result<u32, Error>)
        requires
            old(self).wf(),
        ensures
            final(self).wf(),
            final(self)@ == create_step(
                old(self)@,
                subscriber,
                merchant,
                old(self)@.token,
                amount,
                interval_seconds,
                usage_enabled,
                lifetime_cap,
                expires_at,
                now,
            ).0,
            r == create_step(
                old(self)@,
                subscriber,
                merchant,
                old(self)@.token,
                amount,
                interval_seconds,
                usage_enabled,
                lifetime_cap,
                expires_at,
                now,
            ).1,
    {
        let token = self.token;
        self.create_subscription_with_token(
            subscriber,
            merchant,
            token,
            amount,
            interval_seconds,
            usage_enabled,
            lifetime_cap,
            expires_at,
            now,
        )
    }

    /// Opens a subscription billed in an accepted token; returns its id.
    pub fn create_subscription_with_token(
        &mut self,
        subscriber: Address,
        merchant: Address,
        token: Address,
        amount: i128,
        interval_seconds: u64,
        usage_enabled: bool,
        lifetime_cap: Option<i128>,
        expires_at: Option<u64>,
        now: u64,
    ) -> (r: Result<u32, Error>)
        requires
            old(self).wf(),
        ensures
            final(self).wf(),
            final(self)@ == create_step(
                old(self)@,
                subscriber,
                merchant,
                token,
                amount,
                interval_seconds,
                usage_enabled,
                lifetime_cap,
                expires_at,
                now,
            ).0,
            r == create_step(
                old(self)@,
                subscriber,
                merchant,
                token,
                amount,
                interval_seconds,
                usage_enabled,
                lifetime_cap,
                expires_at,
                now,
            ).1,
    {
        if self.emergency_stop {
            return Err(Error::EmergencyStopActive);
        }
        if self.blocklist.contains(subscriber) {
            return Err(Error::SubscriberBlocklisted);
        }
        if !self.accepts(token) {
            return Err(Error::TokenNotAccepted);
        }
        let s = match Subscription::create(
            subscriber,
            merchant,
            token,
            amount,
            interval_seconds,
            usage_enabled,
            lifetime_cap,
            expires_at,
            now,
        ) {
            Ok(s) => s,
            Err(e) => {
                return Err(e);
            },
        };
        if self.subscriptions.len() >= u32::MAX as usize {
            return Err(Error::Overflow);
        }
        let id = self.subscriptions.len() as u32;
        self.subscriptions.push(s);
        Ok(id)
    }

    /// Adds the subscriber's deposit to the escrow; returns the transfer
    /// from the subscriber to the vault that the deposit takes.
    pub fn deposit_funds(&mut self, id: u32, subscriber: Address, amount: i128, now: u64) -> (r:
        Result<Transfer, Error>)
        requires
            old(self).wf(),
        ensures
            final(self).wf(),
            final(self)@ == deposit_step(old(self)@, id, subscriber, amount, now).0,
            r == deposit_step(old(self)@, id, subscriber, amount, now).1,
    {
        if self.emergency_stop {
            return Err(Error::EmergencyStopActive);
        }
        if id as usize >= self.subscriptions.len() {
            return Err(Error::NotFound);
        }
        let s = self.subscriptions[id as usize];
        if subscriber != s.subscriber {
            return Err(Error::Forbidden);
        }
        if self.blocklist.contains(subscriber) {
            return Err(Error::SubscriberBlocklisted);
        }
        proof {
            assert(subscription_wf(self@.subs[id as int]));
        }
        match s.deposited(amount, self.min_topup, now) {
            Err(e) => Err(e),
            Ok(ns) => {
                self.subscriptions.set(id as usize, ns);
                Ok(
                    Transfer {
                        token: s.token,
                        account: subscriber,
                        amount,
                        direction: TransferDirection::IntoVault,
                    },
                )
            },
        }
    }

    /// Charges one billing interval; returns the transfer to the merchant.
    /// An attempt on an expired subscription publishes an expiry event.
    pub fn charge_subscription(&mut self, id: u32, now: u64) -> (r: Result<Transfer, Error>)
        requires
            old(self).wf(),
        ensures
            final(self).wf(),
            final(self)@ == charge_step(old(self)@, id, now).0,
            r == charge_step(old(self)@, id, now).1,
    {
        if self.emergency_stop {
            return Err(Error::EmergencyStopActive);
        }
        if id as usize >= self.subscriptions.len() {
            return Err(Error::NotFound);
        }
        let s = self.subscriptions[id as usize];
        proof {
            assert(subscription_wf(self@.subs[id as int]));
        }
        match s.charged(now) {
            Err(e) => {
                if e == Error::SubscriptionExpired {
                    self.events.push(
                        VaultEvent::SubscriptionExpired { subscription_id: id, timestamp: now },
                    );
                }
                Err(e)
            },
            Ok(ns) => {
                self.subscriptions.set(id as usize, ns);
                self.charges.append(
                    ChargeStatement {
                        subscription_id: id,
                        charged_at: now,
                        amount: s.amount,
                        kind: ChargeKind::Interval,
                    },
                );
                Ok(
                    Transfer {
                        token: s.token,
                        account: s.merchant,
                        amount: s.amount,
                        direction: TransferDirection::OutOfVault,
                    },
                )
            },
        }
    }

    /// Charges a metered usage amount; returns the transfer to the merchant.
    /// An attempt on an expired subscription publishes an expiry event.
    pub fn charge_usage(&mut self, id: u32, usage_amount: i128, now: u64) -> (r: Result<
        Transfer,
        Error,
    >)
        requires
            old(self).wf(),
        ensures
            final(self).wf(),
            final(self)@ == usage_step(old(self)@, id, usage_amount, now).0,
            r == usage_step(old(self)@, id, usage_amount, now).1,
    {
        if self.emergency_stop {
            return Err(Error::EmergencyStopActive);
        }
        if id as usize >= self.subscriptions.len() {
            return Err(Error::NotFound);
        }
        let s = self.subscriptions[id as usize];
        proof {
            assert(subscription_wf(self@.subs[id as int]));
        }
        match s.usage_charged(usage_amount, now) {
            Err(e) => {
                if e == Error::SubscriptionExpired {
                    self.events.push(
                        VaultEvent::SubscriptionExpired { subscription_id: id, timestamp: now },
                    );
                }
                Err(e)
            },
            Ok(ns) => {
                self.subscriptions.set(id as usize, ns);
                self.charges.append(
                    ChargeStatement {
                        subscription_id: id,
                        charged_at: now,
                        amount: usage_amount,
                        kind: ChargeKind::Usage,
                    },
                );
                Ok(
                    Transfer {
                        token: s.token,
                        account: s.merchant,
                        amount: usage_amount,
                        direction: TransferDirection::OutOfVault,
                    },
                )
            },
        }
    }

    /// Charges each listed subscription in turn; one result per id.
    pub fn batch_charge(&mut self, ids: &Vec<u32>, now: u64) -> (r: Vec<Result<Transfer, Error>>)
        requires
            old(self).wf(),
        ensures
            final(self).wf(),
            final(self)@ == batch_step(old(self)@, ids@, now).0,
            r@ == batch_step(old(self)@, ids@, now).1,
    {
        let ghost start = self@;
        let mut results: Vec<Result<Transfer, Error>> = Vec::new();
        let len = ids.len();
        for i in 0..len
            invariant
                len == ids@.len(),
                self.wf(),
                self@ == batch_step(start, ids@.take(i as int), now).0,
                results@ == batch_step(start, ids@.take(i as int), now).1,
        {
            proof {
                lemma_take_succ(ids@, i as int);
                assert(ids@.take(i as int + 1).drop_last() =~= ids@.take(i as int));
            }
            let r = self.charge_subscription(ids[i], now);
            results.push(r);
        }
        assert(ids@.take(len as int) =~= ids@);
        results
    }

    /// Pauses an active subscription, by its subscriber or merchant.
    pub fn pause_subscription(&mut self, id: u32, caller: Address, now: u64) -> (r: Result<
        (),
        Error,
    >)
        requires
            old(self).wf(),
        ensures
            final(self).wf(),
            final(self)@ == pause_step(old(self)@, id, caller, now).0,
            r == pause_step(old(self)@, id, caller, now).1,
    {
        if id as usize >= self.subscriptions.len() {
            return Err(Error::NotFound);
        }
        let s = self.subscriptions[id as usize];
        if caller != s.subscriber && caller != s.merchant {
            return Err(Error::Forbidden);
        }
        proof {
            assert(subscription_wf(self@.subs[id as int]));
        }
        match s.paused(now) {
            Err(e) => Err(e),
            Ok(ns) => {
                self.subscriptions.set(id as usize, ns);
                Ok(())
            },
        }
    }

    /// Resumes a paused subscription, by its subscriber (unless blocked) or merchant.
    pub fn resume_subscription(&mut self, id: u32, caller: Address, now: u64) -> (r: Result<
        (),
        Error,
    >)
        requires
            old(self).wf(),
        ensures
            final(self).wf(),
            final(self)@ == resume_step(old(self)@, id, caller, now).0,
            r == resume_step(old(self)@, id, caller, now).1,
    {
        if id as usize >= self.subscriptions.len() {
            return Err(Error::NotFound);
        }
        let s = self.subscriptions[id as usize];
        if caller != s.subscriber && caller != s.merchant {
            return Err(Error::Forbidden);
        }
        if caller == s.subscriber && self.blocklist.contains(caller) {
            return Err(Error::SubscriberBlocklisted);
        }
        proof {
            assert(subscription_wf(self@.subs[id as int]));
        }
        match s.resumed(now) {
            Err(e) => Err(e),
            Ok(ns) => {
                self.subscriptions.set(id as usize, ns);
                Ok(())
            },
        }
    }

    /// Cancels a live, unexpired subscription, by its subscriber or merchant.
    pub fn cancel_subscription(&mut self, id: u32, caller: Address, now: u64) -> (r: Result<
        (),
        Error,
    >)
        requires
            old(self).wf(),
        ensures
            final(self).wf(),
            final(self)@ == cancel_step(old(self)@, id, caller, now).0,
            r == cancel_step(old(self)@, id, caller, now).1,
    {
        if id as usize >= self.subscriptions.len() {
            return Err(Error::NotFound);
        }
        let s = self.subscriptions[id as usize];
        if caller != s.subscriber && caller != s.merchant {
            return Err(Error::Forbidden);
        }
        proof {
            assert(subscription_wf(self@.subs[id as int]));
        }
        match s.cancelled(now) {
            Err(e) => Err(e),
            Ok(ns) => {
                self.subscriptions.set(id as usize, ns);
                Ok(())
            },
        }
    }

    /// Archives a cancelled or expired subscription and publishes an archival event.
    pub fn cleanup_subscription(&mut self, id: u32, caller: Address, now: u64) -> (r: Result<
        (),
        Error,
    >)
        requires
            old(self).wf(),
        ensures
            final(self).wf(),
            final(self)@ == cleanup_step(old(self)@, id, caller, now).0,
            r == cleanup_step(old(self)@, id, caller, now).1,
    {
        if id as usize >= self.subscriptions.len() {
            return Err(Error::NotFound);
        }
        let s = self.subscriptions[id as usize];
        if caller != s.subscriber && caller != s.merchant {
            return Err(Error::Forbidden);
        }
        proof {
            assert(subscription_wf(self@.subs[id as int]));
        }
        match s.archived(now) {
            Err(e) => Err(e),
            Ok(ns) => {
                self.subscriptions.set(id as usize, ns);
                self.events.push(
                    VaultEvent::SubscriptionArchived { subscription_id: id, timestamp: now },
                );
                Ok(())
            },
        }
    }

    /// Returns the whole escrow of a cancelled, archived or expired
    /// subscription to its subscriber; returns that transfer.
    pub fn withdraw_subscriber_funds(&mut self, id: u32, subscriber: Address, now: u64) -> (r:
        Result<Transfer, Error>)
        requires
            old(self).wf(),
        ensures
            final(self).wf(),
            final(self)@ == withdraw_step(old(self)@, id, subscriber, now).0,
            r == withdraw_step(old(self)@, id, subscriber, now).1,
    {
        if id as usize >= self.subscriptions.len() {
            return Err(Error::NotFound);
        }
        let s = self.subscriptions[id as usize];
        if subscriber != s.subscriber {
            return Err(Error::Forbidden);
        }
        proof {
            assert(subscription_wf(self@.subs[id as int]));
        }
        match s.withdrawn(now) {
            Err(e) => Err(e),
            Ok(ns) => {
                self.subscriptions.set(id as usize, ns);
                Ok(
                    Transfer {
                        token: s.token,
                        account: subscriber,
                        amount: s.prepaid_balance,
                        direction: TransferDirection::OutOfVault,
                    },
                )
            },
        }
    }

    /// Admin refund of part of a subscription's escrow to its subscriber.
    pub fn partial_refund(&mut self, admin: Address, id: u32, subscriber: Address, amount: i128) -> (r:
        Result<Transfer, Error>)
        requires
            old(self).wf(),
        ensures
            final(self).wf(),
            final(self)@ == refund_step(old(self)@, admin, id, subscriber, amount).0,
            r == refund_step(old(self)@, admin, id, subscriber, amount).1,
    {
        if admin != self.admin {
            return Err(Error::Unauthorized);
        }
        if id as usize >= self.subscriptions.len() {
            return Err(Error::NotFound);
        }
        let s = self.subscriptions[id as usize];
        if subscriber != s.subscriber {
            return Err(Error::Unauthorized);
        }
        proof {
            assert(subscription_wf(self@.subs[id as int]));
        }
        match s.refunded(amount) {
            Err(e) => Err(e),
            Ok(ns) => {
                self.subscriptions.set(id as usize, ns);
                Ok(
                    Transfer {
                        token: s.token,
                        account: subscriber,
                        amount,
                        direction: TransferDirection::OutOfVault,
                    },
                )
            },
        }
    }
    // ── admin controls ──

    /// Hands the admin role to `new_admin`; the current admin loses it at once.
    pub fn rotate_admin(&mut self, current: Address, new_admin: Address) -> (r: Result<(), Error>)
        requires
            old(self).wf(),
        ensures
            final(self).wf(),
            final(self)@ == rotate_admin_step(old(self)@, current, new_admin).0,
            r == rotate_admin_step(old(self)@, current, new_admin).1,
    {
        if current != self.admin {
            return Err(Error::Unauthorized);
        }
        self.admin = new_admin;
        Ok(())
    }

    pub fn set_min_topup(&mut self, admin: Address, min_topup: i128) -> (r: Result<(), Error>)
        requires
            old(self).wf(),
        ensures
            final(self).wf(),
            final(self)@ == set_min_topup_step(old(self)@, admin, min_topup).0,
            r == set_min_topup_step(old(self)@, admin, min_topup).1,
    {
        if admin != self.admin {
            return Err(Error::Unauthorized);
        }
        if min_topup <= 0 {
            return Err(Error::InvalidAmount);
        }
        self.min_topup = min_topup;
        Ok(())
    }

    /// Engages the emergency stop (no effect when already engaged).
    pub fn enable_emergency_stop(&mut self, admin: Address) -> (r: Result<(), Error>)
        requires
            old(self).wf(),
        ensures
            final(self).wf(),
            final(self)@ == emergency_stop_step(old(self)@, admin, true).0,
            r == emergency_stop_step(old(self)@, admin, true).1,
    {
        if admin != self.admin {
            return Err(Error::Unauthorized);
        }
        self.emergency_stop = true;
        Ok(())
    }

    /// Releases the emergency stop (no effect when already released).
    pub fn disable_emergency_stop(&mut self, admin: Address) -> (r: Result<(), Error>)
        requires
            old(self).wf(),
        ensures
            final(self).wf(),
            final(self)@ == emergency_stop_step(old(self)@, admin, false).0,
            r == emergency_stop_step(old(self)@, admin, false).1,
    {
        if admin != self.admin {
            return Err(Error::Unauthorized);
        }
        self.emergency_stop = false;
        Ok(())
    }

    /// Accepts another token for new subscriptions (no effect when already accepted).
    pub fn add_accepted_token(&mut self, admin: Address, token: Address) -> (r: Result<(), Error>)
        requires
            old(self).wf(),
        ensures
            final(self).wf(),
            final(self)@ == add_token_step(old(self)@, admin, token).0,
            r == add_token_step(old(self)@, admin, token).1,
    {
        if admin != self.admin {
            return Err(Error::Unauthorized);
        }
        if self.accepts(token) {
            return Ok(());
        }
        let ghost before = self@.accepted_tokens;
        self.accepted_tokens.push(token);
        proof {
            let i = choose|i: int| 0 <= i < before.len() && before[i] == self.token;
            assert(self@.accepted_tokens[i] == self.token);
        }
        Ok(())
    }

    /// Stops accepting a token; the default token cannot be removed.
    pub fn remove_accepted_token(&mut self, admin: Address, token: Address) -> (r: Result<
        (),
        Error,
    >)
        requires
            old(self).wf(),
        ensures
            final(self).wf(),
            final(self)@ == remove_token_step(old(self)@, admin, token).0,
            r == remove_token_step(old(self)@, admin, token).1,
    {
        if admin != self.admin {
            return Err(Error::Unauthorized);
        }
        if token == self.token {
            return Err(Error::InvalidInput);
        }
        if !self.accepts(token) {
            return Err(Error::NotFound);
        }
        let ghost s = self@.accepted_tokens;
        let mut kept: Vec<Address> = Vec::new();
        let len = self.accepted_tokens.len();
        for i in 0..len
            invariant
                len == s.len(),
                s == self.accepted_tokens@,
                kept@ == s.take(i as int).filter(other_than(token)),
        {
            proof {
                lemma_take_succ(s, i as int);
                s.take(i as int).lemma_filter_push(s[i as int], other_than(token));
            }
            let t = self.accepted_tokens[i];
            if t != token {
                kept.push(t);
            }
        }
        proof {
            assert(s.take(len as int) =~= s);
            broadcast use vstd::seq_lib::group_filter_ensures;

            let i = choose|i: int| 0 <= i < s.len() && s[i] == self.token;
            assert(other_than(token)(s[i]));
        }
        self.accepted_tokens = kept;
        Ok(())
    }

    /// Sets how many per-charge rows compaction keeps by default.
    pub fn set_billing_retention(&mut self, admin: Address, keep: u32) -> (r: Result<(), Error>)
        requires
            old(self).wf(),
        ensures
            final(self).wf(),
            final(self)@ == set_retention_step(old(self)@, admin, keep).0,
            r == set_retention_step(old(self)@, admin, keep).1,
    {
        if admin != self.admin {
            return Err(Error::Unauthorized);
        }
        self.billing_retention = Some(keep);
        Ok(())
    }

    // ── statements ──

    /// A page of a subscription's per-charge rows, with its total row count.
    pub fn get_sub_statements_offset(
        &self,
        id: u32,
        offset: u32,
        limit: u32,
        newest_first: bool,
    ) -> (r: StatementPage)
        ensures
            r.statements@ == page(
                if newest_first {
                    self@.charges.filter(charge_of(id)).reverse()
                } else {
                    self@.charges.filter(charge_of(id))
                },
                offset as int,
                limit as int,
            ),
            r.total == self@.charges.filter(charge_of(id)).len(),
    {
        StatementPage {
            statements: self.charges.page_for(id, offset, limit, newest_first),
            total: self.charges.count_for(id),
        }
    }

    /// Drops the oldest per-charge rows of a subscription beyond the given
    /// count (or the configured retention); returns how many were dropped.
    /// Period statements are not touched.
    pub fn compact_billing_statements(&mut self, admin: Address, id: u32, keep: Option<u32>) -> (r:
        Result<usize, Error>)
        requires
            old(self).wf(),
        ensures
            final(self).wf(),
            final(self)@ == compact_step(old(self)@, admin, id, keep).0,
            r == compact_step(old(self)@, admin, id, keep).1,
    {
        if admin != self.admin {
            return Err(Error::Unauthorized);
        }
        if id as usize >= self.subscriptions.len() {
            return Err(Error::NotFound);
        }
        let k = match keep {
            Some(k) => k,
            None => match self.billing_retention {
                Some(k) => k,
                None => {
                    return Ok(0);
                },
            },
        };
        let removed = self.charges.compact(id, k);
        Ok(removed)
    }

    /// Writes the statement of one billing period (admin only); a second
    /// write for the same period replaces the first.
    pub fn finalize_billing_statement(
        &mut self,
        admin: Address,
        id: u32,
        period_index: u32,
        subscriber: Address,
        merchant: Address,
        period_start: u64,
        period_end: u64,
        amounts: PeriodStatementAmounts,
        status_flags: u32,
        finalized_by: BillingStatementFinalization,
        now: u64,
    ) -> (r: Result<(), Error>)
        requires
            old(self).wf(),
        ensures
            final(self).wf(),
            final(self)@ == finalize_step(
                old(self)@,
                admin,
                id,
                period_index,
                subscriber,
                merchant,
                period_start,
                period_end,
                amounts,
                status_flags,
                finalized_by,
                now,
            ).0,
            r == finalize_step(
                old(self)@,
                admin,
                id,
                period_index,
                subscriber,
                merchant,
                period_start,
                period_end,
                amounts,
                status_flags,
                finalized_by,
                now,
            ).1,
    {
        if admin != self.admin {
            return Err(Error::Unauthorized);
        }
        if id as usize >= self.subscriptions.len() {
            return Err(Error::NotFound);
        }
        if period_start > period_end {
            return Err(Error::InvalidInput);
        }
        let stmt = PeriodBillingStatement {
            subscription_id: id,
            period_index,
            subscriber,
            merchant,
            token: self.subscriptions[id as usize].token,
            period_start_timestamp: period_start,
            period_end_timestamp: period_end,
            total_amount_charged: amounts.total_amount_charged,
            total_usage_units: amounts.total_usage_units,
            protocol_fee_amount: amounts.protocol_fee_amount,
            net_amount_to_merchant: amounts.net_amount_to_merchant,
            refund_amount: amounts.refund_amount,
            status_flags,
            finalized_by,
            finalized_at: now,
        };
        self.periods.upsert(stmt);
        Ok(())
    }

    /// The statement of one billing period.
    pub fn get_billing_statement(&self, id: u32, period_index: u32) -> (r: Result<
        PeriodBillingStatement,
        Error,
    >)
        requires
            self.wf(),
        ensures
            r == (match period_lookup(self@.periods, id, period_index) {
                Some(x) => Ok(x),
                None => Err(Error::NotFound),
            }),
    {
        match self.periods.get(id, period_index) {
            Some(x) => Ok(x),
            None => Err(Error::NotFound),
        }
    }

    /// A page of one subscription's period statements, oldest first.
    pub fn get_bill_stmts_by_sub(&self, id: u32, start: u32, limit: u32) -> (r: Vec<
        PeriodBillingStatement,
    >)
        ensures
            r@ == page(self@.periods.filter(period_of(id)), start as int, limit as int),
    {
        self.periods.by_subscription(id, start, limit)
    }

    /// A page of one merchant's period statements whose period ends within
    /// `[from, to]`, oldest first.
    pub fn get_bill_stmts_by_merch_rng(
        &self,
        merchant: Address,
        from: u64,
        to: u64,
        start: u32,
        limit: u32,
    ) -> (r: Vec<PeriodBillingStatement>)
        ensures
            r@ == page(
                self@.periods.filter(merchant_in_range(merchant, from, to)),
                start as int,
                limit as int,
            ),
    {
        self.periods.by_merchant_range(merchant, from, to, start, limit)
    }

    // ── blocklist ──

    /// Blocks a subscriber: the admin may block anyone, a merchant only a
    /// subscriber it serves. An existing entry is never overwritten.
    pub fn add_to_blocklist(
        &mut self,
        authorizer: Address,
        subscriber: Address,
        reason: Option<String>,
        now: u64,
    ) -> (r: Result<(), Error>)
        requires
            old(self).wf(),
        ensures
            final(self).wf(),
            final(self)@ == blocklist_add_step(old(self)@, authorizer, subscriber, reason, now).0,
            r == blocklist_add_step(old(self)@, authorizer, subscriber, reason, now).1,
    {
        if authorizer != self.admin && !self.serves(authorizer, subscriber) {
            return Err(Error::Forbidden);
        }
        if self.blocklist.contains(subscriber) {
            return Err(Error::InvalidInput);
        }
        let event_reason = match &reason {
            Some(s) => Some(s.clone()),
            None => None,
        };
        self.blocklist.insert(
            BlocklistEntry { subscriber, added_by: authorizer, added_at: now, reason },
        );
        self.events.push(
            VaultEvent::BlocklistAdded {
                subscriber,
                added_by: authorizer,
                timestamp: now,
                reason: event_reason,
            },
        );
        Ok(())
    }

    /// Unblocks a subscriber (admin only).
    pub fn remove_from_blocklist(&mut self, admin: Address, subscriber: Address, now: u64) -> (r:
        Result<(), Error>)
        requires
            old(self).wf(),
        ensures
            final(self).wf(),
            final(self)@ == blocklist_remove_step(old(self)@, admin, subscriber, now).0,
            r == blocklist_remove_step(old(self)@, admin, subscriber, now).1,
    {
        if admin != self.admin {
            return Err(Error::Unauthorized);
        }
        if !self.blocklist.contains(subscriber) {
            return Err(Error::NotFound);
        }
        self.blocklist.remove(subscriber);
        self.events.push(
            VaultEvent::BlocklistRemoved { subscriber, removed_by: admin, timestamp: now },
        );
        Ok(())
    }

    /// Whether the subscriber is blocked.
    pub fn is_blocklisted(&self, subscriber: Address) -> (r: bool)
        requires
            self.wf(),
        ensures
            r == self@.blocklist.contains_key(subscriber),
    {
        self.blocklist.contains(subscriber)
    }

    /// The blocklist entry of a blocked subscriber.
    pub fn get_blocklist_entry(&self, subscriber: Address) -> (r: Result<BlocklistEntry, Error>)
        requires
            self.wf(),
        ensures
            r == (if self@.blocklist.contains_key(subscriber) {
                Ok(self@.blocklist[subscriber])
            } else {
                Err(Error::NotFound)
            }),
    {
        match self.blocklist.get(subscriber) {
            Some(e) => Ok(e),
            None => Err(Error::NotFound),
        }
    }
    // ── exports (admin only) ──

    /// The vault's configuration and subscription count.
    pub fn export_contract_snapshot(&self, admin: Address) -> (r: Result<ContractSnapshot, Error>)
        requires
            self.wf(),
        ensures
            r == (if admin == self@.admin {
                Ok(snapshot_of(self@))
            } else {
                Err(Error::Unauthorized)
            }),
    {
        if admin != self.admin {
            return Err(Error::Unauthorized);
        }
        Ok(
            ContractSnapshot {
                admin: self.admin,
                token: self.token,
                token_decimals: self.token_decimals,
                min_topup: self.min_topup,
                grace_period: self.grace_period,
                emergency_stop: self.emergency_stop,
                billing_retention: self.billing_retention,
                subscription_count: self.subscriptions.len() as u32,
            },
        )
    }

    /// One subscription, exported.
    pub fn export_subscription_summary(&self, admin: Address, id: u32) -> (r: Result<
        Subscription,
        Error,
    >)
        ensures
            r == (if admin != self@.admin {
                Err(Error::Unauthorized)
            } else if id < self@.subs.len() {
                Ok(self@.subs[id as int])
            } else {
                Err(Error::NotFound)
            }),
    {
        if admin != self.admin {
            return Err(Error::Unauthorized);
        }
        self.get_subscription(id)
    }

    /// A page of subscriptions in id order, exported.
    pub fn export_subscription_summaries(&self, admin: Address, start: u32, limit: u32) -> (r:
        Result<Vec<Subscription>, Error>)
        ensures
            r is Err <==> admin != self@.admin,
            r matches Err(e) ==> e == Error::Unauthorized,
            r matches Ok(v) ==> v@ == page(self@.subs, start as int, limit as int),
    {
        if admin != self.admin {
            return Err(Error::Unauthorized);
        }
        let len = self.subscriptions.len();
        let mut out: Vec<Subscription> = Vec::new();
        if (start as usize) < len {
            let end: usize = if (limit as usize) < len - (start as usize) {
                start as usize + limit as usize
            } else {
                len
            };
            let mut i = start as usize;
            while i < end
                invariant
                    start <= i <= end <= len,
                    len == self@.subs.len(),
                    out@ == self@.subs.subrange(start as int, i as int),
                decreases end - i,
            {
                out.push(self.subscriptions[i]);
                proof {
                    assert(self@.subs.subrange(start as int, i as int + 1) =~= self@.subs.subrange(
                        start as int,
                        i as int,
                    ).push(self@.subs[i as int]));
                }
                i = i + 1;
            }
        }
        Ok(out)
    }
    // ── storage ──

    /// Rebuilds a vault from its stored parts; parts that do not describe a
    /// well-formed vault are refused with `InvalidInput`.
    pub fn restore(parts: VaultParts) -> (r: Result<Vault, Error>)
        ensures
            r is Ok <==> parts_valid(parts),
            r matches Err(e) ==> e == Error::InvalidInput,
            r matches Ok(v) ==> v.wf() && state_of_parts(v@, parts) && v@.events
                == Seq::<VaultEvent>::empty(),
    {
        let ghost p = parts;
        let VaultParts {
            admin,
            token,
            token_decimals,
            min_topup,
            grace_period,
            emergency_stop,
            accepted_tokens,
            billing_retention,
            subscriptions,
            charges,
            periods,
            blocklist,
        } = parts;
        if min_topup <= 0 {
            return Err(Error::InvalidInput);
        }
        let mut has_token = false;
        let n = accepted_tokens.len();
        for i in 0..n
            invariant
                n == accepted_tokens@.len(),
                has_token <==> exists|j: int| 0 <= j < i && accepted_tokens@[j] == token,
        {
            if accepted_tokens[i] == token {
                has_token = true;
            }
        }
        if !has_token {
            proof {
                assert(!p.accepted_tokens@.contains(token));
            }
            return Err(Error::InvalidInput);
        }
        if subscriptions.len() > u32::MAX as usize {
            return Err(Error::InvalidInput);
        }
        let m = subscriptions.len();
        for i in 0..m
            invariant
                m == subscriptions@.len(),
                subscriptions@ == p.subscriptions@,
                p == parts,
                forall|j: int| 0 <= j < i ==> subscription_wf(#[trigger] subscriptions@[j]),
        {
            if !subscriptions[i].is_well_formed() {
                return Err(Error::InvalidInput);
            }
        }
        let periods = match PeriodStatementBook::from_statements(periods) {
            Some(b) => b,
            None => {
                return Err(Error::InvalidInput);
            },
        };
        let blocklist = match Blocklist::from_entries(blocklist) {
            Some(b) => b,
            None => {
                return Err(Error::InvalidInput);
            },
        };
        Ok(
            Vault {
                admin,
                token,
                token_decimals,
                min_topup,
                grace_period,
                emergency_stop,
                accepted_tokens,
                billing_retention,
                subscriptions,
                charges: ChargeLog::from_rows(charges),
                periods,
                blocklist,
                events: Vec::new(),
            },
        )
    }

    /// The stored form of the vault.
    pub fn to_parts(&self) -> (r: VaultParts)
        requires
            self.wf(),
        ensures
            parts_valid(r),
            state_of_parts(self@, r),
    {
        VaultParts {
            admin: self.admin,
            token: self.token,
            token_decimals: self.token_decimals,
            min_topup: self.min_topup,
            grace_period: self.grace_period,
            emergency_stop: self.emergency_stop,
            accepted_tokens: self.accepted_tokens.clone(),
            billing_retention: self.billing_retention,
            subscriptions: self.subscriptions.clone(),
            charges: self.charges.to_rows(),
            periods: self.periods.to_statements(),
            blocklist: self.blocklist.to_entries(),
        }
    }
}

} // verus!
