use vstd::prelude::*;

use crate::types::{Address, Error, MIN_SUBSCRIPTION_INTERVAL_SECONDS};

verus! {

/// Lifecycle status of a subscription. Expiry is not a status: it is
/// evaluated from the clock (see `is_expired_at`).
#[derive(Clone, Copy, Debug, PartialEq, Eq, Structural)]
pub enum SubscriptionStatus {
    Active,
    Paused,
    Cancelled,
    Archived,
}

/// A subscription with its prepaid escrow.
#[derive(Clone, Copy, Debug, PartialEq, Eq, Structural)]
pub struct Subscription {
    pub subscriber: Address,
    pub merchant: Address,
    pub token: Address,
    pub amount: i128,
    pub interval_seconds: u64,
    pub start_time: u64,
    pub last_payment_timestamp: u64,
    pub status: SubscriptionStatus,
    pub prepaid_balance: i128,
    pub usage_enabled: bool,
    pub lifetime_cap: Option<i128>,
    pub lifetime_charged: i128,
    pub expires_at: Option<u64>,
}

/// The bounds every stored subscription keeps.
pub open spec fn subscription_wf(s: Subscription) -> bool {
    &&& s.amount > 0
    &&& s.interval_seconds >= MIN_SUBSCRIPTION_INTERVAL_SECONDS
    &&& s.prepaid_balance >= 0
    &&& s.lifetime_charged >= 0
    &&& (s.lifetime_cap matches Some(c) ==> 0 < c && s.lifetime_charged <= c)
}

/// A subscription is expired once the clock reaches its expiry time.
pub open spec fn is_expired_at(s: Subscription, now: u64) -> bool {
    s.expires_at matches Some(t) && now >= t
}

/// Whether charging `extra` more would pass the lifetime cap.
pub open spec fn passes_cap(s: Subscription, extra: int) -> bool {
    s.lifetime_cap matches Some(c) && s.lifetime_charged + extra > c
}

/// Whether charging `extra` more reaches the lifetime cap exactly.
pub open spec fn reaches_cap(s: Subscription, extra: int) -> bool {
    s.lifetime_cap matches Some(c) && s.lifetime_charged + extra == c
}

/// The outcome of creating a subscription from its terms.
pub open spec fn creation_result(
    subscriber: Address,
    merchant: Address,
    token: Address,
    amount: i128,
    interval_seconds: u64,
    usage_enabled: bool,
    lifetime_cap: Option<i128>,
    expires_at: Option<u64>,
    now: u64,
) -> Result<Subscription, Error> {
    if amount <= 0 {
        Err(Error::InvalidAmount)
    } else if interval_seconds < MIN_SUBSCRIPTION_INTERVAL_SECONDS {
        Err(Error::InvalidInterval)
    } else if lifetime_cap matches Some(c) && c <= 0 {
        Err(Error::InvalidAmount)
    } else {
        Ok(
            Subscription {
                subscriber,
                merchant,
                token,
                amount,
                interval_seconds,
                start_time: now,
                last_payment_timestamp: now,
                status: SubscriptionStatus::Active,
                prepaid_balance: 0,
                usage_enabled,
                lifetime_cap,
                lifetime_charged: 0,
                expires_at,
            },
        )
    }
}

/// The outcome of an interval charge at time `now`.
pub open spec fn charge_result(s: Subscription, now: u64) -> Result<Subscription, Error> {
    if s.status != SubscriptionStatus::Active {
        Err(Error::InvalidStatusTransition)
    } else if is_expired_at(s, now) {
        Err(Error::SubscriptionExpired)
    } else if now < s.last_payment_timestamp + s.interval_seconds {
        Err(Error::IntervalNotElapsed)
    } else if passes_cap(s, s.amount as int) {
        Err(Error::LifetimeCapReached)
    } else if s.lifetime_charged + s.amount > i128::MAX {
        Err(Error::Overflow)
    } else if s.prepaid_balance < s.amount {
        Err(Error::InsufficientBalance)
    } else {
        Ok(
            Subscription {
                prepaid_balance: (s.prepaid_balance - s.amount) as i128,
                lifetime_charged: (s.lifetime_charged + s.amount) as i128,
                last_payment_timestamp: now,
                status: if reaches_cap(s, s.amount as int) {
                    SubscriptionStatus::Cancelled
                } else {
                    SubscriptionStatus::Active
                },
                ..s
            },
        )
    }
}

/// The outcome of a usage charge of `usage_amount` at time `now`.
pub open spec fn usage_charge_result(s: Subscription, usage_amount: i128, now: u64) -> Result<
    Subscription,
    Error,
> {
    if s.status != SubscriptionStatus::Active {
        Err(Error::InvalidStatusTransition)
    } else if is_expired_at(s, now) {
        Err(Error::SubscriptionExpired)
    } else if !s.usage_enabled {
        Err(Error::UsageNotEnabled)
    } else if usage_amount <= 0 {
        Err(Error::InvalidAmount)
    } else if passes_cap(s, usage_amount as int) {
        Err(Error::LifetimeCapReached)
    } else if s.lifetime_charged + usage_amount > i128::MAX {
        Err(Error::Overflow)
    } else if s.prepaid_balance < usage_amount {
        Err(Error::InsufficientBalance)
    } else {
        Ok(
            Subscription {
                prepaid_balance: (s.prepaid_balance - usage_amount) as i128,
                lifetime_charged: (s.lifetime_charged + usage_amount) as i128,
                status: if reaches_cap(s, usage_amount as int) {
                    SubscriptionStatus::Cancelled
                } else {
                    SubscriptionStatus::Active
                },
                ..s
            },
        )
    }
}

/// The outcome of depositing `amount` into the escrow.
pub open spec fn deposit_result(s: Subscription, amount: i128, min_topup: i128, now: u64) -> Result<
    Subscription,
    Error,
> {
    if amount <= 0 {
        Err(Error::InvalidAmount)
    } else if amount < min_topup {
        Err(Error::BelowMinimumTopup)
    } else if s.status == SubscriptionStatus::Cancelled || s.status == SubscriptionStatus::Archived {
        Err(Error::InvalidStatusTransition)
    } else if is_expired_at(s, now) {
        Err(Error::SubscriptionExpired)
    } else if s.prepaid_balance + amount > i128::MAX {
        Err(Error::Overflow)
    } else {
        Ok(Subscription { prepaid_balance: (s.prepaid_balance + amount) as i128, ..s })
    }
}

/// The outcome of cancelling: only a live, unexpired subscription can be cancelled.
pub open spec fn cancel_result(s: Subscription, now: u64) -> Result<Subscription, Error> {
    if s.status == SubscriptionStatus::Cancelled || s.status == SubscriptionStatus::Archived {
        Err(Error::InvalidStatusTransition)
    } else if is_expired_at(s, now) {
        Err(Error::SubscriptionExpired)
    } else {
        Ok(Subscription { status: SubscriptionStatus::Cancelled, ..s })
    }
}

/// The outcome of pausing an active subscription.
pub open spec fn pause_result(s: Subscription, now: u64) -> Result<Subscription, Error> {
    if s.status != SubscriptionStatus::Active {
        Err(Error::InvalidStatusTransition)
    } else if is_expired_at(s, now) {
        Err(Error::SubscriptionExpired)
    } else {
        Ok(Subscription { status: SubscriptionStatus::Paused, ..s })
    }
}

/// The outcome of resuming a paused subscription.
pub open spec fn resume_result(s: Subscription, now: u64) -> Result<Subscription, Error> {
    if s.status != SubscriptionStatus::Paused {
        Err(Error::InvalidStatusTransition)
    } else if is_expired_at(s, now) {
        Err(Error::SubscriptionExpired)
    } else {
        Ok(Subscription { status: SubscriptionStatus::Active, ..s })
    }
}

/// Whether the subscription has reached a terminal condition (cancelled or expired).
pub open spec fn is_terminal_at(s: Subscription, now: u64) -> bool {
    s.status == SubscriptionStatus::Cancelled || (s.status != SubscriptionStatus::Archived
        && is_expired_at(s, now))
}

/// The outcome of archiving: only a cancelled or expired subscription is archived.
pub open spec fn cleanup_result(s: Subscription, now: u64) -> Result<Subscription, Error> {
    if is_terminal_at(s, now) {
        Ok(Subscription { status: SubscriptionStatus::Archived, ..s })
    } else {
        Err(Error::InvalidStatusTransition)
    }
}

/// Whether the subscriber may take the escrow back.
pub open spec fn withdrawable_at(s: Subscription, now: u64) -> bool {
    s.status == SubscriptionStatus::Cancelled || s.status == SubscriptionStatus::Archived
        || is_expired_at(s, now)
}

/// The outcome of withdrawing the whole remaining escrow.
pub open spec fn withdraw_result(s: Subscription, now: u64) -> Result<Subscription, Error> {
    if !withdrawable_at(s, now) {
        Err(Error::InvalidStatusTransition)
    } else if s.prepaid_balance == 0 {
        Err(Error::NothingToWithdraw)
    } else {
        Ok(Subscription { prepaid_balance: 0, ..s })
    }
}

/// The outcome of refunding `amount` of the escrow.
pub open spec fn refund_result(s: Subscription, amount: i128) -> Result<Subscription, Error> {
    if amount <= 0 {
        Err(Error::InvalidAmount)
    } else if amount > s.prepaid_balance {
        Err(Error::InsufficientBalance)
    } else {
        Ok(Subscription { prepaid_balance: (s.prepaid_balance - amount) as i128, ..s })
    }
}

impl Subscription {
    /// Builds a new active subscription with an empty escrow.
    pub fn create(
        subscriber: Address,
        merchant: Address,
        token: Address,
        amount: i128,
        interval_seconds: u64,
        usage_enabled: bool,
        lifetime_cap: Option<i128>,
        expires_at: Option<u64>,
        now: u64,
    ) -> (r: Result<Subscription, Error>)
        ensures
            r == creation_result(
                subscriber,
                merchant,
                token,
                amount,
                interval_seconds,
                usage_enabled,
                lifetime_cap,
                expires_at,
                now,
            ),
            r matches Ok(s) ==> subscription_wf(s),
    {
        if amount <= 0 {
            return Err(Error::InvalidAmount);
        }
        if interval_seconds < MIN_SUBSCRIPTION_INTERVAL_SECONDS {
            return Err(Error::InvalidInterval);
        }
        if let Some(c) = lifetime_cap {
            if c <= 0 {
                return Err(Error::InvalidAmount);
            }
        }
        Ok(
            Subscription {
                subscriber,
                merchant,
                token,
                amount,
                interval_seconds,
                start_time: now,
                last_payment_timestamp: now,
                status: SubscriptionStatus::Active,
                prepaid_balance: 0,
                usage_enabled,
                lifetime_cap,
                lifetime_charged: 0,
                expires_at,
            },
        )
    }

    /// Whether the subscription keeps the bounds of a stored subscription.
    pub fn is_well_formed(&self) -> (r: bool)
        ensures
            r == subscription_wf(*self),
    {
        let cap_ok = match self.lifetime_cap {
            Some(c) => 0 < c && self.lifetime_charged <= c,
            None => true,
        };
        self.amount > 0 && self.interval_seconds >= MIN_SUBSCRIPTION_INTERVAL_SECONDS
            && self.prepaid_balance >= 0 && self.lifetime_charged >= 0 && cap_ok
    }

    /// Whether the subscription is expired at `now` (`now >= expires_at`).
    pub fn is_expired(&self, now: u64) -> (r: bool)
        ensures
            r == is_expired_at(*self, now),
    {
        match self.expires_at {
            Some(t) => now >= t,
            None => false,
        }
    }

    fn cap_exceeded(&self, extra: i128) -> (r: bool)
        requires
            subscription_wf(*self),
            extra > 0,
        ensures
            r == passes_cap(*self, extra as int),
    {
        match self.lifetime_cap {
            Some(c) => extra > c - self.lifetime_charged,
            None => false,
        }
    }

    fn cap_reached(&self, extra: i128) -> (r: bool)
        requires
            subscription_wf(*self),
            extra > 0,
        ensures
            r == reaches_cap(*self, extra as int),
    {
        match self.lifetime_cap {
            Some(c) => extra == c - self.lifetime_charged,
            None => false,
        }
    }

    /// Takes one interval's amount from the escrow.
    pub fn charged(&self, now: u64) -> (r: Result<Subscription, Error>)
        requires
            subscription_wf(*self),
        ensures
            r == charge_result(*self, now),
            r matches Ok(s) ==> subscription_wf(s),
    {
        if self.status != SubscriptionStatus::Active {
            return Err(Error::InvalidStatusTransition);
        }
        if self.is_expired(now) {
            return Err(Error::SubscriptionExpired);
        }
        if (now as u128) < (self.last_payment_timestamp as u128) + (self.interval_seconds as u128) {
            return Err(Error::IntervalNotElapsed);
        }
        if self.cap_exceeded(self.amount) {
            return Err(Error::LifetimeCapReached);
        }
        if self.lifetime_charged > i128::MAX - self.amount {
            return Err(Error::Overflow);
        }
        if self.prepaid_balance < self.amount {
            return Err(Error::InsufficientBalance);
        }
        let status = if self.cap_reached(self.amount) {
            SubscriptionStatus::Cancelled
        } else {
            SubscriptionStatus::Active
        };
        Ok(
            Subscription {
                prepaid_balance: self.prepaid_balance - self.amount,
                lifetime_charged: self.lifetime_charged + self.amount,
                last_payment_timestamp: now,
                status,
                ..*self
            },
        )
    }

    /// Takes a metered usage amount from the escrow.
    pub fn usage_charged(&self, usage_amount: i128, now: u64) -> (r: Result<Subscription, Error>)
        requires
            subscription_wf(*self),
        ensures
            r == usage_charge_result(*self, usage_amount, now),
            r matches Ok(s) ==> subscription_wf(s),
    {
        if self.status != SubscriptionStatus::Active {
            return Err(Error::InvalidStatusTransition);
        }
        if self.is_expired(now) {
            return Err(Error::SubscriptionExpired);
        }
        if !self.usage_enabled {
            return Err(Error::UsageNotEnabled);
        }
        if usage_amount <= 0 {
            return Err(Error::InvalidAmount);
        }
        if self.cap_exceeded(usage_amount) {
            return Err(Error::LifetimeCapReached);
        }
        if self.lifetime_charged > i128::MAX - usage_amount {
            return Err(Error::Overflow);
        }
        if self.prepaid_balance < usage_amount {
            return Err(Error::InsufficientBalance);
        }
        let status = if self.cap_reached(usage_amount) {
            SubscriptionStatus::Cancelled
        } else {
            SubscriptionStatus::Active
        };
        Ok(
            Subscription {
                prepaid_balance: self.prepaid_balance - usage_amount,
                lifetime_charged: self.lifetime_charged + usage_amount,
                status,
                ..*self
            },
        )
    }

    /// Adds a deposit to the escrow.
    pub fn deposited(&self, amount: i128, min_topup: i128, now: u64) -> (r: Result<
        Subscription,
        Error,
    >)
        requires
            subscription_wf(*self),
        ensures
            r == deposit_result(*self, amount, min_topup, now),
            r matches Ok(s) ==> subscription_wf(s),
    {
        if amount <= 0 {
            return Err(Error::InvalidAmount);
        }
        if amount < min_topup {
            return Err(Error::BelowMinimumTopup);
        }
        if self.status == SubscriptionStatus::Cancelled || self.status
            == SubscriptionStatus::Archived {
            return Err(Error::InvalidStatusTransition);
        }
        if self.is_expired(now) {
            return Err(Error::SubscriptionExpired);
        }
        if self.prepaid_balance > i128::MAX - amount {
            return Err(Error::Overflow);
        }
        Ok(Subscription { prepaid_balance: self.prepaid_balance + amount, ..*self })
    }

    /// Cancels a live, unexpired subscription.
    pub fn cancelled(&self, now: u64) -> (r: Result<Subscription, Error>)
        requires
            subscription_wf(*self),
        ensures
            r == cancel_result(*self, now),
            r matches Ok(s) ==> subscription_wf(s),
    {
        if self.status == SubscriptionStatus::Cancelled || self.status
            == SubscriptionStatus::Archived {
            return Err(Error::InvalidStatusTransition);
        }
        if self.is_expired(now) {
            return Err(Error::SubscriptionExpired);
        }
        Ok(Subscription { status: SubscriptionStatus::Cancelled, ..*self })
    }

    /// Pauses an active subscription.
    pub fn paused(&self, now: u64) -> (r: Result<Subscription, Error>)
        requires
            subscription_wf(*self),
        ensures
            r == pause_result(*self, now),
            r matches Ok(s) ==> subscription_wf(s),
    {
        if self.status != SubscriptionStatus::Active {
            return Err(Error::InvalidStatusTransition);
        }
        if self.is_expired(now) {
            return Err(Error::SubscriptionExpired);
        }
        Ok(Subscription { status: SubscriptionStatus::Paused, ..*self })
    }

    /// Resumes a paused subscription.
    pub fn resumed(&self, now: u64) -> (r: Result<Subscription, Error>)
        requires
            subscription_wf(*self),
        ensures
            r == resume_result(*self, now),
            r matches Ok(s) ==> subscription_wf(s),
    {
        if self.status != SubscriptionStatus::Paused {
            return Err(Error::InvalidStatusTransition);
        }
        if self.is_expired(now) {
            return Err(Error::SubscriptionExpired);
        }
        Ok(Subscription { status: SubscriptionStatus::Active, ..*self })
    }

    /// Archives a cancelled or expired subscription, keeping all its fields.
    pub fn archived(&self, now: u64) -> (r: Result<Subscription, Error>)
        requires
            subscription_wf(*self),
        ensures
            r == cleanup_result(*self, now),
            r matches Ok(s) ==> subscription_wf(s),
    {
        let terminal = self.status == SubscriptionStatus::Cancelled || (self.status
            != SubscriptionStatus::Archived && self.is_expired(now));
        if terminal {
            Ok(Subscription { status: SubscriptionStatus::Archived, ..*self })
        } else {
            Err(Error::InvalidStatusTransition)
        }
    }

    /// Empties the escrow of a cancelled, archived or expired subscription.
    pub fn withdrawn(&self, now: u64) -> (r: Result<Subscription, Error>)
        requires
            subscription_wf(*self),
        ensures
            r == withdraw_result(*self, now),
            r matches Ok(s) ==> subscription_wf(s),
    {
        let allowed = self.status == SubscriptionStatus::Cancelled || self.status
            == SubscriptionStatus::Archived || self.is_expired(now);
        if !allowed {
            return Err(Error::InvalidStatusTransition);
        }
        if self.prepaid_balance == 0 {
            return Err(Error::NothingToWithdraw);
        }
        Ok(Subscription { prepaid_balance: 0, ..*self })
    }

    /// Returns part of the escrow to the subscriber.
    pub fn refunded(&self, amount: i128) -> (r: Result<Subscription, Error>)
        requires
            subscription_wf(*self),
        ensures
            r == refund_result(*self, amount),
            r matches Ok(s) ==> subscription_wf(s),
    {
        if amount <= 0 {
            return Err(Error::InvalidAmount);
        }
        if amount > self.prepaid_balance {
            return Err(Error::InsufficientBalance);
        }
        Ok(Subscription { prepaid_balance: self.prepaid_balance - amount, ..*self })
    }
}

} // verus!
