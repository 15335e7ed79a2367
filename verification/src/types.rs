use vstd::prelude::*;

verus! {

/// An account on the ledger, identified by an opaque number.
#[derive(Clone, Copy, Debug, PartialEq, Eq, Structural)]
pub struct Address {
    pub id: u64,
}

impl Address {
    pub fn new(id: u64) -> (r: Address)
        ensures
            r.id == id,
    {
        Address { id }
    }
}

/// Shortest billing interval a subscription may use, in seconds.
pub const MIN_SUBSCRIPTION_INTERVAL_SECONDS: u64 = 60;

/// Largest merchant fee, in basis points (100%).
pub const MAX_FEE_BIPS: u32 = 10000;

/// Merchant operation flags.
pub const OP_CHARGE: u32 = 0x01;
pub const OP_WITHDRAW: u32 = 0x02;
pub const OP_REFUND: u32 = 0x04;
pub const OP_USAGE: u32 = 0x08;
pub const OP_AUTO_RENEWAL: u32 = 0x10;
/// Every operation flag a merchant configuration may carry.
pub const OP_ALL: u32 = 0x1F;

/// Period statement status flags.
pub const STMT_FLAG_INTERVAL_CHARGED: u32 = 0x01;
pub const STMT_FLAG_USAGE_CHARGED: u32 = 0x02;
pub const STMT_FLAG_ONEOFF_CHARGED: u32 = 0x04;
pub const STMT_FLAG_CANCELLED: u32 = 0x08;
pub const STMT_FLAG_SETTLED: u32 = 0x10;

/// Errors returned by the vault.
#[derive(Clone, Copy, Debug, PartialEq, Eq, Structural)]
pub enum Error {
    /// The signer is not the stored admin of an admin-only route.
    Unauthorized,
    /// The caller is authenticated but the route belongs to another role.
    Forbidden,
    /// The requested record does not exist.
    NotFound,
    /// An argument is malformed or the request repeats an existing record.
    InvalidInput,
    /// An amount is zero or negative.
    InvalidAmount,
    /// A billing interval is shorter than the minimum.
    InvalidInterval,
    /// A deposit is below the configured minimum top-up.
    BelowMinimumTopup,
    /// The prepaid balance does not cover the charge.
    InsufficientBalance,
    /// The billing interval has not elapsed since the last charge.
    IntervalNotElapsed,
    /// The subscription's expiry time has been reached.
    SubscriptionExpired,
    /// The subscription's status does not allow the operation.
    InvalidStatusTransition,
    /// Usage charges are not enabled on the subscription.
    UsageNotEnabled,
    /// The charge would exceed the subscription's lifetime cap.
    LifetimeCapReached,
    /// The subscriber is on the blocklist.
    SubscriberBlocklisted,
    /// The emergency stop is engaged.
    EmergencyStopActive,
    /// The token is not on the accepted list.
    TokenNotAccepted,
    /// A counter or a sum would leave its integer range.
    Overflow,
    /// There is no balance left to withdraw.
    NothingToWithdraw,
    /// A merchant fee above the maximum.
    InvalidFeeBips,
    /// The merchant already has a configuration.
    ConfigAlreadyExists,
    /// An operation flag outside the known set.
    InvalidOperations,
    /// The operation flags do not include charging.
    MustAllowChargeOperation,
    /// The merchant has no configuration.
    ConfigNotFound,
}

impl Error {
    /// The numeric code under which the error is reported to callers.
    pub open spec fn spec_code(&self) -> u32 {
        match self {
            Error::Unauthorized => 401,
            Error::Forbidden => 403,
            Error::NotFound => 404,
            Error::InvalidInput => 1001,
            Error::InvalidAmount => 1002,
            Error::InvalidInterval => 1003,
            Error::BelowMinimumTopup => 1004,
            Error::InsufficientBalance => 1005,
            Error::IntervalNotElapsed => 1006,
            Error::SubscriptionExpired => 1007,
            Error::InvalidStatusTransition => 1008,
            Error::UsageNotEnabled => 1009,
            Error::LifetimeCapReached => 1010,
            Error::SubscriberBlocklisted => 1011,
            Error::EmergencyStopActive => 1012,
            Error::TokenNotAccepted => 1013,
            Error::Overflow => 1014,
            Error::NothingToWithdraw => 1015,
            Error::InvalidFeeBips => 1038,
            Error::ConfigAlreadyExists => 1039,
            Error::InvalidOperations => 1040,
            Error::MustAllowChargeOperation => 1041,
            Error::ConfigNotFound => 1042,
        }
    }

    #[verifier::when_used_as_spec(spec_code)]
    pub fn code(&self) -> (c: u32)
        ensures
            c == self.spec_code(),
    {
        match self {
            Error::Unauthorized => 401,
            Error::Forbidden => 403,
            Error::NotFound => 404,
            Error::InvalidInput => 1001,
            Error::InvalidAmount => 1002,
            Error::InvalidInterval => 1003,
            Error::BelowMinimumTopup => 1004,
            Error::InsufficientBalance => 1005,
            Error::IntervalNotElapsed => 1006,
            Error::SubscriptionExpired => 1007,
            Error::InvalidStatusTransition => 1008,
            Error::UsageNotEnabled => 1009,
            Error::LifetimeCapReached => 1010,
            Error::SubscriberBlocklisted => 1011,
            Error::EmergencyStopActive => 1012,
            Error::TokenNotAccepted => 1013,
            Error::Overflow => 1014,
            Error::NothingToWithdraw => 1015,
            Error::InvalidFeeBips => 1038,
            Error::ConfigAlreadyExists => 1039,
            Error::InvalidOperations => 1040,
            Error::MustAllowChargeOperation => 1041,
            Error::ConfigNotFound => 1042,
        }
    }
}

} // verus!
