//! A subscription billing vault: escrowed prepaid balances, interval and
//! usage charges, expiry and archival, billing statements, merchant
//! configurations, a subscriber blocklist and admin controls.

pub mod types;
pub mod subscription;
pub mod paging;
pub mod statements;
pub mod merchant;
pub mod blocklist;
pub mod vault;
pub mod laws;
