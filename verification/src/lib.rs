//! Core of a token-distribution ledger overlay: a fixed-supply vesting record with
//! time-gated releases, a fee-splitting transfer path and administrator-controlled
//! parameters.
//!
//! Nothing here performs I/O. Each instruction takes a context of plain values, the
//! current time where it matters, and returns either an audit event that names the
//! ledger moves to delegate, or the reason for rejecting the request. A rejected
//! request leaves its context untouched.
pub mod identity;
pub mod error;
pub mod commission;
pub mod account;
pub mod events;
pub mod context;
pub mod program;
pub mod laws;

pub use crate::account::MyAccount;
pub use crate::commission::CommissionRate;
pub use crate::context::{AdminControl, AutoRelease, Initialize, TokenAccount, TransferTokens};
pub use crate::error::ErrorCode;
pub use crate::events::{
    CapUpdateEvent, Event, EventLog, LedgerMove, RateUpdateEvent, ReleaseEvent, TransferEvent,
};
pub use crate::identity::Identity;
pub use crate::program::{
    authorize, auto_release, initialize, release_due, transfer, update_commission_rate,
    update_whale_cap,
};
