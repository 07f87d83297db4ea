//! Client-side capability engine for a zero-trust secrets broker.
//!
//! Short-lived, narrowly scoped capability tokens are built, checked before
//! every protected operation, counted against their usage caps and held in an
//! in-memory store owned by one client session.
//!
//! Instants are milliseconds since the Unix epoch (`i64`), token lifetimes
//! are milliseconds (`u64`), a requested TTL is nanoseconds (`u64`, as exact
//! as a `Duration` within its bounds), token identifiers are the 128-bit
//! value of a UUID.

use vstd::prelude::*;

pub mod error;
pub mod scope;
pub mod names;
pub mod clock;
pub mod capability;
pub mod store;
pub mod health;
pub mod config;
pub mod retry;

pub use capability::{Capability, CapabilityContext, CapabilityRequest, TimeWindow, UsageLimits};
pub use error::{CapabilityError, ConfigError, CryptoError, IdentityError, TransportError, VaultError};
pub use names::NameSet;
pub use scope::{Action, Domain};
pub use store::CapabilityStore;
pub use health::{HealthDetail, HealthStatus, HealthStatusType, VaultStatus};
pub use config::{AuthMethod, LogFormat, TransportType};

verus! {

/// Version of this library.
pub const VERSION: &'static str = "0.1.0";

} // verus!
