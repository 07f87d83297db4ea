//! Status and health reports of the broker.

use vstd::prelude::*;

verus! {

/// Broker status information.
#[derive(Debug, Clone, PartialEq, Eq)]
pub struct VaultStatus {
    /// Broker version.
    pub version: String,
    /// Server time (ms since the epoch).
    pub server_time: i64,
    /// Initialization status.
    pub initialized: bool,
    /// Sealed status.
    pub sealed: bool,
    /// Standby status.
    pub standby: bool,
    /// Performance mode.
    pub performance_mode: Option<String>,
    /// Available storage.
    pub available_storage: Option<u64>,
    /// Total storage.
    pub total_storage: Option<u64>,
}

/// Health check status.
#[derive(Debug, Clone, PartialEq, Eq)]
pub struct HealthStatus {
    /// Overall health.
    pub healthy: bool,
    /// Detailed status of each component.
    pub details: Vec<HealthDetail>,
    /// Time of the check (ms since the epoch).
    pub timestamp: i64,
}

/// Health of one component.
#[derive(Debug, Clone, PartialEq, Eq)]
pub struct HealthDetail {
    /// Component name.
    pub component: String,
    /// Component status.
    pub status: HealthStatusType,
    /// Status message.
    pub message: Option<String>,
    /// Response time in milliseconds.
    pub response_time_ms: Option<u64>,
}

/// Health of a component.
#[derive(Debug, Clone, Copy, PartialEq, Eq)]
pub enum HealthStatusType {
    /// Component is healthy
    Healthy,
    /// Component is degraded
    Degraded,
    /// Component is unhealthy
    Unhealthy,
    /// Component status unknown
    Unknown,
}

} // verus!
