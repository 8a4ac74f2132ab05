//! The usage metrics that the native GNA library reports.
use vstd::prelude::*;

verus! {

/// Structure matching the GNA data provided by the native DLL.
#[derive(Debug, Clone, Copy)]
pub struct GnomeUsageMetrics {
    /// Total combined GNA utilization across all monitored scopes (system-wide).
    pub total_gna_usage_bytes: u64,
    /// Dedicated GNA usage metrics (specific to a core function/module).
    pub dedicated_gna_usage_bytes: u64,
    /// Shared GNA usage metrics (shared pool utilization).
    pub shared_gna_usage_bytes: u64,
}

} // verus!
