//! The state and messages of the monitoring user interface.
use vstd::prelude::*;
use crate::memory::ProcessMemoryEntry;

verus! {

/// The core application input state.
#[derive(Clone, PartialEq, Eq, Structural)]
pub struct AppInput;

impl Default for AppInput {
    fn default() -> (res: Self)
        ensures
            res == AppInput,
    {
        AppInput
    }
}

/// Defines the primary view context for GNA monitoring.
#[derive(Debug, Clone, Copy, PartialEq, Eq, Structural)]
pub enum ViewMode {
    /// A detailed list view showing individual processes and system totals.
    DetailedList,
}

/// Defines how the process metrics are grouped in the UI list.
#[derive(Debug, Clone, Copy, PartialEq, Eq, Structural)]
pub enum GroupMode {
    /// Show every single monitored entity.
    Individual,
    /// Group by descending GNA usage amount.
    ByGnaUsage,
}

/// Defines the specific metric being displayed for a process or system summary.
#[derive(Debug, Clone, Copy, PartialEq, Eq, Structural)]
pub enum Gnametric {
    /// Primary GNA utilization metric (the main focus).
    PrimaryGnaUsage,
}

/// Messages sent to the application core from various UI components.
#[derive(Clone)]
pub enum AppMessage {
    /// Trigger a re-read of the GNA data.
    RefreshMetrics,
    SetViewMode(ViewMode),
    SetGroupMode(GroupMode),
    SelectProcess(Option<ProcessMemoryEntry>, Option<String>),
}

} // verus!
