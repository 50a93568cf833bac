//! The figures that a run reports.
use vstd::prelude::*;

verus! {

/// Statistics report for the benchmark.
///
/// Note: This uses a steady-state measurement model where:
/// - `sent` = transactions sent during the measurement window
/// - `confirmed` = confirmations observed during the measurement window
///
/// These are independent measurements. Confirmations include some warmup
/// transactions, while some measurement transactions will confirm after
/// the window ends. Under steady-state, these balance out.
#[derive(Debug, Clone)]
pub struct StatsReport {
    /// Transactions sent during the measurement window
    pub sent: usize,
    /// Confirmations observed during the measurement window
    pub confirmed: usize,
}

impl StatsReport {
    /// Create a new statistics report.
    pub fn new(sent: usize, confirmed: usize) -> (report: Self)
        ensures
            report.sent == sent,
            report.confirmed == confirmed,
    {
        StatsReport { sent, confirmed }
    }
}

} // verus!
