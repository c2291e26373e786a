//! The spider's externally visible progress record. Both counters stay
//! unset until extraction completes: absence is distinct from zero, so a
//! front end never reads "0 of 0" while analysis is still running.

use vstd::prelude::*;

verus! {

/// The linear run state: `Idle` to `Analyzing` to `Downloading` to
/// `Finished`, back to `Idle` only through an explicit reset.
#[derive(PartialEq, Eq, Structural, Debug, Clone, Copy)]
pub enum BunkrSpiderState {
    Idle,
    Analyzing,
    Downloading,
    Finished,
}

/// Snapshot of a run's progress.
#[derive(Clone, Copy)]
pub struct BunkrSpiderInformation {
    pub total_sources: Option<usize>,
    pub downloaded_sources: Option<usize>,
    pub state: BunkrSpiderState,
}

impl BunkrSpiderInformation {
    /// Both counters are set together, and the downloaded count never
    /// passes the total.
    pub open spec fn wf(self) -> bool {
        match (self.total_sources, self.downloaded_sources) {
            (Some(t), Some(d)) => d <= t,
            (None, None) => true,
            _ => false,
        }
    }

    /// The record as a fresh controller holds it.
    pub open spec fn fresh(self) -> bool {
        self.total_sources is None && self.downloaded_sources is None && self.state
            is Idle
    }

    pub fn new() -> (r: BunkrSpiderInformation)
        ensures
            r.fresh(),
            r.wf(),
    {
        BunkrSpiderInformation {
            total_sources: None,
            downloaded_sources: None,
            state: BunkrSpiderState::Idle,
        }
    }
}

} // verus!
