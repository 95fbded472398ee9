//! State of the local library scanner: whether a scan runs, and whether
//! another was asked for while it ran.
use vstd::prelude::*;

verus! {

#[derive(PartialEq, Eq, Structural, Debug, Clone, Copy)]
pub enum ScanState {
    UNDEFINED,
    SCANNING,
    QUEUED,
}

pub struct ScannerHolder {
    state: ScanState,
    progress: u8,
}

impl ScannerHolder {
    pub closed spec fn scan_state(&self) -> ScanState {
        self.state
    }

    pub closed spec fn scan_progress(&self) -> u8 {
        self.progress
    }

    /// No scan running, no progress.
    pub fn new() -> (r: Self)
        ensures
            r.scan_state() == ScanState::UNDEFINED,
            r.scan_progress() == 0,
    {
        ScannerHolder { state: ScanState::UNDEFINED, progress: 0 }
    }

    pub fn get_progress(&self) -> (r: u8)
        ensures
            r == self.scan_progress(),
    {
        self.progress
    }

    /// Asks for a scan. When none runs it starts (`true`); otherwise it is
    /// queued behind the running one (`false`).
    pub fn start_scan(&mut self) -> (r: bool)
        ensures
            r == (old(self).scan_state() == ScanState::UNDEFINED),
            r ==> final(self).scan_state() == ScanState::SCANNING,
            !r ==> final(self).scan_state() == ScanState::QUEUED,
            final(self).scan_progress() == old(self).scan_progress(),
    {
        if self.state != ScanState::UNDEFINED {
            self.state = ScanState::QUEUED;
            return false;
        }
        self.state = ScanState::SCANNING;
        true
    }

    /// Marks the running scan as done.
    pub fn finish_scan(&mut self)
        ensures
            final(self).scan_state() == ScanState::UNDEFINED,
            final(self).scan_progress() == old(self).scan_progress(),
    {
        self.state = ScanState::UNDEFINED;
    }
}

impl Default for ScannerHolder {
    fn default() -> (r: Self)
        ensures
            r.scan_state() == ScanState::UNDEFINED,
            r.scan_progress() == 0,
    {
        Self::new()
    }
}

} // verus!
