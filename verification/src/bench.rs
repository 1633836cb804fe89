//! What benchmarks report their progress to, and how the progress bar is
//! drawn.
use std::sync::atomic::AtomicU64;
use vstd::prelude::*;

verus! {

/// Shared between a running benchmark, which logs its progress, and the
/// thread that draws the progress bar. The values are written and read by
/// different threads, so nothing is known here of what a read returns.
pub struct BenchContext {
    progress: AtomicU64,
    denominator: AtomicU64,
}

/// Progress bar template while a benchmark runs.
pub const IN_PROGRESS_TEMPLATE: &'static str = "[{elapsed_precise}] {wide_bar:.yellow} {percent:>3}%";

/// Progress bar template once a benchmark is done.
pub const DONE_TEMPLATE: &'static str = "[{elapsed_precise}] {wide_bar:.green} {percent:>3}%";

/// Width of the progress bar, in steps.
pub const PROGRESS_BAR_LEN: u64 = 80;

impl BenchContext {
    /// A context with no progress and no denominator.
    pub fn new() -> (c: Self) {
        BenchContext { progress: AtomicU64::new(0), denominator: AtomicU64::new(0) }
    }

    /// Sets the denominator to use for progress tracking.
    pub fn set_progress_denominator(&self, denominator: u64) {
        self.denominator.store(denominator, std::sync::atomic::Ordering::Relaxed);
    }

    /// Logs progress, in any unit. It only shows once
    /// [`Self::set_progress_denominator()`] has been called with a non-zero
    /// value.
    pub fn log_progress(&self, progress: u64) {
        self.progress.store(progress, std::sync::atomic::Ordering::Relaxed);
    }

    /// The progress last logged.
    pub fn progress(&self) -> u64 {
        self.progress.load(std::sync::atomic::Ordering::Relaxed)
    }

    /// The denominator last set.
    pub fn denominator(&self) -> u64 {
        self.denominator.load(std::sync::atomic::Ordering::Relaxed)
    }
}

/// The progress bar template for a benchmark that is done or not.
pub fn progress_template(is_done: bool) -> (t: &'static str)
    ensures
        t@ == (if is_done {
            DONE_TEMPLATE@
        } else {
            IN_PROGRESS_TEMPLATE@
        }),
{
    if is_done {
        DONE_TEMPLATE
    } else {
        IN_PROGRESS_TEMPLATE
    }
}

} // verus!
