//! Test runners: how many tests run at once.
//!
//! Running tests on worker threads happens where the threads are; the choices a runner makes
//! (how many workers, whether to run sequentially) are made here.

use vstd::prelude::*;

verus! {

/// Runs tests one after another on the calling thread.
#[derive(Debug, Default, Clone, Copy)]
pub struct SimpleRunner;

/// Runs tests in parallel on a fixed number of worker threads; by default as many as the
/// machine offers.
#[derive(Debug, Clone, Copy)]
pub struct DefaultRunner {
    threads: Option<usize>,
}

impl DefaultRunner {
    /// The chosen number of worker threads; `None` while the machine decides.
    pub closed spec fn threads(&self) -> Option<usize> {
        self.threads
    }

    /// The chosen thread count is never zero.
    #[verifier::type_invariant]
    spec fn threads_positive(&self) -> bool {
        self.threads matches Some(n) ==> n > 0
    }

    /// A runner with as many workers as the machine offers.
    pub fn new() -> (r: Self)
        ensures
            r.threads() is None,
    {
        DefaultRunner { threads: None }
    }

    /// Use `count` worker threads.
    pub fn with_thread_count(self, count: usize) -> (r: Self)
        requires
            count > 0,
        ensures
            r.threads() == Some(count),
    {
        DefaultRunner { threads: Some(count) }
    }

    /// The number of workers for a run, given the parallelism the machine offers.
    pub fn worker_count(&self, available: usize) -> (r: usize)
        requires
            available > 0,
        ensures
            r == match self.threads() {
                Some(n) => n,
                None => available,
            },
            r > 0,
    {
        proof {
            use_type_invariant(self);
        }
        match self.threads {
            Some(n) => n,
            None => available,
        }
    }
}

impl Default for DefaultRunner {
    fn default() -> (r: Self)
        ensures
            r.threads() is None,
    {
        DefaultRunner::new()
    }
}

/// Runs small test sets sequentially and larger ones in parallel.
#[derive(Debug, Clone, Copy)]
pub struct SmartRunner {
    threshold: usize,
    simple: SimpleRunner,
    default: DefaultRunner,
}

impl SmartRunner {
    /// Test sets of at most this many tests run sequentially.
    pub closed spec fn threshold(&self) -> usize {
        self.threshold
    }

    /// The parallel runner used for larger test sets.
    pub closed spec fn parallel(&self) -> DefaultRunner {
        self.default
    }

    /// Sequential up to four tests, parallel above, with as many workers as the machine
    /// offers.
    pub fn new() -> (r: Self)
        ensures
            r.threshold() == 4,
            r.parallel().threads() is None,
    {
        SmartRunner { threshold: 4, simple: SimpleRunner, default: DefaultRunner::new() }
    }

    /// Change the threshold.
    pub fn with_threshold(self, threshold: usize) -> (r: Self)
        ensures
            r.threshold() == threshold,
            r.parallel() == self.parallel(),
    {
        SmartRunner { threshold, ..self }
    }

    /// Use `threads` workers for parallel runs.
    pub fn with_threads(self, threads: usize) -> (r: Self)
        requires
            threads > 0,
        ensures
            r.threshold() == self.threshold(),
            r.parallel().threads() == Some(threads),
    {
        SmartRunner { default: self.default.with_thread_count(threads), ..self }
    }

    /// Whether a set of `count` tests runs sequentially.
    pub fn runs_sequentially(&self, count: usize) -> (r: bool)
        ensures
            r == (count <= self.threshold()),
    {
        count <= self.threshold
    }

    /// The number of workers for a parallel run, given the parallelism the machine offers.
    pub fn worker_count(&self, available: usize) -> (r: usize)
        requires
            available > 0,
        ensures
            r == match self.parallel().threads() {
                Some(n) => n,
                None => available,
            },
            r > 0,
    {
        self.default.worker_count(available)
    }
}

impl Default for SmartRunner {
    fn default() -> (r: Self)
        ensures
            r.threshold() == 4,
            r.parallel().threads() is None,
    {
        SmartRunner::new()
    }
}

} // verus!
