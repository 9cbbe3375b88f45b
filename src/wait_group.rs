//! A reusable countdown: `add` raises the count, `done` lowers it by one and
//! wakes a waiter, and a waiter re-checks `is_complete` after every wake.

use std::sync::atomic::{AtomicUsize, Ordering};
use std::sync::Arc;
use tokio::sync::Notify;
use vstd::prelude::*;

verus! {

/// tokio's `sync::Notify`, carried opaquely.
#[verifier::external_type_specification]
#[verifier::external_body]
pub struct ExNotify(tokio::sync::Notify);

/// Relies on tokio's `Notify::new`: a notifier with no stored permit.
pub assume_specification[ tokio::sync::Notify::new ]() -> tokio::sync::Notify;

/// Relies on tokio's `Notify::notify_one`: wakes one waiter, or stores a
/// permit for the next one; it never blocks.
pub assume_specification[ tokio::sync::Notify::notify_one ](notify: &tokio::sync::Notify);

/// A shared, reusable counter of outstanding operations. Clones share the
/// same count.
#[derive(Clone)]
pub struct WaitGroup {
    n: Arc<AtomicUsize>,
    notify: Arc<Notify>,
}

impl WaitGroup {
    /// Creates a group whose count starts at `n`.
    pub fn new(n: usize) -> (r: WaitGroup) {
        WaitGroup { n: Arc::new(AtomicUsize::new(n)), notify: Arc::new(Notify::new()) }
    }

    /// Raises the count by `n`.
    pub fn add(&self, n: usize) {
        self.n.fetch_add(n, Ordering::SeqCst);
    }

    /// Lowers the count by one and wakes one waiter.
    pub fn done(&self) {
        self.n.fetch_sub(1, Ordering::SeqCst);
        self.notify.notify_one();
    }

    /// Whether the count is zero at the moment of reading it.
    pub fn is_complete(&self) -> bool {
        self.n.load(Ordering::SeqCst) == 0
    }

    /// The notifier that `done` signals; a waiter waits on it between two
    /// reads of `is_complete`.
    pub fn notifier(&self) -> Arc<Notify> {
        self.notify.clone()
    }
}

} // verus!
