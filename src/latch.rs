use std::sync::atomic::{AtomicBool, Ordering};
use vstd::prelude::*;

verus! {

/// Relies on core::hint::spin_loop: a processor hint inside a busy-wait loop,
/// with no effect on any value.
pub assume_specification[ core::hint::spin_loop ]();

/// A single-use completion flag: unset until `set`, then set for good.
///
/// Waiting busy-polls the flag; there is no timeout and no parking, so a
/// waiter burns its CPU for as long as the job it waits on runs.
pub struct Latch {
    latch: AtomicBool,
}

impl Latch {
    pub fn new() -> (r: Latch) {
        Latch { latch: AtomicBool::new(false) }
    }

    /// Whether `set` has been observed (acquire load).
    pub fn probe(&self) -> (r: bool) {
        self.latch.load(Ordering::Acquire)
    }

    /// Spins until the flag is observed set, and returns `true`; returns at
    /// once if it already is. The spin is bounded only by a poll count of
    /// `u64::MAX` (centuries of polling), after which it gives up with `false`.
    pub fn wait(&self) -> (observed: bool) {
        let mut polls: u64 = 0;
        while polls < u64::MAX
            decreases u64::MAX - polls,
        {
            if self.probe() {
                return true;
            }
            core::hint::spin_loop();
            polls = polls + 1;
        }
        false
    }

    /// Sets the flag (release store). Setting it again is harmless.
    pub fn set(&self) {
        self.latch.store(true, Ordering::Release);
    }
}

} // verus!
