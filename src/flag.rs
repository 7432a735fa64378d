//! A flag that several tasks may set and read.
use vstd::prelude::*;
use std::sync::atomic::{AtomicBool, Ordering};

verus! {

/// A boolean flag shared between tasks. It starts cleared; any task may set
/// it. What a read returns depends on what other tasks have done, so no
/// contract states it.
pub struct AtomicFlag(AtomicBool);

impl AtomicFlag {
    /// A cleared flag.
    pub fn new() -> (r: AtomicFlag) {
        AtomicFlag(AtomicBool::new(false))
    }

    /// Sets the flag.
    pub fn set(&self) {
        self.0.store(true, Ordering::Relaxed);
    }

    /// Reads the flag.
    pub fn get(&self) -> bool {
        self.0.load(Ordering::Relaxed)
    }
}

} // verus!
