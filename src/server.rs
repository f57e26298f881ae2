use vstd::prelude::*;
use std::sync::atomic::{AtomicBool, Ordering};

verus! {

/// Asks the request server polling `flag` to stop after its current poll.
pub fn stop(flag: &AtomicBool) {
    flag.store(true, Ordering::SeqCst);
}

} // verus!
