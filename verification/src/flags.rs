//! Flags that another thread sets to stop a search or to end pondering.

use vstd::prelude::*;
use std::sync::Arc;
use std::sync::atomic::{AtomicBool, Ordering};

verus! {

/// Whether the flag is set now. Nothing is known of the answer: another
/// thread may set or clear the flag at any time.
pub(crate) fn flag_is_set(flag: &Arc<AtomicBool>) -> (set: bool) {
    flag.load(Ordering::Relaxed)
}

} // verus!
