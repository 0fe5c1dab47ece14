//! The region in which the timing-critical part of an exchange runs.

use vstd::prelude::*;

verus! {

/// Runs `f` as it is, once, and returns what it returned.
///
/// This is the region for a target on which nothing can come between two
/// operations. Where interrupts can, the region has to suppress them.
pub fn with<R>(f: impl FnOnce(()) -> R) -> (result: R)
    requires
        call_requires(f, ((),)),
    ensures
        call_ensures(f, ((),), result),
{
    f(())
}

} // verus!
