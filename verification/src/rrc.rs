//! Resource reference counting.
//!
//! A resource that needs system initialisation is set up when its first
//! reference is taken and torn down when its last reference is dropped. This
//! module holds the count and decides when each hook runs; the holder of the
//! count runs the hooks (and guards the count against concurrent use).

use vstd::prelude::*;

verus! {

/// A reference count that reports the 0 -> 1 and 1 -> 0 transitions.
#[derive(Debug, Clone, Copy)]
pub struct Rrc {
    counter: usize,
}

impl Rrc {
    /// The number of references currently held.
    pub closed spec fn count(self) -> nat {
        self.counter as nat
    }

    /// A count with no references.
    pub fn new() -> (r: Self)
        ensures
            r.count() == 0,
    {
        Rrc { counter: 0 }
    }

    /// The number of references currently held.
    pub fn references(&self) -> (r: usize)
        ensures
            r == self.count(),
    {
        self.counter
    }

    /// Takes a reference. Returns whether this is the first one, in which case
    /// the resource's `init` hook must run.
    pub fn acquire(&mut self) -> (run_init: bool)
        requires
            old(self).count() < usize::MAX,
        ensures
            final(self).count() == old(self).count() + 1,
            run_init == (old(self).count() == 0),
    {
        let run_init = self.counter == 0;
        self.counter = self.counter + 1;
        run_init
    }

    /// Gives a reference back. Returns whether it was the last one, in which
    /// case the resource's `deinit` hook must run.
    pub fn release(&mut self) -> (run_deinit: bool)
        requires
            old(self).count() > 0,
        ensures
            final(self).count() == old(self).count() - 1,
            run_deinit == (final(self).count() == 0),
    {
        self.counter = self.counter - 1;
        self.counter == 0
    }
}

/// Taking a reference and giving it back leaves the count where it was; the
/// `init` hook runs on the way up exactly when the `deinit` hook runs on the
/// way down.
pub proof fn lemma_acquire_release_round_trip(before: Rrc, middle: Rrc, after: Rrc, run_init: bool, run_deinit: bool)
    requires
        middle.count() == before.count() + 1,
        run_init == (before.count() == 0),
        after.count() == middle.count() - 1,
        run_deinit == (after.count() == 0),
    ensures
        after.count() == before.count(),
        run_init == run_deinit,
{
}

} // verus!
