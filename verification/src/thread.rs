//! Threads: the CPU cores.

use vstd::prelude::*;

verus! {

/// A CPU core.
#[derive(Debug, Clone, Copy, PartialEq, Eq, PartialOrd, Ord, Hash, Structural)]
pub enum Core {
    C0,
    C1,
    C2,
}

/// The number of a core.
pub open spec fn core_number(c: Core) -> u32 {
    match c {
        Core::C0 => 0,
        Core::C1 => 1,
        Core::C2 => 2,
    }
}

impl Core {
    /// The number of this core.
    pub fn into_primitive(self) -> (r: u32)
        ensures
            r == core_number(self),
    {
        match self {
            Core::C0 => 0,
            Core::C1 => 1,
            Core::C2 => 2,
        }
    }

    /// The core with number `n`, or `n` back when there is no such core.
    pub fn try_from_primitive(n: u32) -> (r: Result<Core, u32>)
        ensures
            n < 3 ==> (r matches Ok(c) && core_number(c) == n),
            n >= 3 ==> r == Err::<Core, u32>(n),
    {
        match n {
            0 => Ok(Core::C0),
            1 => Ok(Core::C1),
            2 => Ok(Core::C2),
            _ => Err(n),
        }
    }

    /// The core with the id the system reports for the running thread.
    pub fn from_core_id(id: u32) -> (r: Core)
        requires
            id < 3,
        ensures
            core_number(r) == id,
    {
        match id {
            0 => Core::C0,
            1 => Core::C1,
            _ => Core::C2,
        }
    }
}

/// Numbering a core and looking the number up again gives the same core.
pub proof fn lemma_core_number_round_trip(c: Core, n: u32)
    ensures
        core_number(c) < 3,
        n < 3 ==> exists|d: Core| core_number(d) == n,
        forall|d: Core| core_number(d) == core_number(c) ==> d == c,
{
    if n == 0 {
        assert(core_number(Core::C0) == n);
    } else if n == 1 {
        assert(core_number(Core::C1) == n);
    } else if n == 2 {
        assert(core_number(Core::C2) == n);
    }
}

} // verus!
