//! The factory record: the singleton per namespace through which every
//! program entry is created. It holds the identity that created it, the
//! count of entries created so far, and the salt that fixes its derived
//! address.

use vstd::prelude::*;

use crate::errors::ErrorCode;
use crate::identity::Identity;

verus! {

/// The singleton factory record of a namespace.
#[derive(Clone, Copy, Debug, PartialEq, Eq, Structural)]
pub struct Factory {
    /// The identity that created the factory; set once, never changed.
    pub authority: Identity,
    /// How many entries have been created through this factory. Increases by
    /// exactly one per successful creation and never wraps.
    pub program_count: u64,
    /// Derivation salt fixing this factory's deterministic address.
    pub bump: u8,
}

impl Factory {
    /// A fresh factory, as allocated by `initialize`: owned by `authority`,
    /// with no entries created yet.
    pub fn new(authority: Identity, bump: u8) -> (f: Factory)
        ensures
            f == (Factory { authority, program_count: 0, bump }),
    {
        Factory { authority, program_count: 0, bump }
    }

    /// Account for one successful entry creation. Fails with
    /// `CounterOverflow`, changing nothing, exactly when the counter is
    /// already at its maximum; the arithmetic is checked, never wrapping.
    pub fn record_creation(&mut self) -> (r: Result<(), ErrorCode>)
        ensures
            old(self).program_count == u64::MAX ==> r == Err::<(), ErrorCode>(
                ErrorCode::CounterOverflow,
            ) && *final(self) == *old(self),
            old(self).program_count < u64::MAX ==> r == Ok::<(), ErrorCode>(()) && *final(self)
                == (Factory { program_count: (old(self).program_count + 1) as u64, ..*old(self) }),
    {
        if self.program_count == u64::MAX {
            Err(ErrorCode::CounterOverflow)
        } else {
            self.program_count = self.program_count + 1;
            Ok(())
        }
    }
}

} // verus!
