//! The error taxonomy: every operation either fully succeeds or fails with
//! exactly one of these kinds, leaving all records unchanged.

use vstd::prelude::*;

verus! {

/// The terminal result of a rejected operation. No kind is a crash: each is
/// an ordinary rejection surfaced verbatim to the caller.
#[derive(Clone, Copy, Debug, PartialEq, Eq, Structural)]
pub enum ErrorCode {
    /// Creation targeted an address that already holds a record.
    AlreadyExists,
    /// The entry name exceeds the name bound.
    NameTooLong,
    /// The description exceeds the description bound.
    DescriptionTooLong,
    /// The payload exceeds the payload bound.
    PayloadTooLarge,
    /// The caller is not the record's recorded owner.
    Unauthorized,
    /// The factory's creation counter is already at its maximum.
    CounterOverflow,
}

} // verus!
