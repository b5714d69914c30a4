//! The size bounds on entry fields.

use vstd::prelude::*;

verus! {

/// Largest allowed entry name, in characters.
pub const MAX_NAME_LEN: usize = 50;

/// Largest allowed entry description, in characters.
pub const MAX_DESCRIPTION_LEN: usize = 200;

/// Largest allowed payload, in bytes.
pub const MAX_PAYLOAD_LEN: usize = 10240;

} // verus!
