//! Caller identities. The execution environment verifies who signed each
//! call and hands the core an opaque principal; the core only ever compares
//! identities for equality.

use vstd::prelude::*;

verus! {

/// A cryptographic principal, as supplied (already verified) by the
/// execution environment.
#[derive(Clone, Copy, Debug, PartialEq, Eq, Structural)]
pub struct Identity(pub u64);

} // verus!
