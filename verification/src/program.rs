//! A program registry entry: one record per (owner, name) pair, holding
//! descriptive metadata, an opaque payload, and a deployment flag. The name
//! and owner are fixed at creation; the description is mutable by the owner,
//! and the payload is replaced (and the flag set) by a deploy.

use vstd::prelude::*;
use vstd::string::StrSliceExecFns;

use crate::errors::ErrorCode;
use crate::identity::Identity;
use crate::limits::{MAX_DESCRIPTION_LEN, MAX_PAYLOAD_LEN};

verus! {

/// One program registry entry.
pub struct Program {
    /// The entry's name; immutable, part of its derived address.
    pub name: String,
    /// Descriptive metadata; mutable only by the owner.
    pub description: String,
    /// The identity recorded at creation; never reassigned.
    pub authority: Identity,
    /// Opaque deployed content; empty at creation.
    pub payload: Vec<u8>,
    /// Whether a deploy has taken place.
    pub deployed: bool,
    /// Timestamp captured at creation; immutable.
    pub created_at: i64,
    /// Derivation salt fixing this entry's deterministic address.
    pub bump: u8,
}

/// The mathematical value of an entry.
#[verifier::ext_equal]
pub ghost struct ProgramModel {
    pub name: Seq<char>,
    pub description: Seq<char>,
    pub authority: Identity,
    pub payload: Seq<u8>,
    pub deployed: bool,
    pub created_at: i64,
    pub bump: u8,
}

impl View for Program {
    type V = ProgramModel;

    open spec fn view(&self) -> ProgramModel {
        ProgramModel {
            name: self.name@,
            description: self.description@,
            authority: self.authority,
            payload: self.payload@,
            deployed: self.deployed,
            created_at: self.created_at,
            bump: self.bump,
        }
    }
}

/// The entry allocated by a successful creation: named, described, owned by
/// its creator, with an empty payload and the deployment flag clear.
pub open spec fn fresh_program(
    name: Seq<char>,
    description: Seq<char>,
    authority: Identity,
    created_at: i64,
    bump: u8,
) -> ProgramModel {
    ProgramModel {
        name,
        description,
        authority,
        payload: Seq::empty(),
        deployed: false,
        created_at,
        bump,
    }
}

/// What a description update does to an entry that passed every check:
/// the description is replaced in place and no other field changes.
pub open spec fn updated_program(m: ProgramModel, description: Seq<char>) -> ProgramModel {
    ProgramModel { description, ..m }
}

/// What a deploy does to an entry that passed every check: the payload is
/// replaced and the deployment flag is set; no other field changes. A
/// redeploy, even with an empty payload, is permitted by design.
pub open spec fn deployed_program(m: ProgramModel, payload: Seq<u8>) -> ProgramModel {
    ProgramModel { payload, deployed: true, ..m }
}

impl Program {
    /// Replace the description. Fails with `Unauthorized` unless `caller` is
    /// the recorded owner, then with `DescriptionTooLong` if the new
    /// description is over the bound; on failure nothing changes. On success
    /// the description is replaced and no other field changes.
    pub fn update(&mut self, caller: Identity, description: String) -> (r: Result<(), ErrorCode>)
        ensures
            caller != old(self).authority ==> r == Err::<(), ErrorCode>(ErrorCode::Unauthorized)
                && final(self)@ == old(self)@,
            caller == old(self).authority && description@.len() > MAX_DESCRIPTION_LEN ==> r == Err::<
                (),
                ErrorCode,
            >(ErrorCode::DescriptionTooLong) && final(self)@ == old(self)@,
            caller == old(self).authority && description@.len() <= MAX_DESCRIPTION_LEN ==> r == Ok::<
                (),
                ErrorCode,
            >(()) && final(self)@ == updated_program(old(self)@, description@),
    {
        if caller != self.authority {
            return Err(ErrorCode::Unauthorized);
        }
        if description.as_str().unicode_len() > MAX_DESCRIPTION_LEN {
            return Err(ErrorCode::DescriptionTooLong);
        }
        self.description = description;
        Ok(())
    }

    /// Replace the payload and mark the entry deployed. Fails with
    /// `Unauthorized` unless `caller` is the recorded owner, then with
    /// `PayloadTooLarge` if the payload is over the bound; on failure nothing
    /// changes. On success the payload is replaced and the flag is set,
    /// whether or not the entry was deployed before.
    pub fn deploy(&mut self, caller: Identity, payload: Vec<u8>) -> (r: Result<(), ErrorCode>)
        ensures
            caller != old(self).authority ==> r == Err::<(), ErrorCode>(ErrorCode::Unauthorized)
                && final(self)@ == old(self)@,
            caller == old(self).authority && payload@.len() > MAX_PAYLOAD_LEN ==> r == Err::<
                (),
                ErrorCode,
            >(ErrorCode::PayloadTooLarge) && final(self)@ == old(self)@,
            caller == old(self).authority && payload@.len() <= MAX_PAYLOAD_LEN ==> r == Ok::<
                (),
                ErrorCode,
            >(()) && final(self)@ == deployed_program(old(self)@, payload@),
    {
        if caller != self.authority {
            return Err(ErrorCode::Unauthorized);
        }
        if payload.len() > MAX_PAYLOAD_LEN {
            return Err(ErrorCode::PayloadTooLarge);
        }
        self.payload = payload;
        self.deployed = true;
        Ok(())
    }
}

} // verus!
