//! The registry: one namespace's records, addressed deterministically. The
//! execution environment persists records and guarantees that nothing can be
//! created at an address that already holds one; this module makes that
//! explicit as an ownership-indexed store whose keys are derived from the
//! owning identity and entry name, exactly the inputs of the platform's
//! address derivation.

use vstd::prelude::*;
use vstd::string::StrSliceExecFns;

use crate::errors::ErrorCode;
use crate::factory::Factory;
use crate::identity::Identity;
use crate::limits::{MAX_DESCRIPTION_LEN, MAX_NAME_LEN, MAX_PAYLOAD_LEN};
use crate::program::{
    deployed_program, fresh_program, updated_program, Program, ProgramModel,
};

verus! {

/// The deterministic address of a program entry: a stable composite key
/// computed from the owning identity and the entry name, never assigned
/// randomly. Re-deriving it for the same pair always yields the same
/// address, so a second creation collides with the first.
#[derive(Debug)]
pub struct EntryAddress {
    pub owner: Identity,
    pub name: String,
}

/// The mathematical value of an entry address.
#[verifier::ext_equal]
pub ghost struct EntryAddressModel {
    pub owner: Identity,
    pub name: Seq<char>,
}

impl View for EntryAddress {
    type V = EntryAddressModel;

    open spec fn view(&self) -> EntryAddressModel {
        EntryAddressModel { owner: self.owner, name: self.name@ }
    }
}

/// Derive the address of the entry that `owner` would create under `name`.
/// A pure function of its inputs: equal pairs give equal addresses.
pub fn derive_entry_address(owner: Identity, name: &String) -> (a: EntryAddress)
    ensures
        a@ == (EntryAddressModel { owner, name: name@ }),
{
    EntryAddress { owner, name: name.clone() }
}

/// Whether entry `p` lives at the address derived from `(owner, name)`.
pub open spec fn matches_key(p: ProgramModel, owner: Identity, name: Seq<char>) -> bool {
    p.authority == owner && p.name == name
}

/// Whether some entry lives at the address derived from `(owner, name)`.
pub open spec fn has_program(
    programs: Seq<ProgramModel>,
    owner: Identity,
    name: Seq<char>,
) -> bool {
    exists|i: int| 0 <= i < programs.len() && matches_key(programs[i], owner, name)
}

/// The position of the entry at the address derived from `(owner, name)`.
/// Meaningful only when such an entry exists; unique under `distinct_keys`.
pub open spec fn match_index(
    programs: Seq<ProgramModel>,
    owner: Identity,
    name: Seq<char>,
) -> int {
    choose|i: int| 0 <= i < programs.len() && matches_key(programs[i], owner, name)
}

/// The entry at the address derived from `(owner, name)`.
pub open spec fn lookup_program(
    programs: Seq<ProgramModel>,
    owner: Identity,
    name: Seq<char>,
) -> ProgramModel
    recommends
        has_program(programs, owner, name),
{
    programs[match_index(programs, owner, name)]
}

/// The store after replacing the entry at `(owner, name)` with `p2`. Every
/// other entry keeps its place and value.
pub open spec fn replace_program(
    programs: Seq<ProgramModel>,
    owner: Identity,
    name: Seq<char>,
    p2: ProgramModel,
) -> Seq<ProgramModel> {
    programs.map_values(
        |p: ProgramModel|
            if matches_key(p, owner, name) {
                p2
            } else {
                p
            },
    )
}

/// No two entries share an address: distinct records always differ in owner
/// or in name.
pub open spec fn distinct_keys(programs: Seq<ProgramModel>) -> bool {
    forall|i: int, j: int|
        0 <= i < j < programs.len() ==> ((#[trigger] programs[i]).authority
            != (#[trigger] programs[j]).authority || programs[i].name != programs[j].name)
}

/// The field bounds every stored entry obeys.
pub open spec fn entry_bounds_ok(p: ProgramModel) -> bool {
    &&& p.name.len() <= MAX_NAME_LEN
    &&& p.description.len() <= MAX_DESCRIPTION_LEN
    &&& p.payload.len() <= MAX_PAYLOAD_LEN
}

/// The mathematical value of a registry: the factory record, if one has
/// been created, and the program entries in order of creation.
#[verifier::ext_equal]
pub ghost struct RegistryModel {
    pub factory: Option<Factory>,
    pub programs: Seq<ProgramModel>,
}

impl RegistryModel {
    /// A namespace in which nothing has been created yet.
    pub open spec fn empty() -> RegistryModel {
        RegistryModel { factory: None, programs: Seq::empty() }
    }

    /// Well-formedness: addresses are unique, every stored entry obeys the
    /// field bounds, and the factory's counter equals the number of entries
    /// created through it — entries exist only once the factory does, and
    /// each successful creation added exactly one.
    pub open spec fn wf(self) -> bool {
        &&& distinct_keys(self.programs)
        &&& forall|i: int|
            0 <= i < self.programs.len() ==> entry_bounds_ok(#[trigger] self.programs[i])
        &&& match self.factory {
            Some(f) => f.program_count == self.programs.len(),
            None => self.programs.len() == 0,
        }
    }
}

/// What `initialize` does: allocates the factory record, owned by the
/// authorizing identity, with its counter at zero — unless the factory's
/// address is already occupied, in which case nothing changes and the call
/// fails with `AlreadyExists`.
pub open spec fn init_transition(m: RegistryModel, authority: Identity, bump: u8) -> (
    RegistryModel,
    Result<(), ErrorCode>,
) {
    if m.factory is Some {
        (m, Err(ErrorCode::AlreadyExists))
    } else {
        (
            RegistryModel { factory: Some(Factory { authority, program_count: 0, bump }), ..m },
            Ok(()),
        )
    }
}

/// What `create_program` does, given that the factory exists (`None` stands
/// for the environment refusing the call because it does not). Checks run
/// in order — name bound, description bound, address collision, counter —
/// and any failure leaves the registry unchanged. On success the new entry
/// is allocated with an empty payload and a clear deployment flag, and the
/// factory's counter grows by exactly one.
pub open spec fn create_transition(
    m: RegistryModel,
    caller: Identity,
    name: Seq<char>,
    description: Seq<char>,
    now: i64,
    bump: u8,
) -> Option<(RegistryModel, Result<EntryAddressModel, ErrorCode>)> {
    match m.factory {
        None => None,
        Some(f) => Some(
            if name.len() > MAX_NAME_LEN {
                (m, Err(ErrorCode::NameTooLong))
            } else if description.len() > MAX_DESCRIPTION_LEN {
                (m, Err(ErrorCode::DescriptionTooLong))
            } else if has_program(m.programs, caller, name) {
                (m, Err(ErrorCode::AlreadyExists))
            } else if f.program_count == u64::MAX {
                (m, Err(ErrorCode::CounterOverflow))
            } else {
                (
                    RegistryModel {
                        factory: Some(
                            Factory { program_count: (f.program_count + 1) as u64, ..f },
                        ),
                        programs: m.programs.push(
                            fresh_program(name, description, caller, now, bump),
                        ),
                    },
                    Ok(EntryAddressModel { owner: caller, name }),
                )
            },
        ),
    }
}

/// What `update_program` does, given that an entry lives at `addr` (`None`
/// stands for the environment refusing the call because none does). Only
/// the recorded owner may update, the new description must be within bound,
/// and on failure nothing changes; on success the entry's description is
/// replaced and every other field and entry is untouched.
pub open spec fn update_transition(
    m: RegistryModel,
    addr: EntryAddressModel,
    caller: Identity,
    description: Seq<char>,
) -> Option<(RegistryModel, Result<(), ErrorCode>)> {
    if !has_program(m.programs, addr.owner, addr.name) {
        None
    } else if caller != addr.owner {
        Some((m, Err(ErrorCode::Unauthorized)))
    } else if description.len() > MAX_DESCRIPTION_LEN {
        Some((m, Err(ErrorCode::DescriptionTooLong)))
    } else {
        Some(
            (
                RegistryModel {
                    programs: replace_program(
                        m.programs,
                        addr.owner,
                        addr.name,
                        updated_program(
                            lookup_program(m.programs, addr.owner, addr.name),
                            description,
                        ),
                    ),
                    ..m
                },
                Ok(()),
            ),
        )
    }
}

/// What `deploy_program` does, given that an entry lives at `addr` (`None`
/// stands for the environment refusing the call because none does). Only
/// the recorded owner may deploy, the payload must be within bound, and on
/// failure nothing changes; on success the entry's payload is replaced and
/// its deployment flag set — redeployment, even with an empty payload, is
/// permitted.
pub open spec fn deploy_transition(
    m: RegistryModel,
    addr: EntryAddressModel,
    caller: Identity,
    payload: Seq<u8>,
) -> Option<(RegistryModel, Result<(), ErrorCode>)> {
    if !has_program(m.programs, addr.owner, addr.name) {
        None
    } else if caller != addr.owner {
        Some((m, Err(ErrorCode::Unauthorized)))
    } else if payload.len() > MAX_PAYLOAD_LEN {
        Some((m, Err(ErrorCode::PayloadTooLarge)))
    } else {
        Some(
            (
                RegistryModel {
                    programs: replace_program(
                        m.programs,
                        addr.owner,
                        addr.name,
                        deployed_program(
                            lookup_program(m.programs, addr.owner, addr.name),
                            payload,
                        ),
                    ),
                    ..m
                },
                Ok(()),
            ),
        )
    }
}

/// The result of a creation, at the level of the model.
pub open spec fn address_result_view(r: Result<EntryAddress, ErrorCode>) -> Result<
    EntryAddressModel,
    ErrorCode,
> {
    match r {
        Ok(a) => Ok(a@),
        Err(e) => Err(e),
    }
}

/// A successful creation preserves well-formedness, keeps the factory in
/// place, and grows its counter by exactly one; a failed creation changes
/// nothing. In particular the counter never decreases.
pub proof fn lemma_create_transition_wf(
    m: RegistryModel,
    caller: Identity,
    name: Seq<char>,
    description: Seq<char>,
    now: i64,
    bump: u8,
)
    requires
        m.wf(),
        m.factory is Some,
    ensures
        create_transition(m, caller, name, description, now, bump) is Some,
        ({
            let (m1, r) = create_transition(m, caller, name, description, now, bump)->Some_0;
            &&& m1.wf()
            &&& m1.factory is Some
            &&& m1.factory->Some_0.program_count == m.factory->Some_0.program_count + (
            if r is Ok {
                1int
            } else {
                0int
            })
            &&& r is Err ==> m1 == m
        }),
{
    let (m1, r) = create_transition(m, caller, name, description, now, bump)->Some_0;
    if r is Ok {
        assert forall|i: int, j: int| 0 <= i < j < m1.programs.len() implies ((
        #[trigger] m1.programs[i]).authority != (#[trigger] m1.programs[j]).authority
            || m1.programs[i].name != m1.programs[j].name) by {
            if j == m.programs.len() {
                if m1.programs[i].authority == caller && m1.programs[i].name == name {
                    assert(matches_key(m.programs[i], caller, name));
                    assert(has_program(m.programs, caller, name));
                }
            }
        }
    }
}

/// Two entries at one address are the same entry.
pub proof fn lemma_match_unique(
    programs: Seq<ProgramModel>,
    owner: Identity,
    name: Seq<char>,
    i: int,
    j: int,
)
    requires
        distinct_keys(programs),
        0 <= i < programs.len(),
        0 <= j < programs.len(),
        matches_key(programs[i], owner, name),
        matches_key(programs[j], owner, name),
    ensures
        i == j,
{
}

/// An entry at position `i` with a given address is the one `lookup_program`
/// finds, and nothing else matches that address.
pub proof fn lemma_lookup_at(
    programs: Seq<ProgramModel>,
    owner: Identity,
    name: Seq<char>,
    i: int,
)
    requires
        distinct_keys(programs),
        0 <= i < programs.len(),
        matches_key(programs[i], owner, name),
    ensures
        has_program(programs, owner, name),
        match_index(programs, owner, name) == i,
        lookup_program(programs, owner, name) == programs[i],
        forall|j: int|
            0 <= j < programs.len() && j != i ==> !matches_key(#[trigger] programs[j], owner, name),
{
    assert(has_program(programs, owner, name));
    let k: int = match_index(programs, owner, name);
    assert(0 <= k < programs.len() && matches_key(programs[k], owner, name));
    lemma_match_unique(programs, owner, name, k, i);
    assert forall|j: int| 0 <= j < programs.len() && j != i implies !matches_key(
        #[trigger] programs[j],
        owner,
        name,
    ) by {
        if matches_key(programs[j], owner, name) {
            lemma_match_unique(programs, owner, name, j, i);
        }
    }
}

/// One namespace's records. Private fields protect the well-formedness
/// invariant: every operation requires and re-establishes `wf` of the view.
pub struct Registry {
    factory: Option<Factory>,
    programs: Vec<Program>,
}

impl View for Registry {
    type V = RegistryModel;

    closed spec fn view(&self) -> RegistryModel {
        RegistryModel {
            factory: self.factory,
            programs: self.programs@.map_values(|p: Program| p@),
        }
    }
}

impl Registry {
    /// A namespace in which nothing has been created yet.
    pub fn new() -> (r: Registry)
        ensures
            r@ == RegistryModel::empty(),
            r@.wf(),
    {
        let r = Registry { factory: None, programs: Vec::new() };
        proof {
            assert(r@.programs =~= Seq::<ProgramModel>::empty());
            assert(r@ =~= RegistryModel::empty());
        }
        r
    }

    /// Create the namespace's factory record, owned by `authority`, with its
    /// counter at zero. Fails with `AlreadyExists`, changing nothing, exactly
    /// when the factory was already created.
    pub fn initialize(&mut self, authority: Identity, bump: u8) -> (r: Result<(), ErrorCode>)
        requires
            old(self)@.wf(),
        ensures
            final(self)@.wf(),
            (final(self)@, r) == init_transition(old(self)@, authority, bump),
    {
        match self.factory {
            Some(_) => Err(ErrorCode::AlreadyExists),
            None => {
                self.factory = Some(Factory::new(authority, bump));
                proof {
                    assert(self@ =~= init_transition(old(self)@, authority, bump).0);
                }
                Ok(())
            },
        }
    }

    /// Locate the entry at the address derived from `(owner, name)`, if any.
    fn find_program_index(&self, owner: Identity, name: &String) -> (res: Option<usize>)
        ensures
            match res {
                Some(i) => i < self@.programs.len() && matches_key(
                    self@.programs[i as int],
                    owner,
                    name@,
                ),
                None => !has_program(self@.programs, owner, name@),
            },
    {
        let n: usize = self.programs.len();
        let mut i: usize = 0;
        while i < n
            invariant
                n == self@.programs.len(),
                i <= n,
                forall|k: int| 0 <= k < i ==> !matches_key(#[trigger] self@.programs[k], owner, name@),
            decreases n - i,
        {
            if self.programs[i].authority == owner && self.programs[i].name == *name {
                return Some(i);
            }
            i = i + 1;
        }
        None
    }

    /// Create the entry for `(caller, name)` through the factory. The name
    /// and description bounds are checked first; then the derived address
    /// must be free and the factory's counter below its maximum. On success
    /// the entry is allocated with `description`, an empty payload, a clear
    /// deployment flag and `now` as its creation time, the counter grows by
    /// one, and the entry's derived address is returned. Any failure leaves
    /// the registry unchanged. Any identity may create entries; `caller`
    /// need not own the factory.
    pub fn create_program(
        &mut self,
        caller: Identity,
        name: String,
        description: String,
        now: i64,
        bump: u8,
    ) -> (r: Result<EntryAddress, ErrorCode>)
        requires
            old(self)@.wf(),
            old(self)@.factory is Some,
        ensures
            final(self)@.wf(),
            Some((final(self)@, address_result_view(r))) == create_transition(
                old(self)@,
                caller,
                name@,
                description@,
                now,
                bump,
            ),
    {
        if name.as_str().unicode_len() > MAX_NAME_LEN {
            return Err(ErrorCode::NameTooLong);
        }
        if description.as_str().unicode_len() > MAX_DESCRIPTION_LEN {
            return Err(ErrorCode::DescriptionTooLong);
        }
        if self.find_program_index(caller, &name).is_some() {
            return Err(ErrorCode::AlreadyExists);
        }
        let mut f = self.factory.unwrap();
        match f.record_creation() {
            Err(e) => {
                return Err(e);
            },
            Ok(()) => {},
        }
        self.factory = Some(f);
        let addr = derive_entry_address(caller, &name);
        let entry = Program {
            name,
            description,
            authority: caller,
            payload: Vec::new(),
            deployed: false,
            created_at: now,
            bump,
        };
        self.programs.push(entry);
        proof {
            let m0 = old(self)@;
            lemma_create_transition_wf(m0, caller, addr@.name, description@, now, bump);
            let expected = create_transition(m0, caller, addr@.name, description@, now, bump)
                .unwrap().0;
            assert(self@.programs =~= expected.programs);
            assert(self@ =~= expected);
        }
        Ok(addr)
    }

    /// Replace the description of the entry at `addr`. Only the recorded
    /// owner may update, and the new description must be within bound; any
    /// failure leaves every record unchanged. On success the description is
    /// replaced in place and no other field or entry changes.
    pub fn update_program(
        &mut self,
        addr: &EntryAddress,
        caller: Identity,
        description: String,
    ) -> (r: Result<(), ErrorCode>)
        requires
            old(self)@.wf(),
            has_program(old(self)@.programs, addr.owner, addr.name@),
        ensures
            final(self)@.wf(),
            Some((final(self)@, r)) == update_transition(old(self)@, addr@, caller, description@),
    {
        let i: usize = match self.find_program_index(addr.owner, &addr.name) {
            Some(i) => i,
            // Unreachable: the precondition guarantees an entry at `addr`.
            None => {
                proof {
                    assert(false);
                }
                return Err(ErrorCode::Unauthorized);
            },
        };
        proof {
            lemma_lookup_at(self@.programs, addr.owner, addr.name@, i as int);
        }
        let entry = &mut self.programs[i];
        let r = entry.update(caller, description);
        proof {
            let m0 = old(self)@;
            let m1 = self@;
            assert(m0.programs[i as int].authority == addr.owner);
            if r is Ok {
                let expected = update_transition(m0, addr@, caller, description@).unwrap().0;
                assert(m1.programs =~= expected.programs);
                assert(m1 =~= expected);
                assert forall|a: int, b: int| 0 <= a < b < m1.programs.len() implies ((
                #[trigger] m1.programs[a]).authority != (#[trigger] m1.programs[b]).authority
                    || m1.programs[a].name != m1.programs[b].name) by {
                    assert(m0.programs[a].authority == m1.programs[a].authority
                        && m0.programs[a].name == m1.programs[a].name);
                    assert(m0.programs[b].authority == m1.programs[b].authority
                        && m0.programs[b].name == m1.programs[b].name);
                }
            } else {
                assert(m1.programs =~= m0.programs);
                assert(m1 =~= m0);
            }
        }
        r
    }

    /// Replace the payload of the entry at `addr` and mark it deployed.
    /// Only the recorded owner may deploy, and the payload must be within
    /// bound; any failure leaves every record unchanged. On success the
    /// payload is replaced and the deployment flag set, whether or not the
    /// entry was deployed before.
    pub fn deploy_program(&mut self, addr: &EntryAddress, caller: Identity, payload: Vec<u8>) -> (r:
        Result<(), ErrorCode>)
        requires
            old(self)@.wf(),
            has_program(old(self)@.programs, addr.owner, addr.name@),
        ensures
            final(self)@.wf(),
            Some((final(self)@, r)) == deploy_transition(old(self)@, addr@, caller, payload@),
    {
        let i: usize = match self.find_program_index(addr.owner, &addr.name) {
            Some(i) => i,
            // Unreachable: the precondition guarantees an entry at `addr`.
            None => {
                proof {
                    assert(false);
                }
                return Err(ErrorCode::Unauthorized);
            },
        };
        proof {
            lemma_lookup_at(self@.programs, addr.owner, addr.name@, i as int);
        }
        let entry = &mut self.programs[i];
        let r = entry.deploy(caller, payload);
        proof {
            let m0 = old(self)@;
            let m1 = self@;
            assert(m0.programs[i as int].authority == addr.owner);
            if r is Ok {
                let expected = deploy_transition(m0, addr@, caller, payload@).unwrap().0;
                assert(m1.programs =~= expected.programs);
                assert(m1 =~= expected);
                assert forall|a: int, b: int| 0 <= a < b < m1.programs.len() implies ((
                #[trigger] m1.programs[a]).authority != (#[trigger] m1.programs[b]).authority
                    || m1.programs[a].name != m1.programs[b].name) by {
                    assert(m0.programs[a].authority == m1.programs[a].authority
                        && m0.programs[a].name == m1.programs[a].name);
                    assert(m0.programs[b].authority == m1.programs[b].authority
                        && m0.programs[b].name == m1.programs[b].name);
                }
            } else {
                assert(m1.programs =~= m0.programs);
                assert(m1 =~= m0);
            }
        }
        r
    }

    /// Whether the namespace's factory has been created.
    pub fn is_initialized(&self) -> (b: bool)
        ensures
            b == (self@.factory is Some),
    {
        self.factory.is_some()
    }

    /// The factory record, if it has been created.
    pub fn factory_state(&self) -> (f: Option<Factory>)
        ensures
            f == self@.factory,
    {
        self.factory
    }

    /// Whether an entry lives at `addr`.
    pub fn has_program_entry(&self, addr: &EntryAddress) -> (b: bool)
        ensures
            b == has_program(self@.programs, addr.owner, addr.name@),
    {
        self.find_program_index(addr.owner, &addr.name).is_some()
    }

    /// The entry at `addr`, if any.
    pub fn get_program(&self, addr: &EntryAddress) -> (p: Option<&Program>)
        requires
            self@.wf(),
        ensures
            match p {
                Some(prog) => has_program(self@.programs, addr.owner, addr.name@) && prog@
                    == lookup_program(self@.programs, addr.owner, addr.name@),
                None => !has_program(self@.programs, addr.owner, addr.name@),
            },
    {
        match self.find_program_index(addr.owner, &addr.name) {
            Some(i) => {
                proof {
                    lemma_lookup_at(self@.programs, addr.owner, addr.name@, i as int);
                }
                Some(&self.programs[i])
            },
            None => None,
        }
    }
}

} // verus!
