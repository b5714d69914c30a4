//! Laws that relate several operations: what a whole history of calls does
//! to the registry, not just one call. Each is proved from the transition
//! functions alone.

use vstd::prelude::*;

use crate::errors::ErrorCode;
use crate::identity::Identity;
use crate::limits::MAX_DESCRIPTION_LEN;
use crate::registry::{
    create_transition, has_program, lemma_create_transition_wf, matches_key, EntryAddressModel,
    RegistryModel,
};

verus! {

/// For every valid pair, creating twice with the same owner and name fails
/// the second time with `AlreadyExists` and leaves the registry — the first
/// entry included — exactly as the first creation left it, whatever
/// description, time, or salt the second attempt carries.
pub proof fn law_duplicate_creation_rejected(
    m: RegistryModel,
    caller: Identity,
    name: Seq<char>,
    description: Seq<char>,
    now: i64,
    bump: u8,
    description2: Seq<char>,
    now2: i64,
    bump2: u8,
)
    requires
        m.wf(),
        m.factory is Some,
        create_transition(m, caller, name, description, now, bump)->Some_0.1 is Ok,
        description2.len() <= MAX_DESCRIPTION_LEN,
    ensures
        ({
            let m1 = create_transition(m, caller, name, description, now, bump)->Some_0.0;
            create_transition(m1, caller, name, description2, now2, bump2) == Some(
                (m1, Err::<EntryAddressModel, ErrorCode>(ErrorCode::AlreadyExists)),
            )
        }),
{
    let m1 = create_transition(m, caller, name, description, now, bump)->Some_0.0;
    let fresh_at: int = m.programs.len() as int;
    assert(matches_key(m1.programs[fresh_at], caller, name));
    assert(has_program(m1.programs, caller, name));
}

/// One requested creation: the arguments a caller would hand to
/// `create_program`, with the time and salt the environment supplies.
pub ghost struct CreateRequest {
    pub caller: Identity,
    pub name: Seq<char>,
    pub description: Seq<char>,
    pub now: i64,
    pub bump: u8,
}

/// Play a sequence of creation requests against the registry, in order,
/// and count how many succeed. A request the environment refuses outright
/// (no factory) changes nothing.
pub open spec fn run_creates(m: RegistryModel, reqs: Seq<CreateRequest>) -> (RegistryModel, nat)
    decreases reqs.len(),
{
    if reqs.len() == 0 {
        (m, 0nat)
    } else {
        let q = reqs[0];
        match create_transition(m, q.caller, q.name, q.description, q.now, q.bump) {
            None => run_creates(m, reqs.drop_first()),
            Some((m1, r)) => {
                let rest = run_creates(m1, reqs.drop_first());
                (
                    rest.0,
                    (rest.1 + if r is Ok {
                        1nat
                    } else {
                        0nat
                    }) as nat,
                )
            },
        }
    }
}

/// After any sequence of creation requests, by any owners and names, the
/// factory's counter has grown by exactly the number of requests that
/// succeeded: a factory initialized with a zero counter therefore reads N
/// after N successful creations, and failed requests never move it.
pub proof fn law_counter_counts_creations(m: RegistryModel, reqs: Seq<CreateRequest>)
    requires
        m.wf(),
        m.factory is Some,
    ensures
        ({
            let (mf, successes) = run_creates(m, reqs);
            &&& mf.wf()
            &&& mf.factory is Some
            &&& mf.factory->Some_0.program_count == m.factory->Some_0.program_count + successes
        }),
    decreases reqs.len(),
{
    if reqs.len() == 0 {
    } else {
        let q = reqs[0];
        lemma_create_transition_wf(m, q.caller, q.name, q.description, q.now, q.bump);
        let (m1, r) = create_transition(m, q.caller, q.name, q.description, q.now, q.bump)
            ->Some_0;
        law_counter_counts_creations(m1, reqs.drop_first());
    }
}

} // verus!
