//! The contract-level laws of the engine, each proved from the public
//! contracts alone.
use vstd::prelude::*;

use crate::creds::Credentials;
use crate::manager::PluginHandle;
use crate::plugin::{attempt_contract, AttemptEvent, PayloadStrategy, Plugin};
use crate::session::{Error, Loot};

verus! {

/// Law: concurrent `attempt` calls on one plugin instance never
/// cross-contaminate. `attempt` borrows the instance read-only and its
/// contract pins each call's outcome over that call's own credential and
/// observation alone, so whatever a second call was given, any loot the first
/// returns carries exactly the first call's credential fields — and
/// symmetrically.
pub proof fn lemma_attempt_isolation<P: Plugin>(
    p: P,
    creds1: Credentials,
    event1: AttemptEvent,
    r1: Result<Option<Loot>, Error>,
    creds2: Credentials,
    event2: AttemptEvent,
    r2: Result<Option<Loot>, Error>,
)
    requires
        attempt_contract(p.loot_fields(creds1), event1, r1),
        attempt_contract(p.loot_fields(creds2), event2, r2),
    ensures
        r1 matches Ok(Some(l)) ==> l@ == p.loot_fields(creds1),
        r2 matches Ok(Some(l)) ==> l@ == p.loot_fields(creds2),
{
}

/// Law: registration then lookup. After registering `p` under `name`, looking
/// `name` up yields exactly `p`; any other name is untouched, and an
/// unregistered one stays "not found".
pub proof fn lemma_register_lookup(
    m: Map<Seq<char>, PluginHandle>,
    name: Seq<char>,
    p: PluginHandle,
    other: Seq<char>,
)
    requires
        other != name,
    ensures
        m.insert(name, p).contains_key(name),
        m.insert(name, p)[name] == p,
        m.insert(name, p).contains_key(other) <==> m.contains_key(other),
        m.contains_key(other) ==> m.insert(name, p)[other] == m[other],
{
}

/// Law: `description` is idempotent. Its contract pins the result to a spec
/// function of the instance alone, so any two results returned for one
/// instance are equal.
pub proof fn lemma_description_idempotent<P: Plugin>(p: P, r1: Seq<char>, r2: Seq<char>)
    requires
        r1 == p.description_spec(),
        r2 == p.description_spec(),
    ensures
        r1 == r2,
{
}

/// Law: `payload_strategy` is idempotent, for the same reason as
/// `description`.
pub proof fn lemma_payload_strategy_idempotent<P: Plugin>(
    p: P,
    r1: PayloadStrategy,
    r2: PayloadStrategy,
)
    requires
        r1 == p.strategy_spec(),
        r2 == p.strategy_spec(),
    ensures
        r1 == r2,
{
}

} // verus!
