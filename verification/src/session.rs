//! Session-facing outcome types: the typed failure taxonomy an attempt can
//! report, and the loot captured by a successful authentication.
use vstd::prelude::*;

verus! {

/// The failure taxonomy surfaced to the orchestrator. `CredentialRejected` is
/// deliberately absent: a rejected credential is an expected outcome, reported
/// as a successful `attempt` returning no loot, never as an error.
///
/// - `Configuration`: `setup` received an unparsable or invalid target;
///   terminal for that plugin instance.
/// - `Connection`: the transport could not be established (refused,
///   unreachable); retryable at the orchestrator's discretion.
/// - `Timeout`: the attempt exceeded its allotted duration; retryable.
/// - `Protocol`: the transport connected but the handshake or authentication
///   exchange failed for a reason other than credential rejection.
#[derive(Debug, Clone, PartialEq, Eq)]
pub enum Error {
    Configuration(String),
    Connection(String),
    Timeout,
    Protocol(String),
}

impl Error {
    /// Whether the orchestrator may retry the attempt that reported this
    /// error: configuration errors are terminal, all others are per-attempt.
    pub fn retryable(&self) -> (r: bool)
        ensures
            r == !(self is Configuration),
    {
        !matches!(self, Error::Configuration(_))
    }
}

/// The view of a loot value: its field list in order, each field a name and a
/// value.
pub open spec fn pairs_view(fields: Seq<(String, String)>) -> Seq<(Seq<char>, Seq<char>)> {
    Seq::new(fields.len(), |i: int| (fields[i].0@, fields[i].1@))
}

/// The value of the first field named `name`, or `None` when no field carries
/// that name.
pub open spec fn field_lookup(fields: Seq<(Seq<char>, Seq<char>)>, name: Seq<char>) -> Option<
    Seq<char>,
>
    decreases fields.len(),
{
    if fields.len() == 0 {
        None
    } else if fields[0].0 == name {
        Some(fields[0].1)
    } else {
        field_lookup(fields.drop_first(), name)
    }
}

/// Captured evidence of a successful authentication: an ordered mapping from
/// field name to field value. Created only by a successful `attempt`;
/// ownership transfers to the orchestrator and the value is not mutated after
/// construction.
#[derive(Debug, PartialEq, Eq)]
pub struct Loot {
    fields: Vec<(String, String)>,
}

impl View for Loot {
    type V = Seq<(Seq<char>, Seq<char>)>;

    closed spec fn view(&self) -> Seq<(Seq<char>, Seq<char>)> {
        pairs_view(self.fields@)
    }
}

impl Loot {
    pub fn new(fields: Vec<(String, String)>) -> (l: Loot)
        ensures
            l@ == pairs_view(fields@),
    {
        Loot { fields }
    }

    pub fn len(&self) -> (n: usize)
        ensures
            n == self@.len(),
    {
        self.fields.len()
    }

    /// The value of the first field named `name`, if any.
    pub fn get(&self, name: &String) -> (r: Option<&String>)
        ensures
            r matches Some(v) ==> field_lookup(self@, name@) == Some(v@),
            r is None ==> field_lookup(self@, name@) is None,
    {
        let n = self.fields.len();
        let mut i: usize = 0;
        proof {
            assert(self@.skip(0) =~= self@);
        }
        while i < n
            invariant
                n == self.fields.len(),
                0 <= i <= n,
                field_lookup(self@, name@) == field_lookup(self@.skip(i as int), name@),
            decreases n - i,
        {
            if self.fields[i].0 == *name {
                proof {
                    assert(self@.skip(i as int)[0] == self@[i as int]);
                }
                return Some(&self.fields[i].1);
            }
            proof {
                assert(self@.skip(i as int).drop_first() =~= self@.skip(i as int + 1));
            }
            i += 1;
        }
        proof {
            assert(self@.skip(n as int) =~= Seq::<(Seq<char>, Seq<char>)>::empty());
        }
        None
    }
}

} // verus!
