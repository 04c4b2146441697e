//! The plugin registry: a process-wide, write-once-per-key, read-many mapping
//! from protocol name to plugin instance.
//!
//! Population happens during an explicit initialization step, before any
//! lookup; afterwards the registry is read-only, so lookups share it safely.
//! Registering a name twice is a caller error, excluded by `register`'s
//! precondition rather than resolved silently.
use vstd::prelude::*;
use vstd::string::*;

use crate::creds::{Credentials, Expression};
use crate::plugin::{attempt_contract, AttemptEvent, PayloadStrategy, Plugin};
use crate::session::{Error, Loot};
use crate::vnc::{VNC, VNC_DEFAULT_PORT};
use crate::Options;

verus! {

/// A registered plugin instance. The registry stores plugins behind this
/// ownership-erasing handle: a closed set of variants, one per protocol
/// probe, each conforming to the plugin contract.
pub enum PluginHandle {
    Vnc(VNC),
}

impl Plugin for PluginHandle {
    open spec fn ready(&self) -> bool {
        match self {
            PluginHandle::Vnc(v) => v.ready(),
        }
    }

    open spec fn description_spec(&self) -> Seq<char> {
        match self {
            PluginHandle::Vnc(v) => v.description_spec(),
        }
    }

    open spec fn strategy_spec(&self) -> PayloadStrategy {
        match self {
            PluginHandle::Vnc(v) => v.strategy_spec(),
        }
    }

    open spec fn override_spec(&self) -> Option<Expression> {
        match self {
            PluginHandle::Vnc(v) => v.override_spec(),
        }
    }

    open spec fn setup_ok(&self, options: &Options) -> bool {
        match self {
            PluginHandle::Vnc(v) => v.setup_ok(options),
        }
    }

    open spec fn setup_post(&self, options: &Options, new: &PluginHandle) -> bool {
        match (self, new) {
            (PluginHandle::Vnc(v), PluginHandle::Vnc(n)) => v.setup_post(options, n),
        }
    }

    open spec fn loot_fields(&self, creds: Credentials) -> Seq<(Seq<char>, Seq<char>)> {
        match self {
            PluginHandle::Vnc(v) => v.loot_fields(creds),
        }
    }

    fn description(&self) -> (r: &'static str) {
        match self {
            PluginHandle::Vnc(v) => v.description(),
        }
    }

    fn payload_strategy(&self) -> (r: PayloadStrategy) {
        match self {
            PluginHandle::Vnc(v) => v.payload_strategy(),
        }
    }

    fn override_payload(&self) -> (r: Option<Expression>) {
        match self {
            PluginHandle::Vnc(v) => v.override_payload(),
        }
    }

    fn setup(&mut self, options: &Options) -> (r: Result<(), Error>) {
        match self {
            PluginHandle::Vnc(v) => v.setup(options),
        }
    }

    fn attempt(&self, creds: &Credentials, event: AttemptEvent) -> (r: Result<
        Option<Loot>,
        Error,
    >) {
        match self {
            PluginHandle::Vnc(v) => v.attempt(creds, event),
        }
    }
}

/// The mapping a list of registry entries denotes: later entries would win,
/// but the registry never holds two entries with one name.
pub open spec fn entries_map(s: Seq<(String, PluginHandle)>) -> Map<Seq<char>, PluginHandle>
    decreases s.len(),
{
    if s.len() == 0 {
        Map::empty()
    } else {
        entries_map(s.drop_last()).insert(s.last().0@, s.last().1)
    }
}

/// A name is in the denoted mapping exactly when some entry carries it.
pub proof fn lemma_entries_map_contains(s: Seq<(String, PluginHandle)>, k: Seq<char>)
    ensures
        entries_map(s).contains_key(k) <==> exists|i: int| 0 <= i < s.len() && s[i].0@ == k,
    decreases s.len(),
{
    if s.len() > 0 {
        lemma_entries_map_contains(s.drop_last(), k);
        if s.last().0@ == k {
            assert(s[s.len() - 1].0@ == k);
        } else if entries_map(s).contains_key(k) {
            let i = choose|i: int| 0 <= i < s.len() - 1 && s.drop_last()[i].0@ == k;
            assert(s[i].0@ == k);
        } else {
            assert(forall|i: int|
                0 <= i < s.len() - 1 && s[i].0@ == k ==> s.drop_last()[i].0@ == k);
        }
    }
}

/// An entry whose name no later entry repeats is what the denoted mapping
/// holds under that name.
pub proof fn lemma_entries_map_get(s: Seq<(String, PluginHandle)>, i: int)
    requires
        0 <= i < s.len(),
        forall|j: int| i < j < s.len() ==> s[j].0@ != s[i].0@,
    ensures
        entries_map(s).contains_key(s[i].0@),
        entries_map(s)[s[i].0@] == s[i].1,
    decreases s.len(),
{
    if i == s.len() - 1 {
    } else {
        assert(s.last().0@ != s[i].0@);
        assert(forall|j: int|
            i < j < s.len() - 1 ==> s.drop_last()[j].0@ != s.drop_last()[i].0@);
        lemma_entries_map_get(s.drop_last(), i);
    }
}

/// The registry. Keys are exact protocol names; each key is registered at
/// most once.
pub struct Registry {
    entries: Vec<(String, PluginHandle)>,
}

impl View for Registry {
    type V = Map<Seq<char>, PluginHandle>;

    closed spec fn view(&self) -> Map<Seq<char>, PluginHandle> {
        entries_map(self.entries@)
    }
}

impl Registry {
    #[verifier::type_invariant]
    spec fn wf(self) -> bool {
        forall|i: int, j: int|
            0 <= i < j < self.entries@.len() ==> self.entries@[i].0@ != self.entries@[j].0@
    }

    /// An empty registry.
    pub fn new() -> (r: Registry)
        ensures
            r@ == Map::<Seq<char>, PluginHandle>::empty(),
    {
        Registry { entries: Vec::new() }
    }

    /// Inserts `plugin` under `name`. Registration is write-once per name:
    /// registering an already-registered name is a caller error, excluded by
    /// the precondition.
    pub fn register(&mut self, name: &str, plugin: PluginHandle)
        requires
            !old(self)@.contains_key(name@),
        ensures
            final(self)@ == old(self)@.insert(name@, plugin),
    {
        proof {
            use_type_invariant(&*self);
            lemma_entries_map_contains(self.entries@, name@);
        }
        let ghost s0 = self.entries@;
        let key = name.to_owned();
        let mut entries: Vec<(String, PluginHandle)> = Vec::new();
        std::mem::swap(&mut entries, &mut self.entries);
        entries.push((key, plugin));
        proof {
            assert(entries@.drop_last() =~= s0);
            assert(forall|i: int| 0 <= i < s0.len() ==> s0[i].0@ != name@);
        }
        self.entries = entries;
    }

    /// Returns the plugin registered under `name`, or `None` when the name is
    /// unknown — a normal, recoverable condition.
    pub fn lookup(&self, name: &str) -> (r: Option<&PluginHandle>)
        ensures
            r matches Some(p) ==> self@.contains_key(name@) && *p == self@[name@],
            r is None ==> !self@.contains_key(name@),
    {
        proof {
            use_type_invariant(&*self);
        }
        let key = name.to_owned();
        let n = self.entries.len();
        let mut i: usize = 0;
        while i < n
            invariant
                self.wf(),
                key@ == name@,
                n == self.entries@.len(),
                0 <= i <= n,
                forall|k: int| 0 <= k < i ==> self.entries@[k].0@ != name@,
            decreases n - i,
        {
            if self.entries[i].0 == key {
                proof {
                    lemma_entries_map_get(self.entries@, i as int);
                }
                return Some(&self.entries[i].1);
            }
            i += 1;
        }
        proof {
            lemma_entries_map_contains(self.entries@, name@);
        }
        None
    }
}

/// The explicit initialization step that populates a registry with every
/// known plugin, in a defined order, replacing any reliance on load-time
/// side effects. Today the one known plugin is the VNC probe, under the
/// protocol name "vnc".
pub fn default_registry() -> (r: Registry)
    ensures
        forall|k: Seq<char>| r@.contains_key(k) <==> k == "vnc"@,
        r@["vnc"@] matches PluginHandle::Vnc(v) && !v.ready() && v.port == VNC_DEFAULT_PORT,
{
    let mut registry = Registry::new();
    registry.register("vnc", PluginHandle::Vnc(VNC::new()));
    registry
}

} // verus!
