//! The credential model: one candidate secret or secret pair to try, and the
//! opaque expression type a plugin may hand back to override how the
//! orchestrator formats candidates for it.
use vstd::prelude::*;

verus! {

/// One candidate credential. For plugins with a `Single` payload strategy only
/// one slot is semantically meaningful: by contract it is the password slot,
/// which [`Credentials::single`] returns. Immutable once constructed; the
/// orchestrator owns it and passes it by read-only reference for the duration
/// of one `attempt` call.
pub struct Credentials {
    pub username: String,
    pub password: String,
}

impl Credentials {
    pub fn new(username: String, password: String) -> (c: Credentials)
        ensures
            c.username == username,
            c.password == password,
    {
        Credentials { username, password }
    }

    /// The one meaningful slot for single-payload plugins: the password slot.
    pub fn single(&self) -> (r: &str)
        ensures
            r@ == self.password@,
    {
        self.password.as_str()
    }
}

/// An opaque, orchestrator-interpreted template describing how to combine or
/// format candidate credential fields. Its grammar is owned by the
/// credential-generation collaborator, not by this crate; plugins only hand a
/// value of it back from `override_payload`.
pub struct Expression {
    pub source: String,
}

impl Expression {
    pub fn new(source: String) -> (e: Expression)
        ensures
            e.source == source,
    {
        Expression { source }
    }
}

} // verus!
