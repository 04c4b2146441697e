//! The plugin contract: the uniform surface every protocol probe implements,
//! and the execution-lifecycle rules the orchestrator can rely on.
//!
//! Lifecycle per instance: uninitialized, then one `setup` call with the
//! target configuration; only after a successful `setup` may `attempt` be
//! called, any number of times, concurrently. A failed `setup` is terminal for
//! the instance.
use vstd::prelude::*;

use crate::creds::{Credentials, Expression};
use crate::session::{Error, Loot};
use crate::Options;

verus! {

/// What type of payload a plugin consumes. Determines how the orchestrator's
/// credential generator shapes the candidates fed to the plugin. The
/// conventional choice is `UsernamePassword`; single-secret protocols use
/// `Single`.
#[derive(Debug, Clone, Copy, PartialEq, Eq, Structural)]
pub enum PayloadStrategy {
    /// One secret value, e.g. password-only authentication.
    Single,
    /// A username and a password, both meaningful.
    UsernamePassword,
}

/// The terminal observation of one probe's network exchange. The I/O layer
/// that drives the wire protocol reports what it saw as one of these; the
/// plugin's `attempt` turns the observation into the outcome the orchestrator
/// receives. Timeouts are the caller's deadline expiring during connection
/// establishment or during the protocol exchange; `ConnectFailed` and
/// `HandshakeFailed` carry the underlying cause.
#[derive(Debug, Clone, PartialEq, Eq)]
pub enum AttemptEvent {
    /// The deadline elapsed before the transport was established.
    ConnectTimedOut,
    /// The transport could not be established (refused, unreachable).
    ConnectFailed(String),
    /// The deadline elapsed during the protocol exchange.
    HandshakeTimedOut,
    /// The protocol exchange failed for a reason other than credential
    /// rejection.
    HandshakeFailed(String),
    /// The protocol acknowledged the credential: authentication succeeded.
    AuthSucceeded,
    /// The protocol exchange completed and the credential was rejected.
    AuthRejected,
}

/// The outcome `attempt` owes for each observation: loot exactly on a
/// protocol-confirmed authentication, `None` exactly on a rejected credential,
/// and a typed, retryable error for each kind of infrastructure failure. No
/// observation ever maps a credential rejection to an error or an error to
/// loot.
pub open spec fn attempt_contract(
    loot_fields: Seq<(Seq<char>, Seq<char>)>,
    event: AttemptEvent,
    r: Result<Option<Loot>, Error>,
) -> bool {
    &&& (r matches Ok(Some(l)) ==> event is AuthSucceeded)
    &&& (event is AuthSucceeded ==> (r matches Ok(Some(l)) && l@ == loot_fields))
    &&& (event is AuthRejected ==> r matches Ok(None))
    &&& (event is ConnectTimedOut ==> r == Result::<Option<Loot>, Error>::Err(Error::Timeout))
    &&& (event is HandshakeTimedOut ==> r == Result::<Option<Loot>, Error>::Err(Error::Timeout))
    &&& (event matches AttemptEvent::ConnectFailed(cause) ==> r == Result::<
        Option<Loot>,
        Error,
    >::Err(Error::Connection(cause)))
    &&& (event matches AttemptEvent::HandshakeFailed(cause) ==> r == Result::<
        Option<Loot>,
        Error,
    >::Err(Error::Protocol(cause)))
}

/// The uniform surface every protocol probe implements.
///
/// An instance starts unconfigured (`!self.ready()`). `setup` is called
/// exactly once, before any `attempt`; on success the instance is ready and
/// its derived target state is pinned by `setup_post`, on failure the
/// instance is left unchanged and must not be used further. After a
/// successful `setup` the instance is read-only, so concurrent `attempt`
/// calls share it safely.
pub trait Plugin: Send + Sync + Sized {
    /// Whether `setup` has succeeded on this instance.
    spec fn ready(&self) -> bool;

    /// The constant, human-readable summary `description` returns.
    spec fn description_spec(&self) -> Seq<char>;

    /// The constant payload strategy `payload_strategy` returns.
    spec fn strategy_spec(&self) -> PayloadStrategy;

    /// The constant override `override_payload` returns.
    spec fn override_spec(&self) -> Option<Expression>;

    /// Which caller-supplied configurations this plugin accepts.
    spec fn setup_ok(&self, options: &Options) -> bool;

    /// How a successful `setup` relates the new instance state to the
    /// accepted configuration.
    spec fn setup_post(&self, options: &Options, new: &Self) -> bool;

    /// The fields of the loot a confirmed authentication with `creds` yields:
    /// exactly the fields documented for this plugin's payload strategy.
    spec fn loot_fields(&self, creds: Credentials) -> Seq<(Seq<char>, Seq<char>)>;

    /// A static human-readable summary; constant for the instance's lifetime.
    fn description(&self) -> (r: &'static str)
        ensures
            r@ == self.description_spec(),
    ;

    /// The plugin's payload strategy; constant for the instance's lifetime.
    fn payload_strategy(&self) -> (r: PayloadStrategy)
        ensures
            r == self.strategy_spec(),
    ;

    /// An optional credential-formatting expression the plugin supplies in
    /// place of the orchestrator's default for its strategy.
    fn override_payload(&self) -> (r: Option<Expression>)
        ensures
            r == self.override_spec(),
    ;

    /// Validates and normalizes the caller-supplied configuration and
    /// persists the derived target state. Called exactly once per instance,
    /// before any `attempt`. Fails exactly on configurations the plugin does
    /// not accept, always with a configuration error, leaving the instance
    /// unchanged; that failure is terminal for the instance.
    fn setup(&mut self, options: &Options) -> (r: Result<(), Error>)
        requires
            !old(self).ready(),
        ensures
            r is Ok <==> old(self).setup_ok(options),
            r is Ok ==> old(self).setup_post(options, final(self)) && final(self).ready(),
            r matches Err(e) ==> *final(self) == *old(self) && e is Configuration,
    ;

    /// Turns the terminal observation of one authentication probe into the
    /// outcome the orchestrator receives, per `attempt_contract`: loot exactly
    /// on confirmed success, `None` exactly on a rejected credential, a typed
    /// error for every infrastructure failure. Takes the instance read-only,
    /// so concurrent attempts are independent.
    fn attempt(&self, creds: &Credentials, event: AttemptEvent) -> (r: Result<Option<Loot>, Error>)
        requires
            self.ready(),
        ensures
            attempt_contract(self.loot_fields(*creds), event, r),
    ;
}

} // verus!
