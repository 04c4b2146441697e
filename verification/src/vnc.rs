//! The reference plugin: VNC password authentication.
//!
//! VNC authenticates with a password alone, so the plugin's payload strategy
//! is `Single` and the meaningful credential slot is the password. `setup`
//! parses the target as `host` or `host:port` with the protocol default port
//! and persists the normalized address; the wire protocol itself is driven by
//! an outside VNC client library, whose terminal observation `attempt` turns
//! into the contract's outcome.
use vstd::prelude::*;
use vstd::string::*;

use crate::creds::{Credentials, Expression};
use crate::plugin::{attempt_contract, AttemptEvent, PayloadStrategy, Plugin};
use crate::session::{pairs_view, Error, Loot};
use crate::utils::{format_address, formatted_address, host_part, parse_target, target_port,
    target_valid};
use crate::Options;

verus! {

/// The default VNC server port.
pub const VNC_DEFAULT_PORT: u16 = 5900;

/// The VNC password-authentication plugin. `host`, `port` and `address` are
/// populated by one successful `setup` call and read-only thereafter, so
/// concurrent `attempt` calls share the instance safely.
#[derive(Clone)]
pub struct VNC {
    pub host: String,
    pub port: u16,
    pub address: String,
}

impl VNC {
    /// An unconfigured instance: no host yet, the protocol default port.
    pub fn new() -> (p: VNC)
        ensures
            !p.ready(),
            p.host@ == Seq::<char>::empty(),
            p.address@ == Seq::<char>::empty(),
            p.port == VNC_DEFAULT_PORT,
    {
        VNC { host: String::new(), address: String::new(), port: VNC_DEFAULT_PORT }
    }

    /// This plugin consumes a single secret: by the credential contract, the
    /// password slot.
    pub fn single_credential(&self) -> (r: bool)
        ensures
            r == (self.strategy_spec() is Single),
    {
        true
    }
}

impl Plugin for VNC {
    /// Ready exactly when a successful `setup` has stored a host, which is
    /// never empty for an accepted target.
    open spec fn ready(&self) -> bool {
        self.host@.len() > 0
    }

    open spec fn description_spec(&self) -> Seq<char> {
        "VNC password authentication."@
    }

    open spec fn strategy_spec(&self) -> PayloadStrategy {
        PayloadStrategy::Single
    }

    open spec fn override_spec(&self) -> Option<Expression> {
        None
    }

    open spec fn setup_ok(&self, options: &Options) -> bool {
        options.target matches Some(t) && target_valid(t@)
    }

    open spec fn setup_post(&self, options: &Options, new: &VNC) -> bool {
        options.target matches Some(t) ==> {
            &&& new.host@ == host_part(t@)
            &&& new.port == target_port(t@, VNC_DEFAULT_PORT)
            &&& new.address@ == formatted_address(new.host@, new.port)
        }
    }

    open spec fn loot_fields(&self, creds: Credentials) -> Seq<(Seq<char>, Seq<char>)> {
        seq![("username"@, creds.username@), ("password"@, creds.password@)]
    }

    fn description(&self) -> (r: &'static str) {
        "VNC password authentication."
    }

    fn payload_strategy(&self) -> (r: PayloadStrategy) {
        PayloadStrategy::Single
    }

    fn override_payload(&self) -> (r: Option<Expression>) {
        None
    }

    fn setup(&mut self, options: &Options) -> (r: Result<(), Error>) {
        match parse_target(options.target.as_ref(), VNC_DEFAULT_PORT) {
            Ok((host, port)) => {
                let address = format_address(&host, port);
                self.host = host;
                self.port = port;
                self.address = address;
                Ok(())
            },
            Err(e) => Err(e),
        }
    }

    fn attempt(&self, creds: &Credentials, event: AttemptEvent) -> (r: Result<Option<Loot>, Error>) {
        match event {
            AttemptEvent::ConnectTimedOut => Err(Error::Timeout),
            AttemptEvent::ConnectFailed(cause) => Err(Error::Connection(cause)),
            AttemptEvent::HandshakeTimedOut => Err(Error::Timeout),
            AttemptEvent::HandshakeFailed(cause) => Err(Error::Protocol(cause)),
            AttemptEvent::AuthRejected => Ok(None),
            AttemptEvent::AuthSucceeded => {
                let mut fields: Vec<(String, String)> = Vec::new();
                fields.push((String::from_str("username"), creds.username.clone()));
                fields.push((String::from_str("password"), creds.password.clone()));
                let loot = Loot::new(fields);
                proof {
                    assert(loot@ =~= self.loot_fields(*creds));
                }
                Ok(Some(loot))
            },
        }
    }
}

} // verus!
