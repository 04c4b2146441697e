use legba::creds::Credentials;
use legba::plugin::{AttemptEvent, PayloadStrategy, Plugin};
use legba::session::Error;
use legba::vnc::VNC;
use legba::Options;

fn ready_plugin(target: &str) -> VNC {
    let mut plugin = VNC::new();
    let opts = Options { target: Some(target.to_string()) };
    plugin.setup(&opts).unwrap();
    plugin
}

#[test]
fn setup_normalizes_bare_host_with_default_port() {
    let plugin = ready_plugin("10.0.0.1");
    assert_eq!(plugin.host, "10.0.0.1");
    assert_eq!(plugin.port, 5900);
    assert_eq!(plugin.address, "10.0.0.1:5900");
}

#[test]
fn setup_normalizes_explicit_port() {
    let plugin = ready_plugin("vnc.example:5901");
    assert_eq!(plugin.host, "vnc.example");
    assert_eq!(plugin.port, 5901);
    assert_eq!(plugin.address, "vnc.example:5901");
}

#[test]
fn setup_normalizes_extreme_ports() {
    let plugin = ready_plugin("h:0");
    assert_eq!(plugin.address, "h:0");
    let plugin = ready_plugin("h:65535");
    assert_eq!(plugin.address, "h:65535");
}

#[test]
fn setup_rejects_malformed_target_with_configuration_error() {
    let mut plugin = VNC::new();
    let opts = Options { target: Some(String::new()) };
    assert!(matches!(plugin.setup(&opts), Err(Error::Configuration(_))));
    let mut plugin = VNC::new();
    let opts = Options { target: Some("host:bad".to_string()) };
    assert!(matches!(plugin.setup(&opts), Err(Error::Configuration(_))));
    let mut plugin = VNC::new();
    let opts = Options { target: None };
    assert!(matches!(plugin.setup(&opts), Err(Error::Configuration(_))));
}

#[test]
fn attempt_reports_unreachable_target_as_connection_or_timeout_error() {
    let plugin = ready_plugin("127.0.0.1:1");
    let creds = Credentials::new("admin".to_string(), "secret".to_string());
    let refused = plugin.attempt(
        &creds,
        AttemptEvent::ConnectFailed("connection refused".to_string()),
    );
    match refused {
        Err(Error::Connection(cause)) => assert_eq!(cause, "connection refused"),
        other => panic!("expected a connection error, got {:?}", other),
    }
    let timed_out = plugin.attempt(&creds, AttemptEvent::ConnectTimedOut);
    assert_eq!(timed_out, Err(Error::Timeout));
}

#[test]
fn attempt_with_correct_credential_returns_exactly_the_documented_loot() {
    let plugin = ready_plugin("127.0.0.1");
    let creds = Credentials::new("admin".to_string(), "hunter2".to_string());
    let loot = plugin
        .attempt(&creds, AttemptEvent::AuthSucceeded)
        .unwrap()
        .unwrap();
    assert_eq!(loot.len(), 2);
    assert_eq!(loot.get(&"username".to_string()), Some(&"admin".to_string()));
    assert_eq!(loot.get(&"password".to_string()), Some(&"hunter2".to_string()));
    assert_eq!(loot.get(&"token".to_string()), None);
}

#[test]
fn attempt_with_rejected_credential_returns_none_not_an_error() {
    let plugin = ready_plugin("127.0.0.1");
    let creds = Credentials::new("admin".to_string(), "wrong".to_string());
    let outcome = plugin.attempt(&creds, AttemptEvent::AuthRejected);
    assert_eq!(outcome, Ok(None));
}

#[test]
fn attempt_reports_handshake_failures_as_typed_retryable_errors() {
    let plugin = ready_plugin("127.0.0.1");
    let creds = Credentials::new("a".to_string(), "b".to_string());
    let protocol = plugin.attempt(
        &creds,
        AttemptEvent::HandshakeFailed("unsupported security type".to_string()),
    );
    match protocol {
        Err(Error::Protocol(cause)) => {
            assert_eq!(cause, "unsupported security type");
            assert!(Error::Protocol(cause).retryable());
        }
        other => panic!("expected a protocol error, got {:?}", other),
    }
    let timed_out = plugin.attempt(&creds, AttemptEvent::HandshakeTimedOut);
    assert_eq!(timed_out, Err(Error::Timeout));
    assert!(Error::Timeout.retryable());
    assert!(!Error::Configuration("bad target".to_string()).retryable());
}

#[test]
fn concurrent_style_attempts_keep_results_per_credential() {
    let plugin = ready_plugin("127.0.0.1");
    let creds_a = Credentials::new("alice".to_string(), "pa".to_string());
    let creds_b = Credentials::new("bob".to_string(), "pb".to_string());
    let loot_a = plugin
        .attempt(&creds_a, AttemptEvent::AuthSucceeded)
        .unwrap()
        .unwrap();
    let loot_b = plugin
        .attempt(&creds_b, AttemptEvent::AuthSucceeded)
        .unwrap()
        .unwrap();
    assert_eq!(loot_a.get(&"username".to_string()), Some(&"alice".to_string()));
    assert_eq!(loot_a.get(&"password".to_string()), Some(&"pa".to_string()));
    assert_eq!(loot_b.get(&"username".to_string()), Some(&"bob".to_string()));
    assert_eq!(loot_b.get(&"password".to_string()), Some(&"pb".to_string()));
}

#[test]
fn description_and_payload_strategy_are_idempotent() {
    let plugin = VNC::new();
    let first = plugin.description();
    let second = plugin.description();
    assert_eq!(first, second);
    assert_eq!(first, "VNC password authentication.");
    assert_eq!(plugin.payload_strategy(), PayloadStrategy::Single);
    assert_eq!(plugin.payload_strategy(), PayloadStrategy::Single);
    assert!(plugin.single_credential());
    assert!(plugin.override_payload().is_none());
}

#[test]
fn single_credential_slot_is_the_password() {
    let creds = Credentials::new("user".to_string(), "secret".to_string());
    assert_eq!(creds.single(), "secret");
}
