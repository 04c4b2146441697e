use legba::manager::{default_registry, PluginHandle, Registry};
use legba::plugin::{PayloadStrategy, Plugin};
use legba::vnc::VNC;

#[test]
fn lookup_returns_the_registered_plugin() {
    let mut registry = Registry::new();
    registry.register("vnc", PluginHandle::Vnc(VNC::new()));
    let handle = registry.lookup("vnc").expect("registered name must be found");
    assert_eq!(handle.description(), "VNC password authentication.");
    assert_eq!(handle.payload_strategy(), PayloadStrategy::Single);
}

#[test]
fn lookup_of_unregistered_name_returns_none() {
    let mut registry = Registry::new();
    registry.register("vnc", PluginHandle::Vnc(VNC::new()));
    assert!(registry.lookup("ssh").is_none());
    assert!(registry.lookup("").is_none());
    let empty = Registry::new();
    assert!(empty.lookup("vnc").is_none());
}

#[test]
fn registry_distinguishes_names_exactly() {
    let mut registry = Registry::new();
    registry.register("vnc", PluginHandle::Vnc(VNC::new()));
    assert!(registry.lookup("VNC").is_none());
    assert!(registry.lookup("vnc ").is_none());
    assert!(registry.lookup("vnc").is_some());
}

#[test]
fn default_registry_knows_the_vnc_plugin() {
    let registry = default_registry();
    let handle = registry.lookup("vnc").expect("the vnc plugin is built in");
    assert_eq!(handle.description(), "VNC password authentication.");
    assert!(registry.lookup("http").is_none());
}
