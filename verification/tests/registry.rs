use gitrs_server::registry::Registry;

#[test]
fn register_lookup_deregister() {
    let mut reg: Registry<String> = Registry::new();
    assert_eq!(reg.len(), 0);
    reg.register(7, "handle".to_string());
    assert_eq!(reg.len(), 1);
    assert!(reg.contains(7));
    assert_eq!(reg.lookup(7), Some(&"handle".to_string()));
    assert_eq!(reg.lookup(8), None);
    reg.deregister(7);
    assert_eq!(reg.len(), 0);
    assert!(!reg.contains(7));
    assert_eq!(reg.lookup(7), None);
}

#[test]
fn register_replaces_a_stale_entry() {
    let mut reg: Registry<u32> = Registry::new();
    reg.register(1, 10);
    reg.register(1, 20);
    assert_eq!(reg.len(), 1);
    assert_eq!(reg.lookup(1), Some(&20));
}

#[test]
fn open_session_registers_a_fresh_identity() {
    let mut reg: Registry<&'static str> = Registry::new();
    let id = reg.open_session("first");
    assert!(reg.contains(id));
    assert_eq!(reg.lookup(id), Some(&"first"));
    reg.deregister(id);
    assert!(!reg.contains(id));
}
