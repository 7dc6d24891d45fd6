use nyx::connectors::{ConnectorError, ConnectorRegistry};
use std::collections::HashSet;

#[test]
fn catalog_contains_core_connectors() {
    let registry = ConnectorRegistry::new();
    let names: HashSet<_> = registry.descriptors().into_iter().map(|item| item.server).collect();
    assert!(names.contains("github"));
    assert!(names.contains("gmail"));
    assert!(names.contains("supabase"));
    assert!(names.contains("vercel"));
}

#[test]
fn only_catalogued_servers_are_invoked() {
    let registry = ConnectorRegistry::new();
    assert_eq!(registry.descriptors().len(), 17);
    assert!(registry.descriptors().iter().all(|d| d.enabled));
    assert!(registry.is_allowed("google-calendar"));
    assert!(!registry.is_allowed("evil"));
    match registry.check_server("evil") {
        Err(e @ ConnectorError::NotAllowed(_)) => assert_eq!(e.message(), "connector is not allowed: evil"),
        other => panic!("unexpected {:?}", other),
    }
    assert_eq!(
        ConnectorRegistry::command_args("list", "github", "{}"),
        vec!["tool", "call", "list", "--server", "github", "--input", "{}"]
    );
}
