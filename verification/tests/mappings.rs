use homelab_aws_creds::error::Error;
use homelab_aws_creds::mappings::{Mapping, Mappings, ServiceRoleMapping};

fn line(sa: &str, ns: &str, role: &str) -> ServiceRoleMapping {
    ServiceRoleMapping {
        service_account: sa.to_string(),
        namespace: ns.to_string(),
        aws_role: role.to_string(),
    }
}

fn table(lines: Vec<ServiceRoleMapping>) -> Mappings {
    Mappings { mappings: lines }
}

#[test]
fn lookup_is_first_match() {
    let m = table(vec![line("a", "x", "R1"), line("a", "x", "R2")]);
    assert_eq!(m.get_role("x", "a"), Some("R1".to_string()));
}

#[test]
fn lookup_is_case_sensitive() {
    let m = table(vec![line("a", "x", "R1")]);
    assert_eq!(m.get_role("X", "a"), None);
    assert_eq!(m.get_role("x", "A"), None);
    assert_eq!(m.get_role("x", "a"), Some("R1".to_string()));
}

#[test]
fn lookup_needs_both_parts_to_match() {
    let m = table(vec![line("a", "x", "R1"), line("b", "y", "R2"), line("a", "y", "R3")]);
    assert_eq!(m.get_role("y", "a"), Some("R3".to_string()));
    assert_eq!(m.get_role("y", "b"), Some("R2".to_string()));
    assert_eq!(m.get_role("x", "b"), None);
    // Namespace and service account are not interchangeable.
    assert_eq!(m.get_role("a", "x"), None);
    assert_eq!(table(vec![]).get_role("x", "a"), None);
}

#[test]
fn store_starts_from_the_first_load_or_not_at_all() {
    let store = Mapping::try_new(Ok(table(vec![line("a", "x", "R1")]))).unwrap();
    assert_eq!(store.get_role("x", "a"), Some("R1".to_string()));
    let failed = Mapping::try_new(Err(Error::IoError("no such file".to_string())));
    assert_eq!(failed.err(), Some(Error::IoError("no such file".to_string())));
}

#[test]
fn reload_with_unchanged_content_keeps_every_lookup() {
    let content = vec![line("a", "x", "R1"), line("b", "y", "R2"), line("a", "x", "R9")];
    let mut store = Mapping::try_new(Ok(table(content.clone()))).unwrap();
    let probes = [("x", "a"), ("y", "b"), ("x", "b"), ("", ""), ("y", "a")];
    let before: Vec<Option<String>> = probes.iter().map(|(ns, sa)| store.get_role(ns, sa)).collect();
    assert_eq!(store.reload(Ok(table(content))), None);
    let after: Vec<Option<String>> = probes.iter().map(|(ns, sa)| store.get_role(ns, sa)).collect();
    assert_eq!(before, after);
}

#[test]
fn reload_replaces_the_table_whole() {
    let mut store = Mapping::try_new(Ok(table(vec![line("a", "x", "R1"), line("b", "y", "R2")]))).unwrap();
    let old = store.snapshot();
    assert_eq!(store.reload(Ok(table(vec![line("a", "x", "R7")]))), None);
    assert_eq!(store.get_role("x", "a"), Some("R7".to_string()));
    assert_eq!(store.get_role("y", "b"), None);
    // A reader that took the old snapshot still sees all of it.
    assert_eq!(old.get_role("x", "a"), Some("R1".to_string()));
    assert_eq!(old.get_role("y", "b"), Some("R2".to_string()));
}

#[test]
fn failed_reload_keeps_the_old_table() {
    let mut store = Mapping::try_new(Ok(table(vec![line("a", "x", "R1")]))).unwrap();
    let failure = store.reload(Err(Error::SerDeError("bad yaml".to_string())));
    assert_eq!(failure, Some(Error::SerDeError("bad yaml".to_string())));
    assert_eq!(store.get_role("x", "a"), Some("R1".to_string()));
}
