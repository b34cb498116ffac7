use soldeer::config::{clone_dependencies, Dependency, Manifest};

fn dep(name: &str, version: &str, url: &str) -> Dependency {
    Dependency { name: name.to_string(), version: version.to_string(), url: url.to_string() }
}

#[test]
fn upsert_appends_new_keys_in_order() {
    let mut m = Manifest::new();
    m.upsert(dep("lib-a", "1.0.0", "https://example/a.zip"));
    m.upsert(dep("lib-b", "2.0.0", "https://example/b.zip"));
    let v = m.list_all();
    assert_eq!(v.len(), 2);
    assert_eq!(v[0].name, "lib-a");
    assert_eq!(v[1].name, "lib-b");
}

#[test]
fn upsert_twice_same_key_keeps_one_entry_with_latest_url() {
    let mut m = Manifest::new();
    m.upsert(dep("lib-a", "1.0.0", "https://example/old.zip"));
    m.upsert(dep("lib-a", "1.0.0", "https://example/new.zip"));
    let v = m.list_all();
    assert_eq!(v.len(), 1);
    assert_eq!(v[0].name, "lib-a");
    assert_eq!(v[0].version, "1.0.0");
    assert_eq!(v[0].url, "https://example/new.zip");
}

#[test]
fn upsert_replaces_in_place_keeping_position() {
    let mut m = Manifest::new();
    m.upsert(dep("lib-a", "1.0.0", "https://example/a.zip"));
    m.upsert(dep("lib-b", "2.0.0", "https://example/b.zip"));
    m.upsert(dep("lib-a", "1.0.0", "https://example/a2.zip"));
    let v = m.list_all();
    assert_eq!(v.len(), 2);
    assert_eq!(v[0].name, "lib-a");
    assert_eq!(v[0].url, "https://example/a2.zip");
    assert_eq!(v[1].name, "lib-b");
}

#[test]
fn same_name_different_version_are_distinct_keys() {
    let mut m = Manifest::new();
    m.upsert(dep("lib-a", "1.0.0", "https://example/a1.zip"));
    m.upsert(dep("lib-a", "2.0.0", "https://example/a2.zip"));
    assert_eq!(m.len(), 2);
}

#[test]
fn from_entries_normalizes_duplicate_keys() {
    let entries = vec![
        dep("lib-a", "1.0.0", "https://example/old.zip"),
        dep("lib-b", "2.0.0", "https://example/b.zip"),
        dep("lib-a", "1.0.0", "https://example/new.zip"),
    ];
    let m = Manifest::from_entries(entries);
    let v = m.list_all();
    assert_eq!(v.len(), 2);
    assert_eq!(v[0].name, "lib-a");
    assert_eq!(v[0].url, "https://example/new.zip");
    assert_eq!(v[1].name, "lib-b");
}

#[test]
fn empty_manifest_lists_nothing() {
    let m = Manifest::new();
    assert_eq!(m.len(), 0);
    assert!(m.list_all().is_empty());
}

#[test]
fn clone_dependencies_copies_every_field() {
    let v = vec![dep("lib-a", "1.0.0", "https://example/a.zip")];
    let c = clone_dependencies(&v);
    assert_eq!(c.len(), 1);
    assert_eq!(c[0].name, "lib-a");
    assert_eq!(c[0].version, "1.0.0");
    assert_eq!(c[0].url, "https://example/a.zip");
}
