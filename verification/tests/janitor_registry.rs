use soldeer::config::Dependency;
use soldeer::errors::InstallError;
use soldeer::janitor::{
    archive_file_name, cleanup_dependency, dependency_dir_name, healthcheck_dependencies,
    healthcheck_dependency, CleanupObservation, CleanupTask,
};
use soldeer::registry::resolve_dependency_url;

fn dep(name: &str, version: &str, url: &str) -> Dependency {
    Dependency { name: name.to_string(), version: version.to_string(), url: url.to_string() }
}

#[test]
fn resolves_url_of_known_key() {
    let listing = vec![
        dep("lib-b", "2.0.0", "https://example/lib-b-2.0.0.zip"),
        dep("lib-a", "1.0.0", "https://example/lib-a-1.0.0.zip"),
    ];
    let url =
        resolve_dependency_url(&listing, &"lib-a".to_string(), &"1.0.0".to_string()).unwrap();
    assert_eq!(url, "https://example/lib-a-1.0.0.zip");
}

#[test]
fn resolution_takes_first_matching_entry() {
    let listing = vec![
        dep("lib-a", "1.0.0", "https://example/first.zip"),
        dep("lib-a", "1.0.0", "https://example/second.zip"),
    ];
    let url =
        resolve_dependency_url(&listing, &"lib-a".to_string(), &"1.0.0".to_string()).unwrap();
    assert_eq!(url, "https://example/first.zip");
}

#[test]
fn unknown_key_is_not_found_in_registry() {
    let listing = vec![dep("lib-a", "1.0.0", "https://example/lib-a-1.0.0.zip")];
    let e = resolve_dependency_url(&listing, &"lib-a".to_string(), &"9.9.9".to_string())
        .unwrap_err();
    assert!(matches!(e, InstallError::NotFoundInRegistry));
}

#[test]
fn dir_and_archive_names_follow_the_key() {
    assert_eq!(dependency_dir_name("lib-a", "1.0.0"), "lib-a-1.0.0");
    assert_eq!(archive_file_name("lib-a", "1.0.0"), "lib-a-1.0.0.zip");
}

#[test]
fn healthcheck_accepts_populated_dir() {
    let dirs = vec!["lib-a-1.0.0".to_string(), "lib-b-2.0.0".to_string()];
    assert!(healthcheck_dependency("lib-a", "1.0.0", &dirs).is_ok());
}

#[test]
fn healthcheck_reports_missing_dir() {
    let dirs = vec!["lib-b-2.0.0".to_string()];
    let e = healthcheck_dependency("lib-a", "1.0.0", &dirs).unwrap_err();
    match e {
        InstallError::MissingDependency { name, version } => {
            assert_eq!(name, "lib-a");
            assert_eq!(version, "1.0.0");
        }
        _ => panic!("expected a missing dependency"),
    }
}

#[test]
fn healthcheck_batch_accepts_all_populated() {
    let deps = vec![
        dep("lib-a", "1.0.0", "https://example/a.zip"),
        dep("lib-b", "2.0.0", "https://example/b.zip"),
    ];
    let dirs = vec!["lib-b-2.0.0".to_string(), "lib-a-1.0.0".to_string()];
    assert!(healthcheck_dependencies(&deps, &dirs).is_ok());
}

#[test]
fn healthcheck_batch_names_first_missing() {
    let deps = vec![
        dep("lib-a", "1.0.0", "https://example/a.zip"),
        dep("lib-b", "2.0.0", "https://example/b.zip"),
        dep("lib-c", "3.0.0", "https://example/c.zip"),
    ];
    let dirs = vec!["lib-a-1.0.0".to_string()];
    let e = healthcheck_dependencies(&deps, &dirs).unwrap_err();
    match e {
        InstallError::MissingDependency { name, version } => {
            assert_eq!(name, "lib-b");
            assert_eq!(version, "2.0.0");
        }
        _ => panic!("expected a missing dependency"),
    }
}

#[test]
fn cleanup_plans_archive_removal_then_flatten() {
    let obs = CleanupObservation { archive_present: true, redundant_nesting: true };
    let tasks = cleanup_dependency("lib-a", "1.0.0", &obs);
    assert_eq!(tasks.len(), 2);
    match &tasks[0] {
        CleanupTask::RemoveArchiveFile { file } => assert_eq!(file, "lib-a-1.0.0.zip"),
        _ => panic!("expected the archive removal first"),
    }
    match &tasks[1] {
        CleanupTask::FlattenNesting { directory } => assert_eq!(directory, "lib-a-1.0.0"),
        _ => panic!("expected the flattening second"),
    }
}

#[test]
fn cleanup_on_clean_dir_is_noop() {
    let obs = CleanupObservation { archive_present: false, redundant_nesting: false };
    let tasks = cleanup_dependency("lib-a", "1.0.0", &obs);
    assert!(tasks.is_empty());
}

#[test]
fn cleanup_archive_only() {
    let obs = CleanupObservation { archive_present: true, redundant_nesting: false };
    let tasks = cleanup_dependency("lib-a", "1.0.0", &obs);
    assert_eq!(tasks.len(), 1);
    assert!(matches!(&tasks[0], CleanupTask::RemoveArchiveFile { .. }));
}

#[test]
fn exit_codes_are_distinct_and_nonzero() {
    let errors = vec![
        InstallError::MalformedSpec,
        InstallError::RegistryUnavailable,
        InstallError::NotFoundInRegistry,
        InstallError::DownloadFailed,
        InstallError::ArchiveInvalid,
        InstallError::IOFailure,
        InstallError::ManifestIOError,
        InstallError::MissingDependency { name: "a".to_string(), version: "1".to_string() },
    ];
    let codes: Vec<u8> = errors.iter().map(|e| e.exit_code()).collect();
    for (i, a) in codes.iter().enumerate() {
        assert_ne!(*a, 0);
        for b in codes.iter().skip(i + 1) {
            assert_ne!(*a, *b);
        }
    }
}
