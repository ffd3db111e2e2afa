use openfare_rs_lib::commands::{package_dependencies_locks, project_dependencies_locks};
use openfare_rs_lib::error::Error;
use openfare_rs_lib::locate::{identify_dependency_files, DependencyFileType};
use openfare_rs_lib::lock::{get_lock, parse_lock_file};
use openfare_rs_lib::locks_map::PackageLockMap;
use openfare_rs_lib::package::Package;
use openfare_rs_lib::paths::FsPath;
use openfare_rs_lib::registry::{
    crate_download_url, get_latest_version, get_package, registry_entry_url, require_version,
    resolve_package_version,
};
use openfare_rs_lib::resolve::{dependencies_locks, ResolvedDependency};
use openfare_rs_lib::RsExtension;

fn abs_path(components: &[&str]) -> FsPath {
    FsPath {
        absolute: true,
        components: components.iter().map(|c| c.to_string()).collect(),
    }
}

const VALID_LOCK: &str = "{\"scheme-version\":\"1\",\"plans\":{},\"payees\":{}}";

#[test]
fn upward_search_finds_nearest_manifest() {
    let files = vec![abs_path(&["a", "b", "project", "Cargo.toml"])];
    let start = abs_path(&["a", "b", "project", "src", "deep"]);
    let found = identify_dependency_files(&start, &files)
        .expect("absolute path accepted")
        .expect("manifest located");
    assert_eq!(found.len(), 1);
    assert!(matches!(found[0].file_type, DependencyFileType::CargoToml));
    assert_eq!(found[0].path.render(), "/a/b/project/Cargo.toml");
}

#[test]
fn upward_search_without_manifest_reports_nothing() {
    let files: Vec<FsPath> = Vec::new();
    let start = abs_path(&["very", "deep", "working", "directory"]);
    let found = identify_dependency_files(&start, &files).expect("absolute path accepted");
    assert!(found.is_none());
}

#[test]
fn upward_search_rejects_relative_path() {
    let start = FsPath {
        absolute: false,
        components: vec!["relative".to_string()],
    };
    let result = identify_dependency_files(&start, &Vec::new());
    assert!(matches!(result, Err(Error::InvalidInput { .. })));
}

#[test]
fn manifest_in_filesystem_root_is_found() {
    let files = vec![abs_path(&["Cargo.toml"])];
    let start = abs_path(&["src"]);
    let found = identify_dependency_files(&start, &files)
        .expect("absolute path accepted")
        .expect("manifest located");
    assert_eq!(found[0].path.render(), "/Cargo.toml");
}

#[test]
fn cargo_toml_file_name() {
    assert_eq!(DependencyFileType::CargoToml.file_name(), "Cargo.toml");
}

#[test]
fn empty_project_resolution_is_valid() {
    let result = project_dependencies_locks(None, None, None, None, &Vec::new())
        .expect("no manifest is a normal outcome");
    assert_eq!(result.project_path.render(), "");
    assert!(result.package_locks.primary_package.is_none());
    assert!(result.package_locks.primary_package_lock.is_none());
    assert_eq!(result.package_locks.dependencies_locks.len(), 0);
}

#[test]
fn lock_absence_is_not_failure() {
    let dir = abs_path(&["some", "package"]);
    let lock = get_lock(&dir, &None).expect("no lock file is a normal outcome");
    assert!(lock.is_none());
}

#[test]
fn lock_round_trip() {
    let path = abs_path(&["pkg", "OpenFare.lock"]);
    let lock = parse_lock_file(VALID_LOCK, &path).expect("valid lock text parses");
    let written = lock.as_text().to_string();
    let reread = parse_lock_file(&written, &path).expect("written text parses again");
    assert_eq!(lock.as_text(), reread.as_text());
    assert_eq!(reread.as_text(), VALID_LOCK);
}

#[test]
fn lock_parse_error_names_the_file() {
    let dir = abs_path(&["p"]);
    let result = get_lock(&dir, &Some("not a lock record".to_string()));
    match result {
        Err(Error::LockParseError { path }) => assert_eq!(path, "/p/OpenFare.lock"),
        other => panic!("expected a lock parse error, got {:?}", other.is_ok()),
    }
}

#[test]
fn lock_with_unrecognized_inner_structure_is_read_whole() {
    let text = "{\"scheme-version\":\"1\",\"plans\":{\"0\":{\"type\":\"voluntary\",\
                \"conditions\":{\"current_time\":\"bogus\"},\"payments\":{}}},\"payees\":{}}";
    let dir = abs_path(&["p"]);
    let lock = get_lock(&dir, &Some(text.to_string()))
        .expect("a JSON object is read whole, its inner structure untouched")
        .expect("lock present");
    assert_eq!(lock.as_text(), text);
}

#[test]
fn lock_must_be_a_json_object() {
    let dir = abs_path(&["p"]);
    let result = get_lock(&dir, &Some("[1,2,3]".to_string()));
    assert!(matches!(result, Err(Error::LockParseError { .. })));
}

#[test]
fn latest_version_is_extracted() {
    let body = "{\"crate\":{\"newest_version\":\"2.0.0\"}}";
    let version = get_latest_version(body).expect("well-formed response");
    assert_eq!(version, Some("2.0.0".to_string()));
}

#[test]
fn missing_version_field_means_not_found() {
    let body = "{\"crate\":{}}";
    let version = get_latest_version(body).expect("well-formed response");
    assert!(version.is_none());
    let result = require_version("demo", version);
    assert!(matches!(result, Err(Error::NotFound { .. })));
}

#[test]
fn malformed_registry_response_is_an_error() {
    let result = get_latest_version("{\"crate\":");
    match result {
        Err(Error::RegistryError { message }) => {
            assert_eq!(
                message,
                "registry response body was not well-formatted: {\"crate\":"
            );
        }
        _ => panic!("expected a registry error"),
    }
}

#[test]
fn version_resolution_prefers_the_requested_version() {
    let version = resolve_package_version("demo", Some("1.4.0".to_string()), None)
        .expect("requested version is used as given");
    assert_eq!(version, "1.4.0");
}

#[test]
fn version_resolution_falls_back_to_the_registry() {
    let body = "{\"crate\":{\"newest_version\":\"2.0.0\"}}";
    let version = resolve_package_version("demo", None, Some(body))
        .expect("registry version is used");
    assert_eq!(version, "2.0.0");
}

#[test]
fn version_resolution_without_any_version_is_not_found() {
    let body = "{\"crate\":{}}";
    let result = resolve_package_version("demo", None, Some(body));
    assert!(matches!(result, Err(Error::NotFound { .. })));
}

#[test]
fn version_resolution_on_malformed_response_is_a_registry_error() {
    let result = resolve_package_version("demo", None, Some("not json"));
    assert!(matches!(result, Err(Error::RegistryError { .. })));
}

#[test]
fn by_name_resolution_uses_registry_version() {
    let body = "{\"crate\":{\"newest_version\":\"2.0.0\"}}";
    let version = require_version("demo", get_latest_version(body).unwrap()).unwrap();
    assert_eq!(version, "2.0.0");
    let extension = RsExtension::new();
    let result = package_dependencies_locks(
        &extension,
        "demo",
        &version,
        None,
        PackageLockMap::new(),
        &Vec::new(),
    )
    .expect("assembly succeeds");
    let primary = result.package_locks.primary_package.expect("primary known");
    assert_eq!(primary.version, "2.0.0");
    assert_eq!(primary.name, "demo");
    assert_eq!(primary.registry, "crates.io");
}

#[test]
fn package_from_toml_reads_identity() {
    let contents = "[package]\nname = \"foo\"\nversion = \"1.2.3\"\n";
    let package = openfare_rs_lib::manifest::package_from_toml(contents)
        .expect("manifest parses")
        .expect("identity present");
    assert_eq!(package.name, "foo");
    assert_eq!(package.version, "1.2.3");
    assert_eq!(package.registry, "crates.io");
}

#[test]
fn package_from_toml_names_missing_field() {
    let contents = "[package]\nname = \"foo\"\n";
    let result = openfare_rs_lib::manifest::package_from_toml(contents);
    match result {
        Err(e @ Error::ManifestError { .. }) => {
            assert_eq!(
                e.message(),
                "manifest error: failed to find field 'package.version'"
            );
        }
        _ => panic!("expected a manifest error"),
    }
}

#[test]
fn package_from_toml_rejects_bad_text() {
    let result = openfare_rs_lib::manifest::package_from_toml("this is [not toml");
    assert!(matches!(result, Err(Error::ManifestError { .. })));
}

#[test]
fn primary_package_is_excluded_from_dependencies() {
    let mut dependencies = PackageLockMap::new();
    dependencies.insert(get_package("foo", "1.0.0"), None);
    dependencies.insert(get_package("dep", "0.3.0"), None);
    let extension = RsExtension::new();
    let result = package_dependencies_locks(
        &extension,
        "foo",
        "1.0.0",
        None,
        dependencies,
        &Vec::new(),
    )
    .expect("assembly succeeds");
    assert_eq!(result.registry_host_name, "crates.io");
    let locks = &result.package_locks;
    assert!(!locks
        .dependencies_locks
        .contains(&get_package("foo", "1.0.0")));
    assert!(locks
        .dependencies_locks
        .contains(&get_package("dep", "0.3.0")));
    assert_eq!(locks.dependencies_locks.len(), 1);
}

#[test]
fn duplicate_package_has_single_entry() {
    let resolved = vec![
        ResolvedDependency {
            name: "twice".to_string(),
            version: "1.0.0".to_string(),
            directory: abs_path(&["first"]),
            lock_file_contents: None,
        },
        ResolvedDependency {
            name: "twice".to_string(),
            version: "1.0.0".to_string(),
            directory: abs_path(&["second"]),
            lock_file_contents: None,
        },
    ];
    let map = dependencies_locks(&resolved).expect("resolution succeeds");
    assert_eq!(map.len(), 1);
    assert!(map.contains(&get_package("twice", "1.0.0")));
}

#[test]
fn sibling_without_lock_still_succeeds() {
    let resolved = vec![
        ResolvedDependency {
            name: "primary".to_string(),
            version: "1.0.0".to_string(),
            directory: abs_path(&["primary"]),
            lock_file_contents: Some(VALID_LOCK.to_string()),
        },
        ResolvedDependency {
            name: "sibling".to_string(),
            version: "0.1.0".to_string(),
            directory: abs_path(&["sibling"]),
            lock_file_contents: None,
        },
    ];
    let map = dependencies_locks(&resolved).expect("resolution succeeds");
    assert_eq!(map.len(), 2);
    let primary_entry = map
        .get(&get_package("primary", "1.0.0"))
        .expect("primary present");
    assert!(primary_entry.is_some());
    let sibling_entry = map
        .get(&get_package("sibling", "0.1.0"))
        .expect("sibling present");
    assert!(sibling_entry.is_none());
}

#[test]
fn dependency_lock_errors_name_the_file() {
    let resolved = vec![ResolvedDependency {
        name: "broken".to_string(),
        version: "1.0.0".to_string(),
        directory: abs_path(&["broken"]),
        lock_file_contents: Some("{\"scheme-version\":".to_string()),
    }];
    let result = dependencies_locks(&resolved);
    match result {
        Err(Error::LockParseError { path }) => assert_eq!(path, "/broken/OpenFare.lock"),
        _ => panic!("expected a lock parse error"),
    }
}

#[test]
fn project_resolution_assembles_all_parts() {
    let manifest_path = abs_path(&["work", "proj", "Cargo.toml"]);
    let located = identify_dependency_files(
        &abs_path(&["work", "proj", "src"]),
        &vec![manifest_path],
    )
    .expect("absolute path accepted");
    let resolved = vec![ResolvedDependency {
        name: "proj".to_string(),
        version: "0.2.0".to_string(),
        directory: abs_path(&["work", "proj"]),
        lock_file_contents: None,
    }];
    let result = project_dependencies_locks(
        located,
        Some("[package]\nname = \"proj\"\nversion = \"0.2.0\"\n".to_string()),
        Some(VALID_LOCK.to_string()),
        Some(resolved),
        &Vec::new(),
    )
    .expect("resolution succeeds");
    assert_eq!(result.project_path.render(), "/work/proj");
    let locks = &result.package_locks;
    let primary = locks.primary_package.as_ref().expect("identity read");
    assert_eq!(primary.name, "proj");
    assert_eq!(primary.version, "0.2.0");
    assert!(locks.primary_package_lock.is_some());
    assert!(locks
        .dependencies_locks
        .contains(&get_package("proj", "0.2.0")));
}

#[test]
fn project_resolution_tolerates_missing_identity() {
    let manifest_path = abs_path(&["proj", "Cargo.toml"]);
    let located = identify_dependency_files(&abs_path(&["proj"]), &vec![manifest_path])
        .expect("absolute path accepted");
    let result = project_dependencies_locks(
        located,
        Some("[package]\nname = \"proj\"\n".to_string()),
        None,
        Some(Vec::new()),
        &Vec::new(),
    )
    .expect("missing identity is tolerated by-project");
    assert!(result.package_locks.primary_package.is_none());
    assert!(result.package_locks.primary_package_lock.is_none());
}

#[test]
fn entry_walk_visits_every_package_once() {
    let mut map = PackageLockMap::new();
    map.insert(get_package("alpha", "1.0.0"), None);
    map.insert(get_package("beta", "2.0.0"), None);
    map.insert(get_package("alpha", "1.0.0"), None);
    let mut names: Vec<String> = Vec::new();
    for index in 0..map.len() {
        names.push(map.entry_at(index).0.name.clone());
    }
    names.sort();
    assert_eq!(names, vec!["alpha".to_string(), "beta".to_string()]);
}

#[test]
fn registry_urls_are_deterministic() {
    assert_eq!(
        registry_entry_url("demo"),
        "https://crates.io/api/v1/crates/demo"
    );
    assert_eq!(
        crate_download_url("demo", "2.0.0"),
        "https://crates.io/api/v1/crates/demo/2.0.0/download"
    );
}

#[test]
fn error_messages_carry_context() {
    let archive = Error::ArchiveError {
        message: "bad archive".to_string(),
    };
    assert_eq!(archive.message(), "archive error: bad archive");
    let resolution = Error::DependencyResolutionError {
        message: "resolver failed".to_string(),
    };
    assert_eq!(
        resolution.message(),
        "dependency resolution error: resolver failed"
    );
    let filesystem = Error::FilesystemError {
        message: "disk full".to_string(),
    };
    assert_eq!(filesystem.message(), "filesystem error: disk full");
    let invalid = Error::InvalidInput {
        message: "relative path".to_string(),
    };
    assert_eq!(invalid.message(), "invalid input: relative path");
}

#[test]
fn extension_identity() {
    let extension = RsExtension::new();
    assert_eq!(extension.name(), "rs");
    assert_eq!(extension.registries(), vec!["crates.io".to_string()]);
    assert_eq!(extension.version(), "CARGO_PKG_VERSION: 0.1.0");
}

#[test]
fn package_equality_is_field_equality() {
    let a = Package {
        registry: "crates.io".to_string(),
        name: "x".to_string(),
        version: "1".to_string(),
    };
    let b = get_package("x", "1");
    assert!(a.equals(&b));
    let c = get_package("x", "2");
    assert!(!a.equals(&c));
}
