use vstd::prelude::*;

use crate::error::Error;
use crate::locate::DependencyFile;
use crate::lock::{get_lock, is_lock_json, lock_contents_valid, opt_lock_view, Lock};
use crate::locks_map::PackageLockMap;
use crate::manifest::{manifest_fields, package_from_toml};
use crate::package::{opt_package_view, Package, PackageKey};
use crate::paths::{path_text, FsPath};
use crate::registry::get_package;
use crate::resolve::{dep_lock_valid, dependencies_locks, deps_map_of, ResolvedDependency};
use crate::text::opt_text_view;

verus! {

/// The unified result of a resolution: the primary package and its lock, and
/// the mapping from each dependency to its optional lock.
pub struct PackageLocks {
    pub primary_package: Option<Package>,
    pub primary_package_lock: Option<Lock>,
    pub dependencies_locks: PackageLockMap,
}

impl PackageLocks {
    /// Whether the dependencies mapping is well-formed.
    pub open spec fn wf(&self) -> bool {
        self.dependencies_locks.wf()
    }
}

impl Default for PackageLocks {
    /// The empty result: no primary package, no lock, no dependencies.
    fn default() -> (r: Self)
        ensures
            r.primary_package is None,
            r.primary_package_lock is None,
            r.dependencies_locks@ == Map::<PackageKey, Option<Seq<char>>>::empty(),
            r.wf(),
    {
        PackageLocks {
            primary_package: None,
            primary_package_lock: None,
            dependencies_locks: PackageLockMap::new(),
        }
    }
}

/// A by-name resolution result, tagged with the registry host it came from.
pub struct PackageDependenciesLocks {
    pub registry_host_name: String,
    pub package_locks: PackageLocks,
}

/// A by-project resolution result: the project root that was found, and the
/// locks of the project's packages.
pub struct ProjectDependenciesLocks {
    pub project_path: FsPath,
    pub package_locks: PackageLocks,
}

impl Default for ProjectDependenciesLocks {
    /// The empty result: no project found.
    fn default() -> (r: Self)
        ensures
            r.project_path@.0 == false,
            r.project_path@.1.len() == 0,
            r.package_locks.primary_package is None,
            r.package_locks.primary_package_lock is None,
            r.package_locks.dependencies_locks@ == Map::<PackageKey, Option<Seq<char>>>::empty(),
            r.package_locks.wf(),
    {
        ProjectDependenciesLocks {
            project_path: FsPath::empty(),
            package_locks: PackageLocks::default(),
        }
    }
}

/// Whether a by-project result is the empty one: no project, no packages.
pub open spec fn empty_project_result(p: ProjectDependenciesLocks) -> bool {
    &&& p.project_path@.0 == false
    &&& p.project_path@.1.len() == 0
    &&& p.package_locks.primary_package is None
    &&& p.package_locks.primary_package_lock is None
    &&& p.package_locks.dependencies_locks@ == Map::<PackageKey, Option<Seq<char>>>::empty()
    &&& p.package_locks.wf()
}

/// The primary package identity a manifest's text yields in by-project
/// resolution, where a missing or unreadable identity is tolerated.
pub open spec fn primary_from_manifest(mc: Seq<char>) -> Option<PackageKey> {
    match manifest_fields(mc) {
        Some(f) => match f.0 {
            Some(n) => match f.1 {
                Some(v) => Some(("crates.io"@, n, v)),
                None => None,
            },
            None => None,
        },
        None => None,
    }
}

/// Assembles a by-name resolution result.
///
/// The primary package is constructed directly from the known name and
/// resolved version; its own entry is removed from the dependencies mapping,
/// since a package's resolver output always includes the package itself.
/// The result is tagged with the extension's first registry host.
pub fn package_dependencies_locks(
    extension: &crate::RsExtension,
    package_name: &str,
    package_version: &str,
    primary_package_lock: Option<Lock>,
    dependencies: PackageLockMap,
    _extension_args: &Vec<String>,
) -> (r: Result<PackageDependenciesLocks, Error>)
    requires
        dependencies.wf(),
    ensures
        extension@.1.len() == 0 ==> (r matches Err(e) && e matches Error::InvalidInput { .. }),
        extension@.1.len() > 0 ==> (r matches Ok(p) && {
            &&& p.registry_host_name@ == extension@.1[0]
            &&& p.package_locks.primary_package matches Some(pk) && pk@ == (
                "crates.io"@,
                package_name@,
                package_version@,
            )
            &&& opt_lock_view(p.package_locks.primary_package_lock) == opt_lock_view(
                primary_package_lock,
            )
            &&& p.package_locks.dependencies_locks@ == dependencies@.remove(
                ("crates.io"@, package_name@, package_version@),
            )
            &&& !p.package_locks.dependencies_locks@.contains_key(
                ("crates.io"@, package_name@, package_version@),
            )
            &&& p.package_locks.wf()
        }),
{
    let mut hosts = extension.registries();
    if hosts.len() == 0 {
        return Err(
            Error::InvalidInput {
                message: "at least one registry host name expected".to_owned(),
            },
        );
    }
    let registry_host_name = hosts.remove(0);
    let package = get_package(package_name, package_version);
    let mut dependencies_locks = dependencies;
    dependencies_locks.remove(&package);
    Ok(
        PackageDependenciesLocks {
            registry_host_name,
            package_locks: PackageLocks {
                primary_package: Some(package),
                primary_package_lock,
                dependencies_locks,
            },
        },
    )
}

/// What a by-project resolution yields once a manifest was located: which
/// failure fails it, and what the assembled result holds on success.
/// `files` is what the locator found, `mc` the text of the first manifest,
/// `plc` the project root's lock-file contents, `ds` the resolver's output.
pub open spec fn by_project_outcome(
    files: Seq<DependencyFile>,
    mc: Seq<char>,
    plc: Option<String>,
    ds: Seq<ResolvedDependency>,
    r: Result<ProjectDependenciesLocks, Error>,
) -> bool {
    let root = (files[0].path@.0, files[0].path@.1.drop_last());
    &&& files[0].path@.1.len() == 0 ==> (r matches Err(e) && e matches Error::FilesystemError {
        ..
    })
    &&& files[0].path@.1.len() > 0 ==> {
        &&& plc matches Some(c) ==> (!is_lock_json(c@) ==> (r matches Err(e)
            && e matches Error::LockParseError { path } && path@ == path_text(
            (root.0, root.1.push("OpenFare.lock"@)),
        )))
        &&& lock_contents_valid(plc) ==> {
            &&& (exists|i: int| 0 <= i < ds.len() && !dep_lock_valid(ds[i])) ==> (r matches Err(e)
                && e matches Error::LockParseError { .. })
            &&& (forall|i: int| 0 <= i < ds.len() ==> dep_lock_valid(ds[i])) ==> (r matches Ok(p)
                && {
                &&& p.project_path@ == root
                &&& opt_package_view(p.package_locks.primary_package) == primary_from_manifest(mc)
                &&& opt_lock_view(p.package_locks.primary_package_lock) == opt_text_view(plc)
                &&& p.package_locks.dependencies_locks@ == deps_map_of(ds)
                &&& p.package_locks.wf()
            })
        }
    }
}

/// Assembles a by-project resolution result from what was found on disk.
///
/// `dependency_files` is what the manifest locator returned for the working
/// directory; no manifest anywhere in its ancestry is a normal outcome and
/// yields the empty result.  `manifest_contents` is the text of the first
/// located manifest, `project_lock_file_contents` the contents of the
/// project root's lock file if one is present, and `resolved` the resolver's
/// output for the located manifest.
///
/// Unlike by-name resolution, the primary package is deliberately not
/// removed from the dependencies mapping here, preserving the observed
/// asymmetry between the two entry points.
pub fn project_dependencies_locks(
    dependency_files: Option<Vec<DependencyFile>>,
    manifest_contents: Option<String>,
    project_lock_file_contents: Option<String>,
    resolved: Option<Vec<ResolvedDependency>>,
    _extension_args: &Vec<String>,
) -> (r: Result<ProjectDependenciesLocks, Error>)
    requires
        dependency_files matches Some(v) ==> (v@.len() > 0 ==> (manifest_contents is Some
            && resolved is Some)),
    ensures
        dependency_files is None ==> (r matches Ok(p) && empty_project_result(p)),
        dependency_files matches Some(v) ==> (v@.len() == 0 ==> (r matches Ok(p)
            && empty_project_result(p))),
        dependency_files matches Some(v) ==> (v@.len() > 0 ==> (
        manifest_contents matches Some(mc) ==> (resolved matches Some(ds) ==> by_project_outcome(
            v@,
            mc@,
            project_lock_file_contents,
            ds@,
            r,
        )))),
{
    let files = match dependency_files {
        None => {
            return Ok(ProjectDependenciesLocks::default());
        },
        Some(v) => v,
    };
    if files.len() == 0 {
        return Ok(ProjectDependenciesLocks::default());
    }
    let manifest_file = &files[0];
    let project_path = match manifest_file.path.parent() {
        Some(p) => p,
        None => {
            return Err(
                Error::FilesystemError {
                    message: "failed to derive parent directory from dependency file path"
                        .to_owned(),
                },
            );
        },
    };
    let (mc, ds) = match (manifest_contents, resolved) {
        (Some(mc), Some(ds)) => (mc, ds),
        _ => {
            return Err(
                Error::InvalidInput {
                    message: "located manifest without contents or resolver output".to_owned(),
                },
            );
        },
    };
    let primary_package = match package_from_toml(mc.as_str()) {
        Ok(o) => o,
        Err(_) => None,
    };
    let primary_package_lock = match get_lock(&project_path, &project_lock_file_contents) {
        Ok(l) => l,
        Err(e) => {
            return Err(e);
        },
    };
    let deps = match dependencies_locks(&ds) {
        Ok(m) => m,
        Err(e) => {
            return Err(e);
        },
    };
    Ok(
        ProjectDependenciesLocks {
            project_path,
            package_locks: PackageLocks {
                primary_package,
                primary_package_lock,
                dependencies_locks: deps,
            },
        },
    )
}

} // verus!
