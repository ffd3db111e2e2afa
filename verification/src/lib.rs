//! Dependency resolution and lock aggregation for packages of the crates.io
//! registry: locating a project's manifest by walking up the filesystem
//! hierarchy, resolving the dependency graph through the package manager's
//! own resolver, and merging per-package lock lookups into one deduplicated
//! mapping from package identity to optional lock record.
//!
//! Filesystem reads, registry requests and the resolver invocation are the
//! caller's work, handed in as plain values; this library states and proves
//! what is decided, parsed and assembled from them.

use vstd::prelude::*;

pub mod commands;
pub mod error;
pub mod locate;
pub mod lock;
pub mod locks_map;
pub mod manifest;
pub mod package;
pub mod paths;
pub mod registry;
pub mod resolve;
pub mod text;

verus! {

/// Name of the package registry this integration targets.
pub fn host_name() -> (r: &'static str)
    ensures
        r@ == "crates.io"@,
{
    "crates.io"
}

/// The registry integration this library implements: its name, the registry
/// hosts it serves, and its version.
#[derive(Debug)]
pub struct RsExtension {
    name_: String,
    registry_host_names_: Vec<String>,
    version_: String,
}

impl View for RsExtension {
    type V = (Seq<char>, Seq<Seq<char>>, Seq<char>);

    closed spec fn view(&self) -> Self::V {
        (self.name_@, crate::paths::comps_view(self.registry_host_names_@), self.version_@)
    }
}

impl RsExtension {
    /// A fresh extension value, serving exactly this registry.
    pub fn new() -> (r: Self)
        ensures
            r@.0 == "rs"@,
            r@.1 =~= seq!["crates.io"@],
            r@.2 == "CARGO_PKG_VERSION: 0.1.0"@,
    {
        let r = RsExtension {
            name_: "rs".to_owned(),
            registry_host_names_: vec![host_name().to_owned()],
            version_: "CARGO_PKG_VERSION: 0.1.0".to_owned(),
        };
        proof {
            assert(r@.1 =~= seq!["crates.io"@]);
        }
        r
    }

    /// The extension's name.
    pub fn name(&self) -> (r: String)
        ensures
            r@ == self@.0,
    {
        self.name_.clone()
    }

    /// The registry hosts this extension serves.
    pub fn registries(&self) -> (r: Vec<String>)
        ensures
            crate::paths::comps_view(r@) == self@.1,
    {
        crate::paths::clone_components(&self.registry_host_names_)
    }

    /// The extension's version.
    pub fn version(&self) -> (r: String)
        ensures
            r@ == self@.2,
    {
        self.version_.clone()
    }

    /// Assembles a by-name resolution result; see
    /// `commands::package_dependencies_locks`.
    pub fn package_dependencies_locks(
        &self,
        package_name: &str,
        package_version: &str,
        primary_package_lock: Option<crate::lock::Lock>,
        dependencies: crate::locks_map::PackageLockMap,
        extension_args: &Vec<String>,
    ) -> (r: Result<crate::commands::PackageDependenciesLocks, crate::error::Error>)
        requires
            dependencies.wf(),
        ensures
            self@.1.len() == 0 ==> (r matches Err(e)
                && e matches crate::error::Error::InvalidInput { .. }),
            self@.1.len() > 0 ==> (r matches Ok(p) && {
                &&& p.registry_host_name@ == self@.1[0]
                &&& p.package_locks.primary_package matches Some(pk) && pk@ == (
                    "crates.io"@,
                    package_name@,
                    package_version@,
                )
                &&& crate::lock::opt_lock_view(p.package_locks.primary_package_lock)
                    == crate::lock::opt_lock_view(primary_package_lock)
                &&& p.package_locks.dependencies_locks@ == dependencies@.remove(
                    ("crates.io"@, package_name@, package_version@),
                )
                &&& !p.package_locks.dependencies_locks@.contains_key(
                    ("crates.io"@, package_name@, package_version@),
                )
                &&& p.package_locks.wf()
            }),
    {
        commands::package_dependencies_locks(
            self,
            package_name,
            package_version,
            primary_package_lock,
            dependencies,
            extension_args,
        )
    }

    /// Assembles a by-project resolution result; see
    /// `commands::project_dependencies_locks`.
    pub fn project_dependencies_locks(
        &self,
        dependency_files: Option<Vec<crate::locate::DependencyFile>>,
        manifest_contents: Option<String>,
        project_lock_file_contents: Option<String>,
        resolved: Option<Vec<crate::resolve::ResolvedDependency>>,
        extension_args: &Vec<String>,
    ) -> (r: Result<crate::commands::ProjectDependenciesLocks, crate::error::Error>)
        requires
            dependency_files matches Some(v) ==> (v@.len() > 0 ==> (manifest_contents is Some
                && resolved is Some)),
        ensures
            dependency_files is None ==> (r matches Ok(p) && crate::commands::empty_project_result(
                p,
            )),
            dependency_files matches Some(v) ==> (v@.len() == 0 ==> (r matches Ok(p)
                && crate::commands::empty_project_result(p))),
            dependency_files matches Some(v) ==> (v@.len() > 0 ==> (
            manifest_contents matches Some(mc) ==> (
            resolved matches Some(ds) ==> crate::commands::by_project_outcome(
                v@,
                mc@,
                project_lock_file_contents,
                ds@,
                r,
            )))),
    {
        commands::project_dependencies_locks(
            dependency_files,
            manifest_contents,
            project_lock_file_contents,
            resolved,
            extension_args,
        )
    }
}

} // verus!
