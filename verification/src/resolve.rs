use vstd::prelude::*;

use crate::error::Error;
use crate::lock::{get_lock, is_lock_json};
use crate::locks_map::PackageLockMap;
use crate::package::{Package, PackageKey};
use crate::paths::{path_text, FsPath};
use crate::text::opt_text_view;

verus! {

/// One resolved node of the dependency graph, as the package manager's own
/// resolver reports it: the package's name and version, the directory of its
/// source checkout, and the contents of the lock file found there, if any.
pub struct ResolvedDependency {
    pub name: String,
    pub version: String,
    pub directory: FsPath,
    pub lock_file_contents: Option<String>,
}

/// The identity a resolved node stands for, under this registry.
pub open spec fn dep_key(d: ResolvedDependency) -> PackageKey {
    ("crates.io"@, d.name@, d.version@)
}

/// The lock record a resolved node carries, as text.
pub open spec fn dep_lock_view(d: ResolvedDependency) -> Option<Seq<char>> {
    opt_text_view(d.lock_file_contents)
}

/// Whether a resolved node's lock file, if present, holds a well-formed
/// record.
pub open spec fn dep_lock_valid(d: ResolvedDependency) -> bool {
    match d.lock_file_contents {
        None => true,
        Some(c) => is_lock_json(c@),
    }
}

/// The textual location of a resolved node's lock file.
pub open spec fn dep_lock_path_text(d: ResolvedDependency) -> Seq<char> {
    path_text((d.directory@.0, d.directory@.1.push("OpenFare.lock"@)))
}

/// The mapping a resolved dependency graph stands for: each package once,
/// associated with its optional lock text, later nodes overriding earlier
/// ones with the same identity.
pub open spec fn deps_map_of(ds: Seq<ResolvedDependency>) -> Map<PackageKey, Option<Seq<char>>>
    decreases ds.len(),
{
    if ds.len() == 0 {
        Map::empty()
    } else {
        deps_map_of(ds.drop_last()).insert(dep_key(ds.last()), dep_lock_view(ds.last()))
    }
}

/// Map key uniqueness: a package reachable along several paths of the graph
/// — several nodes with the same identity — still has exactly one entry in
/// the mapping, because the mapping's keys are a set.
pub proof fn lemma_duplicate_nodes_one_entry(ds: Seq<ResolvedDependency>, i: int, j: int)
    requires
        0 <= i < ds.len(),
        0 <= j < ds.len(),
        dep_key(ds[i]) == dep_key(ds[j]),
    ensures
        deps_map_of(ds).contains_key(dep_key(ds[i])),
        deps_map_of(ds).dom() =~= deps_map_of(ds.remove(j)).dom().insert(dep_key(ds[i])),
{
    lemma_deps_map_contains(ds, dep_key(ds[i]));
    lemma_deps_map_dom(ds);
    lemma_deps_map_dom(ds.remove(j));
    ds.remove_ensures(j);
    assert forall|k: PackageKey| deps_map_of(ds).dom().contains(k) implies deps_map_of(
        ds.remove(j),
    ).dom().insert(dep_key(ds[i])).contains(k) by {
        if k != dep_key(ds[i]) {
            let a = choose|a: int| 0 <= a < ds.len() && dep_key(ds[a]) == k;
            if a < j {
                assert(ds.remove(j)[a] == ds[a]);
                assert(dep_key(ds.remove(j)[a]) == k);
            } else {
                assert(a != j);
                assert(ds.remove(j)[a - 1] == ds[a]);
                assert(dep_key(ds.remove(j)[a - 1]) == k);
            }
        }
    }
    assert forall|k: PackageKey|
        deps_map_of(ds.remove(j)).dom().insert(dep_key(ds[i])).contains(k) implies deps_map_of(
        ds,
    ).dom().contains(k) by {
        if k != dep_key(ds[i]) {
            let a = choose|a: int| 0 <= a < ds.remove(j).len() && dep_key(ds.remove(j)[a]) == k;
            if a < j {
                assert(ds[a] == ds.remove(j)[a]);
            } else {
                assert(ds[a + 1] == ds.remove(j)[a]);
            }
        }
    }
}

proof fn lemma_deps_map_contains(ds: Seq<ResolvedDependency>, k: PackageKey)
    ensures
        deps_map_of(ds).contains_key(k) <==> exists|i: int| 0 <= i < ds.len() && dep_key(ds[i])
            == k,
    decreases ds.len(),
{
    if ds.len() > 0 {
        lemma_deps_map_contains(ds.drop_last(), k);
        if deps_map_of(ds).contains_key(k) {
            if k == dep_key(ds.last()) {
                assert(dep_key(ds[ds.len() - 1]) == k);
            } else {
                let i = choose|i: int|
                    0 <= i < ds.drop_last().len() && dep_key(ds.drop_last()[i]) == k;
                assert(ds.drop_last()[i] == ds[i]);
            }
        }
        if exists|i: int| 0 <= i < ds.len() && dep_key(ds[i]) == k {
            let i = choose|i: int| 0 <= i < ds.len() && dep_key(ds[i]) == k;
            if i < ds.len() - 1 {
                assert(ds.drop_last()[i] == ds[i]);
                assert(dep_key(ds.drop_last()[i]) == k);
            }
            assert(deps_map_of(ds).contains_key(k));
        }
    }
}

proof fn lemma_deps_map_dom(ds: Seq<ResolvedDependency>)
    ensures
        forall|k: PackageKey|
            #[trigger] deps_map_of(ds).dom().contains(k) <==> exists|i: int|
                0 <= i < ds.len() && dep_key(ds[i]) == k,
{
    assert forall|k: PackageKey| true implies (#[trigger] deps_map_of(ds).dom().contains(k)
        <==> exists|i: int| 0 <= i < ds.len() && dep_key(ds[i]) == k) by {
        lemma_deps_map_contains(ds, k);
    }
}

/// Builds the dependencies mapping from the resolver's output: one entry per
/// package, each associated with the lock record of its source directory.
/// The first node, walking the graph in the resolver's order, whose lock
/// file does not parse fails the whole resolution, naming that file.
pub fn dependencies_locks(resolved: &Vec<ResolvedDependency>) -> (r: Result<PackageLockMap, Error>)
    ensures
        (forall|i: int| 0 <= i < resolved@.len() ==> dep_lock_valid(resolved@[i])) ==> (
        r matches Ok(m) && m.wf() && m@ == deps_map_of(resolved@)),
        (exists|i: int| 0 <= i < resolved@.len() && !dep_lock_valid(resolved@[i])) ==> r is Err,
        r matches Err(e) ==> ({
            &&& e matches Error::LockParseError { path }
            &&& exists|i: int|
                {
                    &&& 0 <= i < resolved@.len()
                    &&& !dep_lock_valid(resolved@[i])
                    &&& path@ == dep_lock_path_text(resolved@[i])
                    &&& forall|j: int| 0 <= j < i ==> dep_lock_valid(resolved@[j])
                }
        }),
{
    let mut results = PackageLockMap::new();
    let mut i: usize = 0;
    while i < resolved.len()
        invariant
            i <= resolved@.len(),
            results.wf(),
            results@ == deps_map_of(resolved@.take(i as int)),
            forall|j: int| 0 <= j < i ==> dep_lock_valid(resolved@[j]),
        decreases resolved@.len() - i,
    {
        let node = &resolved[i];
        let lock = match get_lock(&node.directory, &node.lock_file_contents) {
            Ok(l) => l,
            Err(e) => {
                proof {
                    assert(!dep_lock_valid(resolved@[i as int]));
                }
                return Err(e);
            },
        };
        let package = Package {
            registry: crate::host_name().to_owned(),
            name: node.name.clone(),
            version: node.version.clone(),
        };
        results.insert(package, lock);
        proof {
            let prefix = resolved@.take(i + 1 as int);
            assert(prefix.drop_last() =~= resolved@.take(i as int));
            assert(prefix.last() == resolved@[i as int]);
        }
        i = i + 1;
    }
    proof {
        assert(resolved@.take(resolved@.len() as int) =~= resolved@);
    }
    Ok(results)
}

} // verus!
