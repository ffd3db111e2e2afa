use vstd::prelude::*;

use crate::error::Error;
use crate::paths::{clone_components, comps_view, FsPath};

verus! {

/// The recognized manifest file dialects.  One dialect is recognized today;
/// adding another means extending this enum and the table below, not the
/// call sites.
#[derive(Debug, Copy, Clone, PartialEq, Eq, Structural)]
pub enum DependencyFileType {
    CargoToml,
}

/// The file name associated with a dependency file type.
pub open spec fn spec_file_name(t: DependencyFileType) -> Seq<char> {
    match t {
        DependencyFileType::CargoToml => "Cargo.toml"@,
    }
}

impl DependencyFileType {
    /// Return the file name associated with the dependency file type.
    pub fn file_name(&self) -> (r: String)
        ensures
            r@ == spec_file_name(*self),
    {
        match self {
            DependencyFileType::CargoToml => "Cargo.toml".to_owned(),
        }
    }
}

/// The table of recognized dialects, in fixed order.
pub open spec fn spec_all_types() -> Seq<DependencyFileType> {
    seq![DependencyFileType::CargoToml]
}

/// The recognized dialects, in fixed order.
pub fn all_dependency_file_types() -> (r: Vec<DependencyFileType>)
    ensures
        r@ == spec_all_types(),
{
    let r = vec![DependencyFileType::CargoToml];
    proof {
        assert(r@ =~= spec_all_types());
    }
    r
}

/// A manifest found on disk: which dialect it is, and where it stands.
#[derive(Debug)]
pub struct DependencyFile {
    pub file_type: DependencyFileType,
    pub path: FsPath,
}

impl View for DependencyFile {
    type V = (DependencyFileType, (bool, Seq<Seq<char>>));

    open spec fn view(&self) -> Self::V {
        (self.file_type, self.path@)
    }
}

/// The view of a list of found manifests.
pub open spec fn dep_files_view(s: Seq<DependencyFile>) -> Seq<
    (DependencyFileType, (bool, Seq<Seq<char>>)),
> {
    s.map_values(|d: DependencyFile| d@)
}

/// Whether `p` is among the files known to exist.
pub open spec fn path_exists(files: Seq<FsPath>, p: (bool, Seq<Seq<char>>)) -> bool {
    exists|i: int| 0 <= i < files.len() && files[i]@ == p
}

/// The manifests recognized in the absolute directory `dir` among `files`,
/// for the dialect table prefix `types`, in table order.
pub open spec fn recognized_at(
    files: Seq<FsPath>,
    dir: Seq<Seq<char>>,
    types: Seq<DependencyFileType>,
) -> Seq<(DependencyFileType, (bool, Seq<Seq<char>>))>
    decreases types.len(),
{
    if types.len() == 0 {
        Seq::empty()
    } else {
        let rest = recognized_at(files, dir, types.drop_last());
        let p = (true, dir.push(spec_file_name(types.last())));
        if path_exists(files, p) {
            rest.push((types.last(), p))
        } else {
            rest
        }
    }
}

/// Whether the absolute directory `dir` holds at least one recognized
/// manifest among `files`.
pub open spec fn dir_has_manifest(files: Seq<FsPath>, dir: Seq<Seq<char>>) -> bool {
    recognized_at(files, dir, spec_all_types()).len() > 0
}

/// Whether `p` is among the files known to exist.
fn contains_path(files: &Vec<FsPath>, p: &FsPath) -> (r: bool)
    ensures
        r == path_exists(files@, p@),
{
    let mut i: usize = 0;
    while i < files.len()
        invariant
            i <= files@.len(),
            forall|j: int| 0 <= j < i ==> files@[j]@ != p@,
        decreases files@.len() - i,
    {
        if files[i].equals(p) {
            return true;
        }
        i = i + 1;
    }
    false
}

/// The manifests recognized in the absolute directory with components
/// `dir_comps`, among `existing_files`, in dialect table order.
fn recognized_in_dir(existing_files: &Vec<FsPath>, dir_comps: &Vec<String>) -> (r: Vec<
    DependencyFile,
>)
    ensures
        dep_files_view(r@) == recognized_at(
            existing_files@,
            comps_view(dir_comps@),
            spec_all_types(),
        ),
{
    let types = all_dependency_file_types();
    let mut found: Vec<DependencyFile> = Vec::new();
    let mut i: usize = 0;
    while i < types.len()
        invariant
            i <= types@.len(),
            types@ == spec_all_types(),
            dep_files_view(found@) == recognized_at(
                existing_files@,
                comps_view(dir_comps@),
                types@.take(i as int),
            ),
        decreases types@.len() - i,
    {
        let t = types[i];
        let mut candidate_comps = clone_components(dir_comps);
        candidate_comps.push(t.file_name());
        let candidate = FsPath { absolute: true, components: candidate_comps };
        proof {
            assert(candidate@.1 =~= comps_view(dir_comps@).push(spec_file_name(t)));
        }
        let ghost old_found = found@;
        if contains_path(existing_files, &candidate) {
            found.push(DependencyFile { file_type: t, path: candidate });
        }
        proof {
            let prefix = types@.take(i + 1 as int);
            assert(prefix.drop_last() =~= types@.take(i as int));
            assert(prefix.last() == types@[i as int]);
            if path_exists(existing_files@, candidate@) {
                assert(dep_files_view(found@) =~= dep_files_view(old_found).push(
                    (t, candidate@),
                ));
            } else {
                assert(dep_files_view(found@) =~= dep_files_view(old_found));
            }
        }
        i = i + 1;
    }
    proof {
        assert(types@.take(types@.len() as int) =~= types@);
    }
    found
}

/// Locates the manifests of the project governing `working_directory`.
///
/// The starting directory must be absolute; a relative one makes the upward
/// walk ambiguous and is rejected.  The directory itself is searched first;
/// on no match the walk moves to the parent, and stops without a match after
/// the filesystem root.  On success the result holds every recognized
/// manifest of the first directory, going upward, that holds at least one.
///
/// `existing_files` is the caller's snapshot of which candidate files exist
/// on disk; the walk consults nothing else.  The walk takes one step per
/// ancestor, so it terminates for every starting directory (the loop measure
/// is the remaining depth).
pub fn identify_dependency_files(working_directory: &FsPath, existing_files: &Vec<FsPath>) -> (r:
    Result<Option<Vec<DependencyFile>>, Error>)
    ensures
        !working_directory@.0 ==> (r matches Err(e) && e matches Error::InvalidInput { .. }),
        working_directory@.0 ==> {
            &&& (r matches Ok(o) && o is None) <==> (forall|m: int|
                0 <= m <= working_directory@.1.len() ==> !dir_has_manifest(
                    existing_files@,
                    working_directory@.1.take(m),
                ))
            &&& r matches Ok(o) ==> (o matches Some(v) ==> exists|m: int|
                {
                    &&& 0 <= m <= working_directory@.1.len()
                    &&& dir_has_manifest(existing_files@, working_directory@.1.take(m))
                    &&& forall|m2: int|
                        m < m2 <= working_directory@.1.len() ==> !dir_has_manifest(
                            existing_files@,
                            working_directory@.1.take(m2),
                        )
                    &&& dep_files_view(v@) == recognized_at(
                        existing_files@,
                        working_directory@.1.take(m),
                        spec_all_types(),
                    )
                    &&& v@.len() > 0
                })
            &&& r is Ok
        },
{
    if !working_directory.absolute {
        return Err(
            Error::InvalidInput {
                message: "manifest search requires an absolute starting directory".to_owned(),
            },
        );
    }
    let ghost n = working_directory@.1.len() as int;
    let mut comps = clone_components(&working_directory.components);
    loop
        invariant
            working_directory@.0,
            comps_view(comps@) == working_directory@.1.take(comps@.len() as int),
            comps@.len() <= n,
            n == working_directory@.1.len(),
            forall|m: int|
                comps@.len() < m <= n ==> !dir_has_manifest(
                    existing_files@,
                    working_directory@.1.take(m),
                ),
        decreases comps@.len(),
    {
        let found = recognized_in_dir(existing_files, &comps);
        proof {
            assert(found@.len() == dep_files_view(found@).len());
        }
        if found.len() > 0 {
            proof {
                let m0 = comps@.len() as int;
                assert(dir_has_manifest(existing_files@, working_directory@.1.take(m0)));
            }
            return Ok(Some(found));
        }
        if comps.len() == 0 {
            proof {
                assert(forall|m: int|
                    0 <= m <= n ==> !dir_has_manifest(
                        existing_files@,
                        working_directory@.1.take(m),
                    ));
            }
            return Ok(None);
        }
        let ghost before = comps_view(comps@);
        let _ = comps.pop();
        proof {
            assert(comps_view(comps@) =~= before.drop_last());
            assert(before.drop_last() =~= working_directory@.1.take(comps@.len() as int));
        }
    }
}

} // verus!
