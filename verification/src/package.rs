use vstd::prelude::*;

verus! {

/// The view of a package identity: registry, name and version.
pub type PackageKey = (Seq<char>, Seq<char>, Seq<char>);

/// A package identity.  Two packages are the same package exactly when all
/// three fields match.
#[derive(Debug)]
pub struct Package {
    pub registry: String,
    pub name: String,
    pub version: String,
}

impl View for Package {
    type V = PackageKey;

    open spec fn view(&self) -> PackageKey {
        (self.registry@, self.name@, self.version@)
    }
}

/// The view of an optional package identity.
pub open spec fn opt_package_view(o: Option<Package>) -> Option<PackageKey> {
    match o {
        None => None,
        Some(p) => Some(p@),
    }
}

impl Package {
    /// Whether two packages are the same package.
    pub fn equals(&self, other: &Package) -> (r: bool)
        ensures
            r == (self@ == other@),
    {
        self.registry == other.registry && self.name == other.name && self.version
            == other.version
    }
}

} // verus!
