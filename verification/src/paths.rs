use vstd::prelude::*;

use crate::text::append_str;

verus! {

/// The view of a sequence of path components.
pub open spec fn comps_view(s: Seq<String>) -> Seq<Seq<char>> {
    s.map_values(|c: String| c@)
}

/// A filesystem path, modelled as its components.
///
/// An absolute path `/a/b` has `absolute == true` and components `["a", "b"]`;
/// the filesystem root is absolute with no components.  A relative path is the
/// same with `absolute == false`.
#[derive(Debug)]
pub struct FsPath {
    pub absolute: bool,
    pub components: Vec<String>,
}

impl View for FsPath {
    type V = (bool, Seq<Seq<char>>);

    open spec fn view(&self) -> Self::V {
        (self.absolute, comps_view(self.components@))
    }
}

/// The components of a path joined by separators, without a leading separator.
pub open spec fn joined_comps(comps: Seq<Seq<char>>) -> Seq<char>
    decreases comps.len(),
{
    if comps.len() == 0 {
        Seq::empty()
    } else if comps.len() == 1 {
        comps.last()
    } else {
        joined_comps(comps.drop_last()) + "/"@ + comps.last()
    }
}

/// The textual rendering of a path view.
pub open spec fn path_text(p: (bool, Seq<Seq<char>>)) -> Seq<char> {
    if p.0 {
        if p.1.len() == 0 {
            "/"@
        } else {
            Seq::empty().push('/') + joined_comps(p.1)
        }
    } else {
        joined_comps(p.1)
    }
}

/// A copy of a component vector, component for component.
pub fn clone_components(v: &Vec<String>) -> (r: Vec<String>)
    ensures
        comps_view(r@) == comps_view(v@),
{
    let mut r: Vec<String> = Vec::new();
    let mut i: usize = 0;
    while i < v.len()
        invariant
            i <= v@.len(),
            r@.len() == i,
            forall|j: int| 0 <= j < i ==> r@[j]@ == v@[j]@,
        decreases v@.len() - i,
    {
        r.push(v[i].clone());
        i = i + 1;
    }
    proof {
        assert(comps_view(r@) =~= comps_view(v@));
    }
    r
}

impl FsPath {
    /// The filesystem root.
    pub fn root() -> (r: FsPath)
        ensures
            r@.0 == true,
            r@.1.len() == 0,
    {
        FsPath { absolute: true, components: Vec::new() }
    }

    /// An empty relative path.
    pub fn empty() -> (r: FsPath)
        ensures
            r@.0 == false,
            r@.1.len() == 0,
    {
        FsPath { absolute: false, components: Vec::new() }
    }

    /// The path extended by one more component.
    pub fn child(&self, name: String) -> (r: FsPath)
        ensures
            r@.0 == self@.0,
            r@.1 == self@.1.push(name@),
    {
        let mut components = clone_components(&self.components);
        components.push(name);
        let r = FsPath { absolute: self.absolute, components };
        proof {
            assert(r@.1 =~= self@.1.push(name@));
        }
        r
    }

    /// The path without its last component, or nothing for a path with no
    /// components.
    pub fn parent(&self) -> (r: Option<FsPath>)
        ensures
            self@.1.len() == 0 ==> r is None,
            self@.1.len() > 0 ==> (r matches Some(p) && p@.0 == self@.0 && p@.1
                == self@.1.drop_last()),
    {
        if self.components.len() == 0 {
            None
        } else {
            let mut components = clone_components(&self.components);
            let _ = components.pop();
            let p = FsPath { absolute: self.absolute, components };
            proof {
                assert(p@.1 =~= self@.1.drop_last());
            }
            Some(p)
        }
    }

    /// Whether two paths are the same path.
    pub fn equals(&self, other: &FsPath) -> (r: bool)
        ensures
            r == (self@ == other@),
    {
        if self.absolute != other.absolute {
            return false;
        }
        if self.components.len() != other.components.len() {
            proof {
                assert(self@.1.len() != other@.1.len());
            }
            return false;
        }
        let n = self.components.len();
        let mut i: usize = 0;
        while i < n
            invariant
                n == self.components@.len(),
                n == other.components@.len(),
                i <= n,
                self.absolute == other.absolute,
                forall|j: int| 0 <= j < i ==> self@.1[j] == other@.1[j],
            decreases n - i,
        {
            if !(self.components[i] == other.components[i]) {
                proof {
                    assert(self@.1[i as int] != other@.1[i as int]);
                }
                return false;
            }
            i = i + 1;
        }
        proof {
            assert(self@.1 =~= other@.1);
        }
        true
    }

    /// The path rendered as text, with components joined by separators.
    pub fn render(&self) -> (r: String)
        ensures
            r@ == path_text(self@),
    {
        proof {
            reveal_strlit("/");
            reveal_strlit("");
        }
        if self.components.len() == 0 {
            if self.absolute {
                return "/".to_owned();
            } else {
                return "".to_owned();
            }
        }
        let mut s = if self.absolute {
            "/".to_owned()
        } else {
            "".to_owned()
        };
        proof {
            if self.absolute {
                assert(s@ =~= Seq::empty().push('/'));
            } else {
                assert(s@ =~= Seq::<char>::empty());
            }
        }
        let ghost lead: Seq<char> = s@;
        let mut i: usize = 0;
        while i < self.components.len()
            invariant
                i <= self.components@.len(),
                self.components@.len() > 0,
                s@ == lead + joined_comps(self@.1.take(i as int)),
            decreases self.components@.len() - i,
        {
            if i > 0 {
                append_str(&mut s, "/");
            }
            append_str(&mut s, self.components[i].as_str());
            proof {
                let t = self@.1.take(i + 1 as int);
                assert(t.drop_last() =~= self@.1.take(i as int));
                assert(t.last() == self@.1[i as int]);
                if i == 0 {
                    assert(joined_comps(t) == t.last());
                    assert(s@ =~= lead + joined_comps(self@.1.take(i + 1 as int)));
                } else {
                    assert(joined_comps(t) == joined_comps(t.drop_last()) + "/"@ + t.last());
                    assert(s@ =~= lead + joined_comps(self@.1.take(i + 1 as int)));
                }
            }
            i = i + 1;
        }
        proof {
            assert(self@.1.take(self.components@.len() as int) =~= self@.1);
        }
        s
    }
}

} // verus!
