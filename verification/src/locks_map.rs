use vstd::prelude::*;

use crate::lock::{opt_lock_view, Lock};
use crate::package::{Package, PackageKey};

verus! {

/// One entry of the mapping: a package and its optional lock record.
pub type LockEntry = (Package, Option<Lock>);

/// Whether no package appears twice among the entries.
pub open spec fn entries_unique(es: Seq<LockEntry>) -> bool {
    forall|i: int, j: int| 0 <= i < j < es.len() ==> es[i].0@ != es[j].0@
}

/// The mathematical mapping the entries stand for.
pub open spec fn map_of(es: Seq<LockEntry>) -> Map<PackageKey, Option<Seq<char>>>
    decreases es.len(),
{
    if es.len() == 0 {
        Map::empty()
    } else {
        map_of(es.drop_last()).insert(es.last().0@, opt_lock_view(es.last().1))
    }
}

proof fn lemma_map_of_contains(es: Seq<LockEntry>, k: PackageKey)
    ensures
        map_of(es).contains_key(k) <==> exists|i: int| 0 <= i < es.len() && es[i].0@ == k,
    decreases es.len(),
{
    if es.len() > 0 {
        lemma_map_of_contains(es.drop_last(), k);
        if map_of(es).contains_key(k) {
            if k == es.last().0@ {
                assert(es[es.len() - 1].0@ == k);
            } else {
                let i = choose|i: int| 0 <= i < es.drop_last().len() && es.drop_last()[i].0@ == k;
                assert(es.drop_last()[i] == es[i]);
                assert(es[i].0@ == k);
            }
        }
        if exists|i: int| 0 <= i < es.len() && es[i].0@ == k {
            let i = choose|i: int| 0 <= i < es.len() && es[i].0@ == k;
            if i < es.len() - 1 {
                assert(es.drop_last()[i] == es[i]);
                assert(es.drop_last()[i].0@ == k);
            }
            assert(map_of(es).contains_key(k));
        }
    }
}

proof fn lemma_map_of_index(es: Seq<LockEntry>, i: int)
    requires
        entries_unique(es),
        0 <= i < es.len(),
    ensures
        map_of(es).contains_key(es[i].0@),
        map_of(es)[es[i].0@] == opt_lock_view(es[i].1),
    decreases es.len(),
{
    if i < es.len() - 1 {
        assert(entries_unique(es.drop_last()));
        assert(es.drop_last()[i] == es[i]);
        lemma_map_of_index(es.drop_last(), i);
        assert(es[i].0@ != es.last().0@);
    }
}

proof fn lemma_map_of_remove(es: Seq<LockEntry>, i: int)
    requires
        entries_unique(es),
        0 <= i < es.len(),
    ensures
        entries_unique(es.remove(i)),
        map_of(es.remove(i)) == map_of(es).remove(es[i].0@),
    decreases es.len(),
{
    let k = es[i].0@;
    es.remove_ensures(i);
    assert forall|a: int, b: int| 0 <= a < b < es.remove(i).len() implies es.remove(i)[a].0@
        != es.remove(i)[b].0@ by {
        let ea = if a < i {
            es[a]
        } else {
            es[a + 1]
        };
        let eb = if b < i {
            es[b]
        } else {
            es[b + 1]
        };
        assert(es.remove(i)[a] == ea);
        assert(es.remove(i)[b] == eb);
    }
    if i == es.len() - 1 {
        assert(es.remove(i) =~= es.drop_last());
        lemma_map_of_contains(es.drop_last(), k);
        if exists|j: int| 0 <= j < es.drop_last().len() && es.drop_last()[j].0@ == k {
            let j = choose|j: int| 0 <= j < es.drop_last().len() && es.drop_last()[j].0@ == k;
            assert(es[j] == es.drop_last()[j]);
            assert(false);
        }
        assert(!map_of(es.drop_last()).contains_key(k));
        assert(map_of(es).remove(k) =~= map_of(es.drop_last()));
    } else {
        assert(entries_unique(es.drop_last()));
        lemma_map_of_remove(es.drop_last(), i);
        assert(es.remove(i).drop_last() =~= es.drop_last().remove(i));
        assert(es.remove(i).last() == es[es.len() - 1]);
        let lk = es.last().0@;
        let lv = opt_lock_view(es.last().1);
        assert(lk != k);
        assert(map_of(es.remove(i)) == map_of(es.drop_last().remove(i)).insert(lk, lv));
        assert(map_of(es.drop_last()).remove(k).insert(lk, lv) =~= map_of(es.drop_last()).insert(
            lk,
            lv,
        ).remove(k));
        assert(map_of(es.remove(i)) =~= map_of(es).remove(k));
    }
}

proof fn lemma_map_of_card(es: Seq<LockEntry>)
    requires
        entries_unique(es),
    ensures
        map_of(es).dom().finite(),
        map_of(es).dom().len() == es.len(),
    decreases es.len(),
{
    if es.len() > 0 {
        assert(entries_unique(es.drop_last()));
        lemma_map_of_card(es.drop_last());
        let k = es.last().0@;
        lemma_map_of_contains(es.drop_last(), k);
        if exists|j: int| 0 <= j < es.drop_last().len() && es.drop_last()[j].0@ == k {
            let j = choose|j: int| 0 <= j < es.drop_last().len() && es.drop_last()[j].0@ == k;
            assert(es[j] == es.drop_last()[j]);
            assert(false);
        }
        assert(!map_of(es.drop_last()).contains_key(k));
        assert(map_of(es).dom() =~= map_of(es.drop_last()).dom().insert(k));
    }
}

/// The unified dependencies mapping: each resolved package, associated with
/// its optional lock record.  No package appears twice; iteration order is
/// an implementation detail, the meaning is the mapping itself.
pub struct PackageLockMap {
    entries: Vec<LockEntry>,
}

impl View for PackageLockMap {
    type V = Map<PackageKey, Option<Seq<char>>>;

    open spec fn view(&self) -> Self::V {
        map_of(self.entry_seq())
    }
}

impl PackageLockMap {
    /// The entries behind the mapping, in the order a positional walk over
    /// `entry_at` visits them.  The mapping's meaning is order-free — its
    /// view is the `Map` the entries stand for.
    pub closed spec fn entry_seq(&self) -> Seq<LockEntry> {
        self.entries@
    }

    /// Whether the entries are a well-formed mapping: no duplicate packages,
    /// so a positional walk meets every package exactly once.
    pub open spec fn wf(&self) -> bool {
        entries_unique(self.entry_seq())
    }

    /// An empty mapping.
    pub fn new() -> (r: Self)
        ensures
            r.wf(),
            r@ == Map::<PackageKey, Option<Seq<char>>>::empty(),
    {
        PackageLockMap { entries: Vec::new() }
    }

    /// How many packages the mapping holds.
    pub fn len(&self) -> (r: usize)
        requires
            self.wf(),
        ensures
            r == self@.dom().len(),
            r == self.entry_seq().len(),
    {
        proof {
            lemma_map_of_card(self.entries@);
        }
        self.entries.len()
    }

    /// The position of a package among the entries, if it is present.
    fn find_index(&self, package: &Package) -> (r: Option<usize>)
        ensures
            r matches Some(i) ==> (i < self.entries@.len() && self.entries@[i as int].0@
                == package@),
            r is None ==> forall|i: int|
                0 <= i < self.entries@.len() ==> self.entries@[i].0@ != package@,
    {
        let mut i: usize = 0;
        while i < self.entries.len()
            invariant
                i <= self.entries@.len(),
                forall|j: int| 0 <= j < i ==> self.entries@[j].0@ != package@,
            decreases self.entries@.len() - i,
        {
            if self.entries[i].0.equals(package) {
                return Some(i);
            }
            i = i + 1;
        }
        None
    }

    /// Whether a package is a key of the mapping.
    pub fn contains(&self, package: &Package) -> (r: bool)
        requires
            self.wf(),
        ensures
            r == self@.contains_key(package@),
    {
        match self.find_index(package) {
            Some(i) => {
                proof {
                    lemma_map_of_index(self.entries@, i as int);
                }
                true
            },
            None => {
                proof {
                    lemma_map_of_contains(self.entries@, package@);
                    if exists|j: int|
                        0 <= j < self.entries@.len() && self.entries@[j].0@ == package@ {
                        let j = choose|j: int|
                            0 <= j < self.entries@.len() && self.entries@[j].0@ == package@;
                        assert(false);
                    }
                }
                false
            },
        }
    }

    /// The optional lock record of a package, if the package is present.
    pub fn get(&self, package: &Package) -> (r: Option<&Option<Lock>>)
        requires
            self.wf(),
        ensures
            self@.contains_key(package@) ==> (r matches Some(v) && opt_lock_view(*v)
                == self@[package@]),
            !self@.contains_key(package@) ==> r is None,
    {
        match self.find_index(package) {
            Some(i) => {
                proof {
                    lemma_map_of_index(self.entries@, i as int);
                }
                Some(&self.entries[i].1)
            },
            None => {
                proof {
                    lemma_map_of_contains(self.entries@, package@);
                    if exists|j: int|
                        0 <= j < self.entries@.len() && self.entries@[j].0@ == package@ {
                        let j = choose|j: int|
                            0 <= j < self.entries@.len() && self.entries@[j].0@ == package@;
                        assert(false);
                    }
                }
                None
            },
        }
    }

    /// Associates a package with an optional lock record, replacing any
    /// earlier association of the same package.
    pub fn insert(&mut self, package: Package, lock: Option<Lock>)
        requires
            old(self).wf(),
        ensures
            final(self).wf(),
            final(self)@ == old(self)@.insert(package@, opt_lock_view(lock)),
    {
        let ghost es0 = self.entries@;
        let index = self.find_index(&package);
        match index {
            Some(i) => {
                let _ = self.entries.remove(i);
                proof {
                    lemma_map_of_remove(es0, i as int);
                    es0.remove_ensures(i as int);
                    assert forall|j: int| 0 <= j < self.entries@.len() implies self.entries@[j].0@
                        != package@ by {
                        let e = if j < i {
                            es0[j]
                        } else {
                            es0[j + 1]
                        };
                        assert(self.entries@[j] == e);
                    }
                }
            },
            None => {
            },
        }
        let ghost es1 = self.entries@;
        self.entries.push((package, lock));
        proof {
            assert(forall|j: int| 0 <= j < es1.len() ==> es1[j].0@ != package@);
            assert(self.entries@.drop_last() =~= es1);
            assert(self.entries@.last() == (package, lock));
            assert(entries_unique(self.entries@)) by {
                assert forall|a: int, b: int| 0 <= a < b < self.entries@.len() implies self
                    .entries@[a].0@ != self.entries@[b].0@ by {
                    if b == self.entries@.len() - 1 {
                        assert(self.entries@[a] == es1[a]);
                    } else {
                        assert(self.entries@[a] == es1[a]);
                        assert(self.entries@[b] == es1[b]);
                    }
                }
            }
            if index matches Some(i) {
                assert(map_of(es1) == map_of(es0).remove(package@));
                assert(map_of(self.entries@) =~= map_of(es0).insert(
                    package@,
                    opt_lock_view(lock),
                ));
            } else {
                assert(map_of(self.entries@) =~= map_of(es0).insert(
                    package@,
                    opt_lock_view(lock),
                ));
            }
        }
    }

    /// Removes a package's association, if any.
    pub fn remove(&mut self, package: &Package)
        requires
            old(self).wf(),
        ensures
            final(self).wf(),
            final(self)@ == old(self)@.remove(package@),
    {
        let ghost es0 = self.entries@;
        match self.find_index(package) {
            Some(i) => {
                let _ = self.entries.remove(i);
                proof {
                    lemma_map_of_remove(es0, i as int);
                }
            },
            None => {
                proof {
                    lemma_map_of_contains(es0, package@);
                    if exists|j: int| 0 <= j < es0.len() && es0[j].0@ == package@ {
                        let j = choose|j: int| 0 <= j < es0.len() && es0[j].0@ == package@;
                        assert(false);
                    }
                    assert(!map_of(es0).contains_key(package@));
                    assert(map_of(es0).remove(package@) =~= map_of(es0));
                }
            },
        }
    }

    /// One entry of the mapping, by position; for walking the whole mapping.
    pub fn entry_at(&self, index: usize) -> (r: &LockEntry)
        requires
            self.wf(),
            index < self@.dom().len(),
        ensures
            *r == self.entry_seq()[index as int],
            self@.contains_key(r.0@),
            self@[r.0@] == opt_lock_view(r.1),
    {
        proof {
            lemma_map_of_card(self.entries@);
            lemma_map_of_index(self.entries@, index as int);
        }
        &self.entries[index]
    }
}

} // verus!
