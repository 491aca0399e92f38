//! The record of installed releases: for each installed package, the
//! version currently present. Viewed as a map from package name to
//! installed version.
//!
//! Creating and updating a release stand in for the external release
//! collaborator: resolving and downloading are out of scope, so the
//! latest resolvable version is an argument, supplied by the caller.

use vstd::prelude::*;

use crate::keymap::lemma_map_of_dom;
use crate::keymap::lemma_map_of_index;
use crate::keymap::lemma_map_of_push;
use crate::keymap::lemma_map_of_update;
use crate::keymap::map_of;
use crate::keymap::unique_keys;
use crate::model::resolved_version;
use crate::model::version_view;
use crate::model::Package;
use crate::model::Release;

verus! {

/// The record entries as key/value pairs: name and installed version.
pub open spec fn release_pairs(items: Seq<Release>) -> Seq<(Seq<char>, Seq<char>)> {
    items.map_values(|r: Release| (r.name@, r.version@))
}

/// The installed releases. A package has at most one release: names are
/// unique, and a release exists for a name exactly when that package has
/// been installed at least once.
pub struct ReleaseLookup {
    items: Vec<Release>,
}

impl View for ReleaseLookup {
    type V = Map<Seq<char>, Seq<char>>;

    closed spec fn view(&self) -> Map<Seq<char>, Seq<char>> {
        map_of(release_pairs(self.items@))
    }
}

impl ReleaseLookup {
    #[verifier::type_invariant]
    spec fn wf(&self) -> bool {
        unique_keys(release_pairs(self.items@))
    }

    /// An empty record: nothing installed.
    pub fn new() -> (r: Self)
        ensures
            r@ == Map::<Seq<char>, Seq<char>>::empty(),
    {
        let r = ReleaseLookup { items: Vec::new() };
        proof {
            assert(release_pairs(r.items@) =~= Seq::<(Seq<char>, Seq<char>)>::empty());
        }
        r
    }

    /// The index of the entry named `name`, if the record has one.
    fn position(&self, name: &String) -> (r: Option<usize>)
        ensures
            r matches Some(i) ==> i < self.items@.len() && self.items@[i as int].name@ == name@,
            r is None ==> forall|j: int|
                0 <= j < self.items@.len() ==> self.items@[j].name@ != name@,
    {
        let mut i: usize = 0;
        while i < self.items.len()
            invariant
                i <= self.items@.len(),
                forall|j: int| 0 <= j < i ==> self.items@[j].name@ != name@,
            decreases self.items@.len() - i,
        {
            if self.items[i].name == *name {
                return Some(i);
            }
            i += 1;
        }
        None
    }

    /// Whether an installed release exists for this name.
    pub fn has(&self, name: &String) -> (r: bool)
        ensures
            r == self@.dom().contains(name@),
    {
        proof {
            use_type_invariant(&*self);
            lemma_map_of_dom(release_pairs(self.items@), name@);
        }
        match self.position(name) {
            Some(i) => {
                proof {
                    assert(release_pairs(self.items@)[i as int].0 == name@);
                }
                true
            },
            None => false,
        }
    }

    /// The installed release for this package, if any.
    pub fn current(&self, pkg: &Package) -> (r: Option<Release>)
        ensures
            r is Some <==> self@.dom().contains(pkg.name@),
            r matches Some(rel) ==> rel.name@ == pkg.name@ && rel.version@ == self@[pkg.name@],
    {
        proof {
            use_type_invariant(&*self);
            lemma_map_of_dom(release_pairs(self.items@), pkg.name@);
        }
        match self.position(&pkg.name) {
            Some(i) => {
                proof {
                    assert(release_pairs(self.items@)[i as int].0 == pkg.name@);
                    lemma_map_of_index(release_pairs(self.items@), i as int);
                }
                let entry = &self.items[i];
                Some(Release { name: entry.name.clone(), version: entry.version.clone() })
            },
            None => None,
        }
    }

    /// Creates the release for a package that has none: it is installed at
    /// the requested version, or at `latest` when none was requested.
    pub fn create(&mut self, pkg: &Package, latest: &String) -> (r: Release)
        requires
            !old(self)@.dom().contains(pkg.name@),
        ensures
            r.name@ == pkg.name@,
            r.version@ == resolved_version(version_view(pkg.version), latest@),
            final(self)@ == old(self)@.insert(pkg.name@, r.version@),
    {
        proof {
            use_type_invariant(&*self);
            lemma_map_of_dom(release_pairs(self.items@), pkg.name@);
        }
        let version = match &pkg.version {
            Some(v) => v.clone(),
            None => latest.clone(),
        };
        let ghost old_items = self.items@;
        let ghost name = pkg.name@;
        let ghost installed = version@;
        proof {
            lemma_map_of_push(release_pairs(old_items), name, installed);
        }
        let mut items: Vec<Release> = Vec::new();
        std::mem::swap(&mut items, &mut self.items);
        proof {
            assert(release_pairs(Seq::<Release>::empty()) =~= Seq::<(Seq<char>, Seq<char>)>::empty());
        }
        items.push(Release { name: pkg.name.clone(), version: version.clone() });
        proof {
            assert(release_pairs(items@) =~= release_pairs(old_items).push((name, installed)));
        }
        self.items = items;
        Release { name: pkg.name.clone(), version }
    }

    /// Updates the release of an installed package: it is now at the
    /// requested version, or at `latest` when none was requested.
    pub fn update(&mut self, pkg: &Package, latest: &String) -> (r: Release)
        requires
            old(self)@.dom().contains(pkg.name@),
        ensures
            r.name@ == pkg.name@,
            r.version@ == resolved_version(version_view(pkg.version), latest@),
            final(self)@ == old(self)@.insert(pkg.name@, r.version@),
    {
        proof {
            use_type_invariant(&*self);
            lemma_map_of_dom(release_pairs(self.items@), pkg.name@);
        }
        let version = match &pkg.version {
            Some(v) => v.clone(),
            None => latest.clone(),
        };
        let ghost old_items = self.items@;
        let ghost name = pkg.name@;
        let ghost installed = version@;
        match self.position(&pkg.name) {
            Some(i) => {
                proof {
                    assert(release_pairs(old_items)[i as int].0 == name);
                    lemma_map_of_update(release_pairs(old_items), i as int, installed);
                }
                let mut items: Vec<Release> = Vec::new();
                std::mem::swap(&mut items, &mut self.items);
                proof {
                    assert(release_pairs(Seq::<Release>::empty()) =~= Seq::<(
                        Seq<char>,
                        Seq<char>,
                    )>::empty());
                }
                items[i] = Release { name: pkg.name.clone(), version: version.clone() };
                proof {
                    let pairs = release_pairs(items@);
                    assert(pairs =~= release_pairs(old_items).update(i as int, (name, installed)));
                    assert forall|a: int, b: int| 0 <= a < b < pairs.len() implies pairs[a].0
                        != pairs[b].0 by {
                        assert(release_pairs(old_items)[a].0 != release_pairs(old_items)[b].0);
                    }
                }
                self.items = items;
                Release { name: pkg.name.clone(), version }
            },
            None => {
                proof {
                    assert(false);
                }
                Release { name: pkg.name.clone(), version }
            },
        }
    }
}

} // verus!
