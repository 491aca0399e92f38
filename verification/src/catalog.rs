//! The package catalog: which packages exist, and the default version
//! stored with each. Viewed as a map from package name to stored default
//! version.

use vstd::prelude::*;

use crate::keymap::lemma_map_of_dom;
use crate::keymap::lemma_map_of_index;
use crate::keymap::lemma_map_of_push;
use crate::keymap::map_of;
use crate::keymap::unique_keys;
use crate::model::clone_version;
use crate::model::version_view;
use crate::model::Package;

verus! {

/// The catalog entries as key/value pairs: name and stored default version.
pub open spec fn package_pairs(items: Seq<Package>) -> Seq<(Seq<char>, Option<Seq<char>>)> {
    items.map_values(|p: Package| (p.name@, version_view(p.version)))
}

/// The catalog of known packages. Names are unique.
pub struct PackageLookup {
    items: Vec<Package>,
}

impl View for PackageLookup {
    type V = Map<Seq<char>, Option<Seq<char>>>;

    closed spec fn view(&self) -> Map<Seq<char>, Option<Seq<char>>> {
        map_of(package_pairs(self.items@))
    }
}

impl PackageLookup {
    #[verifier::type_invariant]
    spec fn wf(&self) -> bool {
        unique_keys(package_pairs(self.items@))
    }

    /// An empty catalog.
    pub fn new() -> (r: Self)
        ensures
            r@ == Map::<Seq<char>, Option<Seq<char>>>::empty(),
    {
        let r = PackageLookup { items: Vec::new() };
        proof {
            assert(package_pairs(r.items@) =~= Seq::<(Seq<char>, Option<Seq<char>>)>::empty());
        }
        r
    }

    /// Registers a package under a name the catalog does not know yet.
    pub fn add(&mut self, pkg: Package)
        requires
            !old(self)@.dom().contains(pkg.name@),
        ensures
            final(self)@ == old(self)@.insert(pkg.name@, version_view(pkg.version)),
    {
        proof {
            use_type_invariant(&*self);
            lemma_map_of_dom(package_pairs(self.items@), pkg.name@);
            lemma_map_of_push(package_pairs(self.items@), pkg.name@, version_view(pkg.version));
        }
        let ghost old_items = self.items@;
        let ghost name = pkg.name@;
        let ghost stored = version_view(pkg.version);
        let mut items: Vec<Package> = Vec::new();
        std::mem::swap(&mut items, &mut self.items);
        proof {
            assert(package_pairs(Seq::<Package>::empty()) =~= Seq::<(
                Seq<char>,
                Option<Seq<char>>,
            )>::empty());
        }
        items.push(pkg);
        proof {
            assert(package_pairs(items@) =~= package_pairs(old_items).push((name, stored)));
        }
        self.items = items;
    }

    /// The index of the entry named `name`, if the catalog has one.
    fn position(&self, name: &String) -> (r: Option<usize>)
        ensures
            r matches Some(i) ==> i < self.items@.len() && self.items@[i as int].name@ == name@,
            r is None ==> forall|j: int|
                0 <= j < self.items@.len() ==> self.items@[j].name@ != name@,
    {
        let mut i: usize = 0;
        while i < self.items.len()
            invariant
                i <= self.items@.len(),
                forall|j: int| 0 <= j < i ==> self.items@[j].name@ != name@,
            decreases self.items@.len() - i,
        {
            if self.items[i].name == *name {
                return Some(i);
            }
            i += 1;
        }
        None
    }

    /// Whether the catalog knows a package of this name.
    pub fn has(&self, name: &String) -> (r: bool)
        ensures
            r == self@.dom().contains(name@),
    {
        proof {
            use_type_invariant(&*self);
            lemma_map_of_dom(package_pairs(self.items@), name@);
        }
        match self.position(name) {
            Some(i) => {
                proof {
                    assert(package_pairs(self.items@)[i as int].0 == name@);
                }
                true
            },
            None => false,
        }
    }

    /// The package stored under this name, if any: its name and its
    /// stored default version.
    pub fn get(&self, name: &String) -> (r: Option<Package>)
        ensures
            r is Some <==> self@.dom().contains(name@),
            r matches Some(p) ==> p.name@ == name@ && version_view(p.version) == self@[name@],
    {
        proof {
            use_type_invariant(&*self);
            lemma_map_of_dom(package_pairs(self.items@), name@);
        }
        match self.position(name) {
            Some(i) => {
                proof {
                    assert(package_pairs(self.items@)[i as int].0 == name@);
                    lemma_map_of_index(package_pairs(self.items@), i as int);
                }
                let entry = &self.items[i];
                Some(Package { name: entry.name.clone(), version: clone_version(&entry.version) })
            },
            None => None,
        }
    }
}

} // verus!
