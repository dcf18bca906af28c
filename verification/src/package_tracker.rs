//! The record of what has been installed, package by package.
//!
//! The records stand in a list in which no name occurs twice, so that
//! whoever writes them out can walk them, and finds them in the order in
//! which the packages were first recorded.

use vstd::prelude::*;
use vstd::string::StringExecFns;
use crate::package::InstalledPackage;

verus! {

/// The records that a list holds, each under the name of its package; of
/// two with the same name the later one counts.
pub open spec fn records_of(packages: Seq<InstalledPackage>) -> Map<Seq<char>, InstalledPackage>
    decreases packages.len(),
{
    if packages.len() == 0 {
        Map::empty()
    } else {
        records_of(packages.drop_last()).insert(packages.last().name@, packages.last())
    }
}

/// Holds when no two records of the list are of the same package.
pub open spec fn distinct_names(packages: Seq<InstalledPackage>) -> bool {
    forall|i: int, j: int|
        0 <= i < j < packages.len() ==> (#[trigger] packages[i]).name@ != (
        #[trigger] packages[j]).name@
}

/// A name that no record of the list bears has no record.
proof fn lemma_unknown_name(packages: Seq<InstalledPackage>, name: Seq<char>)
    requires
        forall|i: int| 0 <= i < packages.len() ==> (#[trigger] packages[i]).name@ != name,
    ensures
        !records_of(packages).contains_key(name),
    decreases packages.len(),
{
    if packages.len() > 0 {
        lemma_unknown_name(packages.drop_last(), name);
    }
}

/// Where no name occurs twice, each record of the list is the record of
/// its name.
proof fn lemma_known_name(packages: Seq<InstalledPackage>, at: int)
    requires
        distinct_names(packages),
        0 <= at < packages.len(),
    ensures
        records_of(packages).contains_key(packages[at].name@),
        records_of(packages)[packages[at].name@] == packages[at],
    decreases packages.len(),
{
    let last = packages.len() - 1;
    if at < last {
        lemma_known_name(packages.drop_last(), at);
    }
}

/// Where no name occurs twice, putting a record in the place of the one
/// with the same name records it under that name and keeps the names
/// distinct.
proof fn lemma_replaced(packages: Seq<InstalledPackage>, at: int, pkg: InstalledPackage)
    requires
        distinct_names(packages),
        0 <= at < packages.len(),
        packages[at].name@ == pkg.name@,
    ensures
        distinct_names(packages.update(at, pkg)),
        records_of(packages.update(at, pkg)) == records_of(packages).insert(pkg.name@, pkg),
    decreases packages.len(),
{
    let updated = packages.update(at, pkg);
    let last = packages.len() - 1;
    if at == last {
        assert(updated.drop_last() =~= packages.drop_last());
    } else {
        lemma_replaced(packages.drop_last(), at, pkg);
        assert(updated.drop_last() =~= packages.drop_last().update(at, pkg));
    }
}

/// The installed packages, each under its name.
pub struct PackageTracker {
    packages: Vec<InstalledPackage>,
}

impl View for PackageTracker {
    type V = Map<Seq<char>, InstalledPackage>;

    closed spec fn view(&self) -> Map<Seq<char>, InstalledPackage> {
        records_of(self.packages@)
    }
}

impl Default for PackageTracker {
    /// A tracker that holds nothing.
    fn default() -> (tracker: Self)
        ensures
            tracker@ == Map::<Seq<char>, InstalledPackage>::empty(),
    {
        PackageTracker { packages: Vec::new() }
    }
}

impl PackageTracker {
    #[verifier::type_invariant]
    spec fn no_name_twice(self) -> bool {
        distinct_names(self.packages@)
    }

    /// Where in the list the record of `name` stands.
    fn position(&self, name: &str) -> (at: Option<usize>)
        ensures
            match at {
                Some(i) => i < self.packages@.len() && self.packages@[i as int].name@ == name@,
                None => forall|i: int|
                    0 <= i < self.packages@.len() ==> (#[trigger] self.packages@[i]).name@
                        != name@,
            },
    {
        let wanted = String::from_str(name);
        let mut i: usize = 0;
        while i < self.packages.len()
            invariant
                i <= self.packages@.len(),
                wanted@ == name@,
                forall|k: int| 0 <= k < i ==> (#[trigger] self.packages@[k]).name@ != name@,
            decreases self.packages@.len() - i,
        {
            if self.packages[i].name == wanted {
                return Some(i);
            }
            i = i + 1;
        }
        None
    }

    /// Records `pkg` under its name, in place of what was recorded under
    /// that name before.
    pub fn add_package(&mut self, pkg: InstalledPackage)
        ensures
            final(self)@ == old(self)@.insert(pkg.name@, pkg),
    {
        proof {
            use_type_invariant(&*self);
        }
        let found = self.position(pkg.name.as_str());
        let mut packages: Vec<InstalledPackage> = Vec::new();
        core::mem::swap(&mut self.packages, &mut packages);
        match found {
            Some(at) => {
                proof {
                    lemma_replaced(packages@, at as int, pkg);
                }
                packages.set(at, pkg);
            },
            None => {
                proof {
                    assert(packages@.push(pkg).drop_last() =~= packages@);
                }
                packages.push(pkg);
            },
        }
        core::mem::swap(&mut self.packages, &mut packages);
    }

    /// The record of the package `name`, if there is one.
    pub fn get_package(&self, name: &str) -> (found: Option<&InstalledPackage>)
        ensures
            match found {
                Some(pkg) => self@.contains_key(name@) && *pkg == self@[name@],
                None => !self@.contains_key(name@),
            },
    {
        proof {
            use_type_invariant(self);
        }
        match self.position(name) {
            Some(at) => {
                proof {
                    lemma_known_name(self.packages@, at as int);
                }
                Some(&self.packages[at])
            },
            None => {
                proof {
                    lemma_unknown_name(self.packages@, name@);
                }
                None
            },
        }
    }

    /// All records, one for each package, in the order in which the
    /// packages were first recorded.
    pub fn get_packages(&self) -> (packages: &Vec<InstalledPackage>)
        ensures
            records_of(packages@) == self@,
            distinct_names(packages@),
    {
        proof {
            use_type_invariant(self);
        }
        &self.packages
    }
}

} // verus!
