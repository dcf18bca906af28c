//! A package manager that lives in memory, for trying the library out
//! without a host: it knows which versions are on offer and which are
//! installed, and nothing it is told to do can fail.
//!
//! Since all it does is known, what the library does with it is known too:
//! the laws at the end of this file say so.

use vstd::prelude::*;
use vstd::hash_map::StringHashMap;
use vstd::string::StringExecFns;
use crate::build_dependency_guard::is_removal;
use crate::dependency_handler::{handled, requirement_met, Answers, DependencyErrorView};
use crate::manager::{PackageManagerApi, PackageManagerError, VersionAnswer};
use crate::package::DependencyView;
use crate::text::text_of;

verus! {

/// The versions that a table of strings holds, name by name.
pub open spec fn versions_of(table: Map<Seq<char>, String>) -> Map<Seq<char>, Seq<char>> {
    table.map_values(|version: String| version@)
}

/// The entry of `table` for `name`, if there is one.
pub open spec fn lookup(table: Map<Seq<char>, Seq<char>>, name: Seq<char>) -> Option<Seq<char>> {
    if table.contains_key(name) {
        Some(table[name])
    } else {
        None
    }
}

/// An in-memory package manager.
pub struct MockPackageManager {
    installed: StringHashMap<String>,
    available: StringHashMap<String>,
}

/// A copy of the version that `table` holds for `name`.
fn version_in(table: &StringHashMap<String>, name: &str) -> (version: Option<String>)
    ensures
        text_of(version) == lookup(versions_of(table@), name@),
{
    match table.get(name) {
        Some(version) => Some(version.clone()),
        None => None,
    }
}

/// Puts `version` into `table` under `name`.
fn enter(table: &mut StringHashMap<String>, name: &str, version: String)
    ensures
        versions_of(final(table)@) == versions_of(old(table)@).insert(name@, version@),
{
    table.insert(String::from_str(name), version);
}

impl MockPackageManager {
    /// The version that is installed of each package that is.
    pub closed spec fn installed(&self) -> Map<Seq<char>, Seq<char>> {
        versions_of(self.installed@)
    }

    /// The version that is on offer of each package that is.
    pub closed spec fn available(&self) -> Map<Seq<char>, Seq<char>> {
        versions_of(self.available@)
    }

    /// A manager that offers nothing and has nothing installed.
    pub fn new() -> (pm: Self)
        ensures
            pm.installed() == Map::<Seq<char>, Seq<char>>::empty(),
            pm.available() == Map::<Seq<char>, Seq<char>>::empty(),
    {
        let pm = Self { installed: StringHashMap::new(), available: StringHashMap::new() };
        pm
    }

    /// The same manager with `version` of `name` installed. What it offers
    /// does not change.
    pub fn with_installed(self, name: &str, version: &str) -> (pm: Self)
        ensures
            pm.installed() == self.installed().insert(name@, version@),
            pm.available() == self.available(),
    {
        let mut pm = self;
        enter(&mut pm.installed, name, String::from_str(version));
        pm
    }

    /// The same manager with `version` of `name` on offer. What is
    /// installed does not change.
    pub fn with_available(self, name: &str, version: &str) -> (pm: Self)
        ensures
            pm.available() == self.available().insert(name@, version@),
            pm.installed() == self.installed(),
    {
        let mut pm = self;
        enter(&mut pm.available, name, String::from_str(version));
        pm
    }
}

impl PackageManagerApi for MockPackageManager {
    /// Installing succeeds always. It installs the version on offer; a
    /// package of which none is on offer is left as it was.
    open spec fn installs(
        &self,
        package: Seq<char>,
        outcome: Result<(), PackageManagerError>,
        after: &Self,
    ) -> bool {
        &&& outcome is Ok
        &&& after.available() == self.available()
        &&& after.installed() == if self.available().contains_key(package) {
            self.installed().insert(package, self.available()[package])
        } else {
            self.installed()
        }
    }

    /// Uninstalling succeeds always, and after it the package is not
    /// installed.
    open spec fn uninstalls(
        &self,
        package: Seq<char>,
        outcome: Result<(), PackageManagerError>,
        after: &Self,
    ) -> bool {
        &&& outcome is Ok
        &&& after.available() == self.available()
        &&& after.installed() == self.installed().remove(package)
    }

    /// The answer is the installed version, or that there is none.
    open spec fn reports_installed(&self, package: Seq<char>, answer: VersionAnswer) -> bool {
        answer == Ok::<Option<Seq<char>>, PackageManagerError>(lookup(self.installed(), package))
    }

    /// The answer is the version on offer, or that there is none.
    open spec fn reports_available(&self, package: Seq<char>, answer: VersionAnswer) -> bool {
        answer == Ok::<Option<Seq<char>>, PackageManagerError>(lookup(self.available(), package))
    }

    fn install(&mut self, package: &str) -> (outcome: Result<(), PackageManagerError>) {
        match version_in(&self.available, package) {
            Some(version) => {
                enter(&mut self.installed, package, version);
            },
            None => {},
        }
        Ok(())
    }

    fn uninstall(&mut self, package: &str) -> (outcome: Result<(), PackageManagerError>) {
        self.installed.remove(package);
        assert(self.installed() =~= old(self).installed().remove(package@));
        Ok(())
    }

    fn get_installed_version(&self, package: &str) -> (answer: Result<
        Option<String>,
        PackageManagerError,
    >) {
        Ok(version_in(&self.installed, package))
    }

    fn get_available_version(&self, package: &str) -> (answer: Result<
        Option<String>,
        PackageManagerError,
    >) {
        Ok(version_in(&self.available, package))
    }
}

/// Of the in-memory package manager: a dependency that it has installed
/// at a version that meets the requirement is left alone. Nothing is
/// recorded, and the manager is as it was.
pub proof fn lemma_mock_leaves_satisfied_dependency(
    before: MockPackageManager,
    dep: DependencyView,
    answers: Answers,
    after: MockPackageManager,
)
    requires
        handled(&before, dep, answers, &after),
        before.installed().contains_key(dep.name),
        requirement_met(dep.version_req, before.installed()[dep.name]),
    ensures
        !answers.decision(dep).install,
        answers.errors(dep) == Seq::<DependencyErrorView>::empty(),
        answers.installed_names(dep) == Seq::<Seq<char>>::empty(),
        after == before,
{
}

/// Of the in-memory package manager: a dependency that it has neither
/// installed nor on offer is not installed. One error is recorded, that no
/// version was found, and the manager is as it was.
pub proof fn lemma_mock_reports_unknown_dependency(
    before: MockPackageManager,
    dep: DependencyView,
    answers: Answers,
    after: MockPackageManager,
)
    requires
        handled(&before, dep, answers, &after),
        !before.installed().contains_key(dep.name),
        !before.available().contains_key(dep.name),
    ensures
        !answers.decision(dep).install,
        answers.errors(dep) == seq![
            DependencyErrorView::AvailableVersionCheckFailed {
                dependency: dep.name,
                source: PackageManagerError::NoVersionFound,
            },
        ],
        answers.installed_names(dep) == Seq::<Seq<char>>::empty(),
        after == before,
{
}

/// Of the in-memory package manager: a dependency that is installed
/// because the version on offer meets the requirement is installed at that
/// version afterwards, and its name is returned; nothing else changes.
pub proof fn lemma_mock_installs_what_is_on_offer(
    before: MockPackageManager,
    dep: DependencyView,
    answers: Answers,
    after: MockPackageManager,
)
    requires
        handled(&before, dep, answers, &after),
        !before.installed().contains_key(dep.name),
        before.available().contains_key(dep.name),
        requirement_met(dep.version_req, before.available()[dep.name]),
    ensures
        answers.errors(dep) == Seq::<DependencyErrorView>::empty(),
        answers.installed_names(dep) == seq![dep.name],
        after.available() == before.available(),
        after.installed() == before.installed().insert(dep.name, before.available()[dep.name]),
{
}

/// What is left of `table` when the entries for `names` are taken out.
pub open spec fn without(table: Map<Seq<char>, Seq<char>>, names: Seq<Seq<char>>) -> Map<
    Seq<char>,
    Seq<char>,
> {
    Map::new(|n: Seq<char>| table.contains_key(n) && !names.contains(n), |n: Seq<char>| table[n])
}

/// After the first `k` removals, the in-memory package manager has lost
/// the first `k` names and nothing else.
proof fn lemma_removal_so_far(
    before: MockPackageManager,
    names: Seq<Seq<char>>,
    outcomes: Seq<Result<(), PackageManagerError>>,
    states: Seq<MockPackageManager>,
    after: MockPackageManager,
    k: int,
)
    requires
        is_removal(&before, names, outcomes, states, &after),
        0 <= k <= names.len(),
    ensures
        states[k].available() == before.available(),
        states[k].installed() == without(before.installed(), names.take(k)),
    decreases k,
{
    if k > 0 {
        lemma_removal_so_far(before, names, outcomes, states, after, k - 1);
        assert(states[k - 1].uninstalls(names[k - 1], outcomes[k - 1], &states[k - 1 + 1]));
        assert(names.take(k)[k - 1] == names[k - 1]);
    }
}

/// Of the in-memory package manager: when a guard has been released,
/// nothing that it held is installed any more, and whatever it did not
/// hold is installed as before. What is on offer has not changed.
pub proof fn lemma_released_from_mock(
    before: MockPackageManager,
    names: Seq<Seq<char>>,
    outcomes: Seq<Result<(), PackageManagerError>>,
    states: Seq<MockPackageManager>,
    after: MockPackageManager,
)
    requires
        is_removal(&before, names, outcomes, states, &after),
    ensures
        after.available() == before.available(),
        after.installed() == without(before.installed(), names),
        forall|n: Seq<char>| names.contains(n) ==> lookup(after.installed(), n) is None,
        forall|n: Seq<char>|
            !names.contains(n) ==> lookup(after.installed(), n) == lookup(before.installed(), n),
{
    lemma_removal_so_far(before, names, outcomes, states, after, names.len() as int);
    assert(names.take(names.len() as int) =~= names);
}

} // verus!
