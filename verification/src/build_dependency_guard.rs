//! Removing the dependencies that were installed only for a build.

use vstd::prelude::*;
use crate::manager::{PackageManagerApi, PackageManagerError};
use crate::text::texts;

verus! {

/// Holds when telling the package manager to uninstall `names`, one after
/// the other and whatever it answers, may have taken it from `before` to
/// `after`, through `states`, with these outcomes.
pub open spec fn is_removal<PM: PackageManagerApi>(
    before: &PM,
    names: Seq<Seq<char>>,
    outcomes: Seq<Result<(), PackageManagerError>>,
    states: Seq<PM>,
    after: &PM,
) -> bool {
    &&& outcomes.len() == names.len()
    &&& states.len() == names.len() + 1
    &&& states[0] == *before
    &&& states[names.len() as int] == *after
    &&& forall|i: int|
        0 <= i < names.len() ==> states[i].uninstalls(
            names[i],
            #[trigger] outcomes[i],
            &states[i + 1],
        )
}

/// The build dependencies that were installed for one build, and the
/// package manager that is to remove them when the build is over.
///
/// Only what `install_build_dependencies` returns belongs in `installed`:
/// runtime dependencies stay on the host.
pub struct BuildDependencyGuard<'a, PM: PackageManagerApi> {
    pub package_manager: &'a mut PM,
    pub installed: Vec<String>,
}

impl<'a, PM: PackageManagerApi> BuildDependencyGuard<'a, PM> {
    /// Ends the build: tells the package manager to uninstall every
    /// dependency that the guard holds, in their order. A removal that
    /// fails is passed over, so that it cannot hide what went wrong with
    /// the build; the others still take place. The guard is used up, and
    /// nothing is removed twice.
    pub fn release(self)
        ensures
            exists|outcomes: Seq<Result<(), PackageManagerError>>, states: Seq<PM>| #[trigger]
                is_removal(
                    old(self.package_manager),
                    texts(self.installed@),
                    outcomes,
                    states,
                    final(self.package_manager),
                ),
    {
        let BuildDependencyGuard { package_manager, installed } = self;
        let ghost names = texts(installed@);
        let ghost start = *package_manager;
        let ghost mut outcomes: Seq<Result<(), PackageManagerError>> = Seq::empty();
        let ghost mut states: Seq<PM> = seq![*package_manager];
        let mut i: usize = 0;
        while i < installed.len()
            invariant
                i <= installed@.len(),
                names == texts(installed@),
                is_removal(&start, names.take(i as int), outcomes, states, package_manager),
            decreases installed@.len() - i,
        {
            let outcome = package_manager.uninstall(installed[i].as_str());
            proof {
                outcomes = outcomes.push(outcome);
                states = states.push(*package_manager);
            }
            i = i + 1;
        }
        proof {
            assert(names.take(i as int) =~= names);
        }
    }
}

} // verus!
