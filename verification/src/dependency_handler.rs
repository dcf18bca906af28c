//! Deciding which dependencies of a package to install, and installing
//! them through the package manager.
//!
//! A dependency that is installed is left alone if its version meets the
//! requirement, and installed anew if not. One that is not installed is
//! installed only if the version on offer meets the requirement. Whatever
//! goes wrong with one dependency is recorded and the next one is taken up:
//! a batch is never cut short.

use vstd::prelude::*;
use crate::manager::{answer_view, PackageManagerApi, PackageManagerError, VersionAnswer};
use crate::package::{dependency_views, Dependencies, Dependency, DependencyView};
use crate::text::{text_of, texts};
use crate::version::{requirement_of, VersionRequirement};

verus! {

/// What went wrong with one dependency.
#[derive(Debug)]
pub enum DependencyError {
    /// The package manager failed to install it.
    InstallFailed { dependency: String, source: PackageManagerError },
    /// The package manager could not say whether it is installed.
    InstalledVersionCheckFailed { dependency: String, source: PackageManagerError },
    /// It is not installed, and the package manager offers no version of
    /// it or could not say which.
    AvailableVersionCheckFailed { dependency: String, source: PackageManagerError },
}

/// What a [`DependencyError`] says, as mathematical values.
pub enum DependencyErrorView {
    InstallFailed { dependency: Seq<char>, source: PackageManagerError },
    InstalledVersionCheckFailed { dependency: Seq<char>, source: PackageManagerError },
    AvailableVersionCheckFailed { dependency: Seq<char>, source: PackageManagerError },
}

impl View for DependencyError {
    type V = DependencyErrorView;

    open spec fn view(&self) -> DependencyErrorView {
        match *self {
            DependencyError::InstallFailed { dependency, source } => {
                DependencyErrorView::InstallFailed { dependency: dependency@, source }
            },
            DependencyError::InstalledVersionCheckFailed { dependency, source } => {
                DependencyErrorView::InstalledVersionCheckFailed { dependency: dependency@, source }
            },
            DependencyError::AvailableVersionCheckFailed { dependency, source } => {
                DependencyErrorView::AvailableVersionCheckFailed { dependency: dependency@, source }
            },
        }
    }
}

/// The views of a list of errors, in the same order.
pub open spec fn error_views(errors: Seq<DependencyError>) -> Seq<DependencyErrorView> {
    errors.map_values(|e: DependencyError| e@)
}

/// The list that holds `item` if there is one, and nothing else.
pub open spec fn optional<A>(item: Option<A>) -> Seq<A> {
    match item {
        Some(a) => seq![a],
        None => seq![],
    }
}

/// Holds when `version` meets the requirement `version_req`. No
/// requirement is met by every version.
pub open spec fn requirement_met(version_req: Option<Seq<char>>, version: Seq<char>) -> bool {
    match version_req {
        Some(req) => requirement_of(req).satisfied_by(version),
        None => true,
    }
}

/// What is decided of one dependency before anything is installed:
/// whether to install it, and the error to record if its state could not
/// be found out.
pub struct Decision {
    pub install: bool,
    pub error: Option<DependencyErrorView>,
}

/// The decision on a dependency that is not installed, from what the
/// package manager answered when asked which version it offers. It is
/// installed only if the version on offer meets the requirement; if none
/// is on offer, or the answer failed, that is an error and nothing is
/// installed.
pub open spec fn decision_from_available(dep: DependencyView, available: VersionAnswer) -> Decision {
    match available {
        Ok(Some(version)) => Decision {
            install: requirement_met(dep.version_req, version),
            error: None,
        },
        Ok(None) => Decision {
            install: false,
            error: Some(
                DependencyErrorView::AvailableVersionCheckFailed {
                    dependency: dep.name,
                    source: PackageManagerError::NoVersionFound,
                },
            ),
        },
        Err(e) => Decision {
            install: false,
            error: Some(
                DependencyErrorView::AvailableVersionCheckFailed { dependency: dep.name, source: e },
            ),
        },
    }
}

/// The decision on a dependency, from what the package manager answered
/// when asked which version is installed and, if none is, which one it
/// offers. An installed dependency is installed anew exactly if its version
/// does not meet the requirement. If the first answer failed, that is an
/// error and nothing is installed.
pub open spec fn decision_of(
    dep: DependencyView,
    installed: VersionAnswer,
    available: VersionAnswer,
) -> Decision {
    match installed {
        Ok(Some(version)) => Decision {
            install: !requirement_met(dep.version_req, version),
            error: None,
        },
        Ok(None) => decision_from_available(dep, available),
        Err(e) => Decision {
            install: false,
            error: Some(
                DependencyErrorView::InstalledVersionCheckFailed { dependency: dep.name, source: e },
            ),
        },
    }
}

/// What the package manager answered while one dependency was handled.
/// The second answer counts only if the first was that nothing is
/// installed, the third only if the decision was to install.
pub struct Answers {
    pub installed: VersionAnswer,
    pub available: VersionAnswer,
    pub install: Result<(), PackageManagerError>,
}

impl Answers {
    /// The decision that these answers lead to.
    pub open spec fn decision(self, dep: DependencyView) -> Decision {
        decision_of(dep, self.installed, self.available)
    }

    /// The errors recorded for the dependency: at most one, from the
    /// decision or from an installation that failed.
    pub open spec fn errors(self, dep: DependencyView) -> Seq<DependencyErrorView> {
        let decision = self.decision(dep);
        if decision.install {
            install_errors(dep, self.install)
        } else {
            optional(decision.error)
        }
    }

    /// The name of the dependency if it was installed, and nothing if it
    /// was not.
    pub open spec fn installed_names(self, dep: DependencyView) -> Seq<Seq<char>> {
        if self.decision(dep).install && self.install is Ok {
            seq![dep.name]
        } else {
            seq![]
        }
    }
}

/// The errors recorded over a batch, in the order of the dependencies.
pub open spec fn batch_errors(deps: Seq<DependencyView>, answers: Seq<Answers>) -> Seq<
    DependencyErrorView,
>
    decreases deps.len(),
{
    if deps.len() == 0 || answers.len() != deps.len() {
        seq![]
    } else {
        batch_errors(deps.drop_last(), answers.drop_last()) + answers.last().errors(deps.last())
    }
}

/// The names installed over a batch, in the order of the dependencies.
pub open spec fn batch_installed(deps: Seq<DependencyView>, answers: Seq<Answers>) -> Seq<
    Seq<char>,
>
    decreases deps.len(),
{
    if deps.len() == 0 || answers.len() != deps.len() {
        seq![]
    } else {
        batch_installed(deps.drop_last(), answers.drop_last()) + answers.last().installed_names(
            deps.last(),
        )
    }
}

/// Holds when the package manager, in the state `pm`, may have given the
/// two answers on which the decision rests.
pub open spec fn asked<PM: PackageManagerApi>(pm: &PM, dep: DependencyView, answers: Answers) -> bool {
    &&& pm.reports_installed(dep.name, answers.installed)
    &&& answers.installed == Ok::<Option<Seq<char>>, PackageManagerError>(None)
        ==> pm.reports_available(dep.name, answers.available)
}

/// Holds when handling one dependency may have taken the package manager
/// from `before` to `after` with these answers: it was asked, and then
/// told to install exactly if that was decided.
pub open spec fn handled<PM: PackageManagerApi>(
    before: &PM,
    dep: DependencyView,
    answers: Answers,
    after: &PM,
) -> bool {
    &&& asked(before, dep, answers)
    &&& if answers.decision(dep).install {
        before.installs(dep.name, answers.install, after)
    } else {
        *after == *before
    }
}

/// Holds when handling the dependencies one after the other may have taken
/// the package manager from `before` to `after`, through `states`, with
/// these answers.
pub open spec fn is_trace<PM: PackageManagerApi>(
    before: &PM,
    deps: Seq<DependencyView>,
    answers: Seq<Answers>,
    states: Seq<PM>,
    after: &PM,
) -> bool {
    &&& answers.len() == deps.len()
    &&& states.len() == deps.len() + 1
    &&& states[0] == *before
    &&& states[deps.len() as int] == *after
    &&& forall|i: int|
        0 <= i < deps.len() ==> handled(&states[i], deps[i], #[trigger] answers[i], &states[i + 1])
}

/// Holds when handling the dependencies may have gone as `answers` and
/// `states` say, and has added to the errors and installed what these
/// answers imply.
pub open spec fn is_batch_run<PM: PackageManagerApi>(
    before: &PM,
    deps: Seq<DependencyView>,
    answers: Seq<Answers>,
    states: Seq<PM>,
    after: &PM,
    errors_before: Seq<DependencyErrorView>,
    errors_after: Seq<DependencyErrorView>,
    installed: Seq<Seq<char>>,
) -> bool {
    &&& is_trace(before, deps, answers, states, after)
    &&& errors_after == errors_before + batch_errors(deps, answers)
    &&& installed == batch_installed(deps, answers)
}

/// The errors that the outcome of an installation adds.
pub open spec fn install_errors(dep: DependencyView, outcome: Result<(), PackageManagerError>) -> Seq<
    DependencyErrorView,
> {
    match outcome {
        Ok(_) => seq![],
        Err(e) => seq![DependencyErrorView::InstallFailed { dependency: dep.name, source: e }],
    }
}

/// Holds when `install` and the errors added are what `answers`, which
/// the package manager may have given, lead to.
spec fn is_decided<PM: PackageManagerApi>(
    pm: &PM,
    dep: DependencyView,
    answers: Answers,
    install: bool,
    errors_before: Seq<DependencyErrorView>,
    errors_after: Seq<DependencyErrorView>,
) -> bool {
    &&& asked(pm, dep, answers)
    &&& install == answers.decision(dep).install
    &&& errors_after == errors_before + optional(answers.decision(dep).error)
}

/// The same for a dependency that is not installed and the one answer
/// `available`.
spec fn is_decided_from_available<PM: PackageManagerApi>(
    pm: &PM,
    dep: DependencyView,
    available: VersionAnswer,
    install: bool,
    errors_before: Seq<DependencyErrorView>,
    errors_after: Seq<DependencyErrorView>,
) -> bool {
    &&& pm.reports_available(dep.name, available)
    &&& install == decision_from_available(dep, available).install
    &&& errors_after == errors_before + optional(decision_from_available(dep, available).error)
}

/// Holds when the package manager may have been told to install the
/// dependency with `outcome`, and `installed` and the errors added are what
/// that outcome leads to.
spec fn is_install_tried<PM: PackageManagerApi>(
    before: &PM,
    dep: DependencyView,
    outcome: Result<(), PackageManagerError>,
    after: &PM,
    installed: bool,
    errors_before: Seq<DependencyErrorView>,
    errors_after: Seq<DependencyErrorView>,
) -> bool {
    &&& before.installs(dep.name, outcome, after)
    &&& installed == outcome is Ok
    &&& errors_after == errors_before + install_errors(dep, outcome)
}

/// Tells whether `installed_version` meets `version_requirement`.
pub fn check_version(version_requirement: &Option<String>, installed_version: &str) -> (ok: bool)
    ensures
        ok == requirement_met(text_of(*version_requirement), installed_version@),
{
    match version_requirement {
        Some(req) => {
            let requirement = VersionRequirement::parse_requirement(req.as_str());
            requirement.matches(installed_version)
        },
        None => true,
    }
}

/// Adds `error` at the end of `errors`.
fn record(errors: &mut Vec<DependencyError>, error: DependencyError)
    ensures
        error_views(final(errors)@) == error_views(old(errors)@).push(error@),
{
    errors.push(error);
}

/// Decides on a dependency from the answer to the question which version
/// of it is installed. The result is the decision, or `None` where nothing
/// is installed and the package manager must be asked what it offers. An
/// answer that failed is recorded in `errors`.
pub fn decide_from_installed(
    dependency: &Dependency,
    installed: Result<Option<String>, PackageManagerError>,
    errors: &mut Vec<DependencyError>,
) -> (install: Option<bool>)
    ensures
        match answer_view(installed) {
            Ok(Some(version)) => {
                &&& install == Some(!requirement_met(dependency@.version_req, version))
                &&& error_views(final(errors)@) == error_views(old(errors)@)
            },
            Ok(None) => install is None && error_views(final(errors)@) == error_views(
                old(errors)@,
            ),
            Err(e) => {
                &&& install == Some(false)
                &&& error_views(final(errors)@) == error_views(old(errors)@).push(
                    DependencyErrorView::InstalledVersionCheckFailed {
                        dependency: dependency@.name,
                        source: e,
                    },
                )
            },
        },
{
    match installed {
        Ok(Some(installed_version)) => {
            Some(!check_version(&dependency.version_req, installed_version.as_str()))
        },
        Ok(None) => None,
        Err(e) => {
            record(
                errors,
                DependencyError::InstalledVersionCheckFailed {
                    dependency: dependency.name.clone(),
                    source: e,
                },
            );
            Some(false)
        },
    }
}

/// Decides on a dependency that is not installed, from the answer to the
/// question which version the package manager offers. An answer that
/// failed, or that there is none, is recorded in `errors`.
pub fn decide_from_available(
    dependency: &Dependency,
    available: Result<Option<String>, PackageManagerError>,
    errors: &mut Vec<DependencyError>,
) -> (install: bool)
    ensures
        install == decision_from_available(dependency@, answer_view(available)).install,
        error_views(final(errors)@) == error_views(old(errors)@) + optional(
            decision_from_available(dependency@, answer_view(available)).error,
        ),
{
    match available {
        Ok(Some(available_version)) => {
            check_version(&dependency.version_req, available_version.as_str())
        },
        Ok(None) => {
            record(
                errors,
                DependencyError::AvailableVersionCheckFailed {
                    dependency: dependency.name.clone(),
                    source: PackageManagerError::NoVersionFound,
                },
            );
            false
        },
        Err(e) => {
            record(
                errors,
                DependencyError::AvailableVersionCheckFailed {
                    dependency: dependency.name.clone(),
                    source: e,
                },
            );
            false
        },
    }
}

/// Takes note of how the installation of a dependency ended: tells
/// whether it is installed now, and records a failure in `errors`.
pub fn record_install(
    dependency: &Dependency,
    outcome: Result<(), PackageManagerError>,
    errors: &mut Vec<DependencyError>,
) -> (installed: bool)
    ensures
        installed == outcome is Ok,
        error_views(final(errors)@) == error_views(old(errors)@) + install_errors(
            dependency@,
            outcome,
        ),
{
    match outcome {
        Ok(()) => {
            true
        },
        Err(e) => {
            record(
                errors,
                DependencyError::InstallFailed { dependency: dependency.name.clone(), source: e },
            );
            false
        },
    }
}

/// Installs the dependencies of one package through a package manager.
pub struct DependencyHandler<'a, PM: PackageManagerApi> {
    pub package_manager: &'a mut PM,
    pub dependencies: Dependencies,
}

impl<'a, PM: PackageManagerApi> DependencyHandler<'a, PM> {
    /// A handler that installs `dependencies` through `package_manager`.
    pub fn new(package_manager: &'a mut PM, dependencies: Dependencies) -> (handler: Self)
        ensures
            handler.dependencies == dependencies,
            *handler.package_manager == *old(package_manager),
            *final(handler.package_manager) == *final(package_manager),
    {
        DependencyHandler { package_manager, dependencies }
    }

    /// Installs the runtime dependencies that need it, in their order. What
    /// goes wrong is added to `errors`; what is installed stays installed
    /// and is not kept track of.
    pub fn install_runtime_dependencies(&mut self, errors: &mut Vec<DependencyError>)
        ensures
            final(self).dependencies == old(self).dependencies,
            *final(final(self).package_manager) == *final(old(self).package_manager),
            exists|answers: Seq<Answers>, states: Seq<PM>| #[trigger]
                is_batch_run(
                    old(self).package_manager,
                    dependency_views(old(self).dependencies.runtime@),
                    answers,
                    states,
                    final(self).package_manager,
                    error_views(old(errors)@),
                    error_views(final(errors)@),
                    batch_installed(dependency_views(old(self).dependencies.runtime@), answers),
                ),
    {
        let _ = Self::install_batch(self.package_manager, &self.dependencies.runtime, errors);
    }

    /// Installs the build dependencies that need it, in their order, and
    /// returns the names of those that were installed, for their removal
    /// after the build. What goes wrong is added to `errors`.
    pub fn install_build_dependencies(&mut self, errors: &mut Vec<DependencyError>) -> (installed:
        Vec<String>)
        ensures
            final(self).dependencies == old(self).dependencies,
            *final(final(self).package_manager) == *final(old(self).package_manager),
            exists|answers: Seq<Answers>, states: Seq<PM>| #[trigger]
                is_batch_run(
                    old(self).package_manager,
                    dependency_views(old(self).dependencies.build@),
                    answers,
                    states,
                    final(self).package_manager,
                    error_views(old(errors)@),
                    error_views(final(errors)@),
                    texts(installed@),
                ),
    {
        Self::install_batch(self.package_manager, &self.dependencies.build, errors)
    }

    /// Handles the dependencies one after the other: decides, installs
    /// where that was decided, and goes on whatever happened.
    fn install_batch(
        package_manager: &mut PM,
        dependencies: &Vec<Dependency>,
        errors: &mut Vec<DependencyError>,
    ) -> (installed: Vec<String>)
        ensures
            exists|answers: Seq<Answers>, states: Seq<PM>| #[trigger]
                is_batch_run(
                    old(package_manager),
                    dependency_views(dependencies@),
                    answers,
                    states,
                    final(package_manager),
                    error_views(old(errors)@),
                    error_views(final(errors)@),
                    texts(installed@),
                ),
    {
        let mut installed: Vec<String> = Vec::new();
        let ghost deps = dependency_views(dependencies@);
        let ghost mut answers: Seq<Answers> = Seq::empty();
        let ghost mut states: Seq<PM> = seq![*package_manager];
        let mut i: usize = 0;
        proof {
            assert(texts(installed@) =~= batch_installed(deps.take(0), answers));
        }
        while i < dependencies.len()
            invariant
                i <= dependencies@.len(),
                deps == dependency_views(dependencies@),
                is_batch_run(
                    old(package_manager),
                    deps.take(i as int),
                    answers,
                    states,
                    package_manager,
                    error_views(old(errors)@),
                    error_views(errors@),
                    texts(installed@),
                ),
            decreases dependencies@.len() - i,
        {
            let dependency = &dependencies[i];
            let ghost dep = dependency@;
            let ghost before = *package_manager;
            let ghost errors_before = error_views(errors@);
            let install = Self::dependency_needs_installing(package_manager, dependency, errors);
            // What the package manager answered is known only to exist.
            let ghost mut step: Answers = choose|a: Answers| #[trigger]
                is_decided(&before, dep, a, install, errors_before, error_views(errors@));
            if install {
                let ghost errors_decided = error_views(errors@);
                let done = Self::install_dependency(package_manager, dependency, errors);
                proof {
                    let outcome: Result<(), PackageManagerError> = choose|
                        o: Result<(), PackageManagerError>,
                    | #[trigger]
                        is_install_tried(
                            &before,
                            dep,
                            o,
                            package_manager,
                            done,
                            errors_decided,
                            error_views(errors@),
                        );
                    step =
                    Answers { installed: step.installed, available: step.available, install: outcome };
                }
                if done {
                    installed.push(dependency.name.clone());
                }
            }
            proof {
                let next = deps.take(i + 1);
                let answers_before = answers;
                answers = answers.push(step);
                states = states.push(*package_manager);
                assert(next.drop_last() =~= deps.take(i as int));
                assert(answers.drop_last() =~= answers_before);
                assert(error_views(errors@) =~= error_views(old(errors)@) + batch_errors(
                    next,
                    answers,
                ));
                assert(texts(installed@) =~= batch_installed(next, answers));
            }
            i = i + 1;
        }
        proof {
            assert(deps.take(i as int) =~= deps);
        }
        installed
    }

    /// Asks the package manager what is installed and, if nothing is, what
    /// it offers, and decides from the answers whether the dependency is to
    /// be installed.
    fn dependency_needs_installing(
        package_manager: &PM,
        dependency: &Dependency,
        errors: &mut Vec<DependencyError>,
    ) -> (install: bool)
        ensures
            exists|answers: Answers| #[trigger]
                is_decided(
                    package_manager,
                    dependency@,
                    answers,
                    install,
                    error_views(old(errors)@),
                    error_views(final(errors)@),
                ),
    {
        let installed = package_manager.get_installed_version(dependency.name.as_str());
        let ghost installed_answer = answer_view(installed);
        match decide_from_installed(dependency, installed, errors) {
            Some(install) => {
                proof {
                    // Of the answers that were not asked for, any will do.
                    let answers = Answers {
                        installed: installed_answer,
                        available: installed_answer,
                        install: Ok(()),
                    };
                    assert(error_views(errors@) =~= error_views(old(errors)@) + optional(
                        answers.decision(dependency@).error,
                    ));
                    assert(is_decided(
                        package_manager,
                        dependency@,
                        answers,
                        install,
                        error_views(old(errors)@),
                        error_views(errors@),
                    ));
                }
                install
            },
            None => {
                let ghost errors_before = error_views(errors@);
                let install = Self::check_not_installed_availability(
                    package_manager,
                    dependency,
                    errors,
                );
                proof {
                    let available: VersionAnswer = choose|available: VersionAnswer| #[trigger]
                        is_decided_from_available(
                            package_manager,
                            dependency@,
                            available,
                            install,
                            errors_before,
                            error_views(errors@),
                        );
                    let answers = Answers { installed: installed_answer, available, install: Ok(()) };
                    assert(is_decided(
                        package_manager,
                        dependency@,
                        answers,
                        install,
                        error_views(old(errors)@),
                        error_views(errors@),
                    ));
                }
                install
            },
        }
    }

    /// Asks the package manager which version of a dependency that is not
    /// installed it offers, and decides from the answer.
    fn check_not_installed_availability(
        package_manager: &PM,
        dependency: &Dependency,
        errors: &mut Vec<DependencyError>,
    ) -> (install: bool)
        ensures
            exists|available: VersionAnswer| #[trigger]
                is_decided_from_available(
                    package_manager,
                    dependency@,
                    available,
                    install,
                    error_views(old(errors)@),
                    error_views(final(errors)@),
                ),
    {
        let available = package_manager.get_available_version(dependency.name.as_str());
        let ghost answer = answer_view(available);
        let install = decide_from_available(dependency, available, errors);
        assert(is_decided_from_available(
            package_manager,
            dependency@,
            answer,
            install,
            error_views(old(errors)@),
            error_views(errors@),
        ));
        install
    }

    /// Tells the package manager to install a dependency, and takes note
    /// of how that ended.
    fn install_dependency(
        package_manager: &mut PM,
        dependency: &Dependency,
        errors: &mut Vec<DependencyError>,
    ) -> (installed: bool)
        ensures
            exists|outcome: Result<(), PackageManagerError>| #[trigger]
                is_install_tried(
                    old(package_manager),
                    dependency@,
                    outcome,
                    final(package_manager),
                    installed,
                    error_views(old(errors)@),
                    error_views(final(errors)@),
                ),
    {
        let outcome = package_manager.install(dependency.name.as_str());
        let installed = record_install(dependency, outcome, errors);
        assert(is_install_tried(
            old(package_manager),
            dependency@,
            outcome,
            package_manager,
            installed,
            error_views(old(errors)@),
            error_views(errors@),
        ));
        installed
    }
}

/// A dependency that is installed at a version that meets its requirement
/// is left alone: nothing is installed and nothing is recorded.
pub proof fn lemma_satisfied_dependency_is_left_alone(
    dep: DependencyView,
    answers: Answers,
    version: Seq<char>,
)
    requires
        answers.installed == Ok::<Option<Seq<char>>, PackageManagerError>(Some(version)),
        requirement_met(dep.version_req, version),
    ensures
        !answers.decision(dep).install,
        answers.errors(dep) == Seq::<DependencyErrorView>::empty(),
        answers.installed_names(dep) == Seq::<Seq<char>>::empty(),
{
}

/// A dependency that is neither installed nor on offer is not installed,
/// and exactly one error is recorded for it: that no version was found.
pub proof fn lemma_unknown_dependency_is_reported(dep: DependencyView, answers: Answers)
    requires
        answers.installed == Ok::<Option<Seq<char>>, PackageManagerError>(None),
        answers.available == Ok::<Option<Seq<char>>, PackageManagerError>(None),
    ensures
        !answers.decision(dep).install,
        answers.errors(dep) == seq![
            DependencyErrorView::AvailableVersionCheckFailed {
                dependency: dep.name,
                source: PackageManagerError::NoVersionFound,
            },
        ],
        answers.installed_names(dep) == Seq::<Seq<char>>::empty(),
{
}

/// Nothing is installed without a decision free of errors: a dependency
/// leaves either its name, or one error, or nothing.
pub proof fn lemma_name_or_error(dep: DependencyView, answers: Answers)
    ensures
        answers.errors(dep).len() + answers.installed_names(dep).len() <= 1,
        answers.decision(dep).install ==> answers.decision(dep).error is None,
        answers.installed_names(dep).len() == 1 ==> answers.installed_names(dep)[0] == dep.name,
{
}

/// Over a batch, every dependency leaves at most one name or error.
pub proof fn lemma_batch_is_bounded(deps: Seq<DependencyView>, answers: Seq<Answers>)
    requires
        answers.len() == deps.len(),
    ensures
        batch_errors(deps, answers).len() + batch_installed(deps, answers).len() <= deps.len(),
    decreases deps.len(),
{
    if deps.len() > 0 {
        lemma_batch_is_bounded(deps.drop_last(), answers.drop_last());
        lemma_name_or_error(deps.last(), answers.last());
    }
}

/// Of two dependencies that are both to be installed, where the first
/// installation succeeds and the second fails: the names installed are
/// that of the first alone, and the errors are one `InstallFailed` for the
/// second.
pub proof fn lemma_one_installed_one_failed(
    first: DependencyView,
    second: DependencyView,
    first_answers: Answers,
    second_answers: Answers,
    cause: PackageManagerError,
)
    requires
        first_answers.decision(first).install,
        first_answers.install is Ok,
        second_answers.decision(second).install,
        second_answers.install == Err::<(), PackageManagerError>(cause),
    ensures
        batch_installed(seq![first, second], seq![first_answers, second_answers]) == seq![
            first.name,
        ],
        batch_errors(seq![first, second], seq![first_answers, second_answers]) == seq![
            DependencyErrorView::InstallFailed { dependency: second.name, source: cause },
        ],
{
    let deps = seq![first, second];
    let answers = seq![first_answers, second_answers];
    reveal_with_fuel(batch_installed, 3);
    reveal_with_fuel(batch_errors, 3);
}

} // verus!
