//! The host's package manager: what any backend must offer, and the command
//! lines and answers of the three that are known (pacman, apt and dnf).
//!
//! Nothing here runs a process. [`PackageManager`] says which command to
//! run for an operation and what its outcome means; whoever runs it hands
//! the outcome back as a [`CommandOutcome`].

use vstd::prelude::*;
use vstd::string::{StrSliceExecFns, StringExecFns};
use crate::structured_version::{is_version, parses_as_version};
use crate::text::{is_token, is_whitespace, next_word, slice_texts, text_of, texts};

verus! {

/// Why an operation of a package manager failed.
#[derive(Debug, Clone, Copy, PartialEq, Eq, Structural)]
pub enum PackageManagerError {
    UnknownManager,
    FailedInstall,
    FailedUninstall,
    FailedGetVersion,
    NoVersionFound,
}

impl PackageManagerError {
    /// The error in words.
    pub fn message(&self) -> (text: String)
        ensures
            text@ == match *self {
                PackageManagerError::UnknownManager => "Unknown package manager"@,
                PackageManagerError::FailedInstall => "Failed to install package"@,
                PackageManagerError::FailedUninstall => "Failed to uninstall package"@,
                PackageManagerError::FailedGetVersion => "Failed to get package version"@,
                PackageManagerError::NoVersionFound => "No Package Version was found"@,
            },
    {
        match self {
            PackageManagerError::UnknownManager => String::from_str("Unknown package manager"),
            PackageManagerError::FailedInstall => String::from_str("Failed to install package"),
            PackageManagerError::FailedUninstall => String::from_str("Failed to uninstall package"),
            PackageManagerError::FailedGetVersion => String::from_str(
                "Failed to get package version",
            ),
            PackageManagerError::NoVersionFound => String::from_str("No Package Version was found"),
        }
    }
}

/// What a package manager answers when asked for a version, as
/// mathematical values: the version, `None` where it knows of none, or the
/// reason why it could not be asked.
pub type VersionAnswer = Result<Option<Seq<char>>, PackageManagerError>;

/// The view of an answer to a version query.
pub open spec fn answer_view(answer: Result<Option<String>, PackageManagerError>) -> VersionAnswer {
    match answer {
        Ok(version) => Ok(text_of(version)),
        Err(e) => Err(e),
    }
}

/// What the library asks of a package manager.
///
/// The four operations come with four spec functions that say what an
/// implementation promises of them, and the contracts of the library's
/// own functions are stated over these. An implementation whose behaviour
/// is known, such as one in memory, gives them a body. The bodies given
/// here promise nothing, which is all that can be said of a manager that
/// works on the host: there a package may come and go between two calls.
pub trait PackageManagerApi {
    /// What `install` promises: from this state, installing `package` may
    /// end with `outcome` and leave the manager as `after`.
    open spec fn installs(
        &self,
        package: Seq<char>,
        outcome: Result<(), PackageManagerError>,
        after: &Self,
    ) -> bool {
        true
    }

    /// What `uninstall` promises, in the same way.
    open spec fn uninstalls(
        &self,
        package: Seq<char>,
        outcome: Result<(), PackageManagerError>,
        after: &Self,
    ) -> bool {
        true
    }

    /// What `get_installed_version` promises: in this state, `answer` may
    /// be given for `package`.
    open spec fn reports_installed(&self, package: Seq<char>, answer: VersionAnswer) -> bool {
        true
    }

    /// What `get_available_version` promises, in the same way.
    open spec fn reports_available(&self, package: Seq<char>, answer: VersionAnswer) -> bool {
        true
    }

    /// Installs `package`.
    fn install(&mut self, package: &str) -> (outcome: Result<(), PackageManagerError>)
        ensures
            old(self).installs(package@, outcome, final(self)),
    ;

    /// Uninstalls `package`.
    fn uninstall(&mut self, package: &str) -> (outcome: Result<(), PackageManagerError>)
        ensures
            old(self).uninstalls(package@, outcome, final(self)),
    ;

    /// The version of `package` that is installed, or `None` if none is.
    /// An error means that the manager could not be asked.
    fn get_installed_version(&self, package: &str) -> (answer: Result<
        Option<String>,
        PackageManagerError,
    >)
        ensures
            self.reports_installed(package@, answer_view(answer)),
    ;

    /// The version of `package` that the manager offers, or `None` if it
    /// offers none. An error means that the manager could not be asked.
    fn get_available_version(&self, package: &str) -> (answer: Result<
        Option<String>,
        PackageManagerError,
    >)
        ensures
            self.reports_available(package@, answer_view(answer)),
    ;
}

/// The package managers that are known.
#[derive(Debug, Clone, Copy, PartialEq, Eq, Structural)]
pub enum ManagerKind {
    Pacman,
    Apt,
    Dnf,
}

/// What a package manager can be asked to do.
#[derive(Debug, Clone, Copy, PartialEq, Eq, Structural)]
pub enum Operation {
    Install,
    Uninstall,
    QueryInstalled,
    QueryAvailable,
}

/// The directories that each package manager keeps on a host where it is
/// installed. One of them is enough to tell that it is there.
pub open spec fn marker_paths(kind: ManagerKind) -> Seq<Seq<char>> {
    match kind {
        ManagerKind::Pacman => seq!["/usr/lib/pacman"@, "/var/lib/pacman"@],
        ManagerKind::Apt => seq!["/usr/lib/apt"@, "/var/lib/apt"@],
        ManagerKind::Dnf => seq!["/usr/lib/dnf"@, "/var/lib/dnf"@],
    }
}

/// The name of the binary of each package manager.
pub open spec fn binary_name(kind: ManagerKind) -> Seq<char> {
    match kind {
        ManagerKind::Pacman => "pacman"@,
        ManagerKind::Apt => "apt"@,
        ManagerKind::Dnf => "dnf"@,
    }
}

/// The arguments that make each package manager do each operation; the
/// name of the package follows them.
pub open spec fn flags_of(kind: ManagerKind, op: Operation) -> Seq<Seq<char>> {
    match (kind, op) {
        (ManagerKind::Pacman, Operation::Install) => seq!["-S"@, "--noconfirm"@],
        (ManagerKind::Pacman, Operation::Uninstall) => seq!["-R"@, "--noconfirm"@],
        (ManagerKind::Pacman, Operation::QueryInstalled) => seq!["-Q"@],
        (ManagerKind::Pacman, Operation::QueryAvailable) => seq!["-Si"@],
        (ManagerKind::Apt, Operation::Install) => seq!["install"@, "-y"@],
        (ManagerKind::Apt, Operation::Uninstall) => seq!["remove"@, "-y"@],
        (ManagerKind::Apt, Operation::QueryInstalled) => seq!["list"@, "--installed"@],
        (ManagerKind::Apt, Operation::QueryAvailable) => seq!["list"@],
        (ManagerKind::Dnf, Operation::Install) => seq!["install"@, "-y"@],
        (ManagerKind::Dnf, Operation::Uninstall) => seq!["uninstall"@, "-y"@],
        (ManagerKind::Dnf, Operation::QueryInstalled) => seq!["list"@, "installed"@],
        (ManagerKind::Dnf, Operation::QueryAvailable) => seq!["list"@, "available"@],
    }
}

/// The words that go before the binary: `sudo` in privileged mode.
pub open spec fn prefix_of(sudo: bool) -> Seq<Seq<char>> {
    if sudo {
        seq!["sudo"@]
    } else {
        seq![]
    }
}

/// The whole command line of an operation on a package: the prefix, the
/// binary, the flags of the operation, the package.
pub open spec fn command_line(
    sudo: bool,
    kind: ManagerKind,
    op: Operation,
    package: Seq<char>,
) -> Seq<Seq<char>> {
    prefix_of(sudo) + seq![binary_name(kind)] + flags_of(kind, op) + seq![package]
}

/// The error that stands for a failure of each operation. A query for
/// what is on offer is made on the way to installing, and counts as a
/// failure to install.
pub open spec fn failure_of(op: Operation) -> PackageManagerError {
    match op {
        Operation::Install => PackageManagerError::FailedInstall,
        Operation::Uninstall => PackageManagerError::FailedUninstall,
        Operation::QueryInstalled => PackageManagerError::FailedGetVersion,
        Operation::QueryAvailable => PackageManagerError::FailedInstall,
    }
}

/// How running a command ended.
#[derive(Debug, Clone)]
pub enum CommandOutcome {
    /// The process could not be started.
    SpawnFailed,
    /// The process ran to its end: whether it reported success, and what it
    /// wrote to its standard output.
    Exited { success: bool, stdout: String },
}

/// Holds when the characters of `text` from `start` up to `end` are a
/// token that is a structured version.
pub open spec fn is_version_token(text: Seq<char>, start: int, end: int) -> bool {
    is_token(text, start, end) && parses_as_version(text.subrange(start, end))
}

/// Holds when no token of `text` that starts before `limit` is a structured
/// version.
pub open spec fn no_version_before(text: Seq<char>, limit: int) -> bool {
    forall|start: int, end: int| #[trigger]
        is_token(text, start, end) && start < limit ==> !parses_as_version(
            text.subrange(start, end),
        )
}

/// Holds when the token of `text` from `start` up to `end` is its first
/// that is a structured version.
pub open spec fn is_first_version(text: Seq<char>, start: int, end: int) -> bool {
    is_version_token(text, start, end) && no_version_before(text, start)
}

/// Tells whether something exists at `path`.
///
/// Calls `std::path::Path::exists`. Trusted, and nothing is claimed: the
/// answer is the file system's.
#[verifier::external_body]
fn path_exists(path: &str) -> bool {
    std::path::Path::new(path).exists()
}

/// Tells whether something exists at one of `paths`, asking for each in
/// turn until one is found. Of no paths none exists.
fn any_exists(paths: &Vec<&'static str>) -> (found: bool)
    ensures
        paths@.len() == 0 ==> !found,
{
    let mut i: usize = 0;
    while i < paths.len()
        invariant
            i <= paths@.len(),
        decreases paths@.len() - i,
    {
        if path_exists(paths[i]) {
            return true;
        }
        i = i + 1;
    }
    false
}

/// Adds `words` at the end of `line`.
fn push_words(line: &mut Vec<String>, words: &Vec<&'static str>)
    ensures
        texts(final(line)@) == texts(old(line)@) + slice_texts(words@),
{
    let mut i: usize = 0;
    while i < words.len()
        invariant
            i <= words@.len(),
            texts(line@) == texts(old(line)@) + slice_texts(words@.take(i as int)),
        decreases words@.len() - i,
    {
        let ghost before = line@;
        line.push(String::from_str(words[i]));
        assert(texts(line@) =~= texts(before).push(words@[i as int]@));
        i = i + 1;
    }
}

/// One of the known package managers, run with or without `sudo`.
#[derive(Debug)]
pub struct PackageManager {
    pub kind: ManagerKind,
    pub sudo: bool,
}

impl PackageManager {
    /// The package manager of the given kind, run with `sudo` or without.
    pub fn new(kind: ManagerKind, sudo: bool) -> (pm: Self)
        ensures
            pm.kind == kind,
            pm.sudo == sudo,
    {
        PackageManager { kind, sudo }
    }

    /// The manager that the markers found on the host point to: pacman
    /// before apt, apt before dnf.
    pub open spec fn detected(pacman: bool, apt: bool, dnf: bool) -> Option<ManagerKind> {
        if pacman {
            Some(ManagerKind::Pacman)
        } else if apt {
            Some(ManagerKind::Apt)
        } else if dnf {
            Some(ManagerKind::Dnf)
        } else {
            None
        }
    }

    /// Chooses the package manager from what was found on the host: whether
    /// there are markers of pacman, of apt, of dnf. Without any there is no
    /// manager, and the result is `UnknownManager`.
    pub fn from_markers(pacman: bool, apt: bool, dnf: bool, sudo: bool) -> (r: Result<
        PackageManager,
        PackageManagerError,
    >)
        ensures
            match Self::detected(pacman, apt, dnf) {
                Some(kind) => r matches Ok(pm) && pm.kind == kind && pm.sudo == sudo,
                None => r matches Err(e) && e == PackageManagerError::UnknownManager,
            },
    {
        if pacman {
            Ok(PackageManager::new(ManagerKind::Pacman, sudo))
        } else if apt {
            Ok(PackageManager::new(ManagerKind::Apt, sudo))
        } else if dnf {
            Ok(PackageManager::new(ManagerKind::Dnf, sudo))
        } else {
            Err(PackageManagerError::UnknownManager)
        }
    }

    /// The directories to look for on the host to find out whether the
    /// package manager of the given kind is installed.
    pub fn markers(kind: ManagerKind) -> (paths: Vec<&'static str>)
        ensures
            slice_texts(paths@) == marker_paths(kind),
    {
        let mut paths: Vec<&'static str> = Vec::new();
        match kind {
            ManagerKind::Pacman => {
                paths.push("/usr/lib/pacman");
                paths.push("/var/lib/pacman");
            },
            ManagerKind::Apt => {
                paths.push("/usr/lib/apt");
                paths.push("/var/lib/apt");
            },
            ManagerKind::Dnf => {
                paths.push("/usr/lib/dnf");
                paths.push("/var/lib/dnf");
            },
        }
        assert(slice_texts(paths@) =~= marker_paths(kind));
        paths
    }

    /// Looks on the host for the directories that [`PackageManager::markers`]
    /// names for each kind, and chooses from what was found as
    /// [`PackageManager::from_markers`] does.
    pub fn get_package_manager(sudo: bool) -> (r: Result<PackageManager, PackageManagerError>)
        ensures
            r matches Ok(pm) ==> pm.sudo == sudo,
            r matches Err(e) ==> e == PackageManagerError::UnknownManager,
    {
        let pacman = any_exists(&Self::markers(ManagerKind::Pacman));
        let apt = any_exists(&Self::markers(ManagerKind::Apt));
        let dnf = any_exists(&Self::markers(ManagerKind::Dnf));
        Self::from_markers(pacman, apt, dnf, sudo)
    }

    /// The words that go before the binary.
    pub fn command_prefix(&self) -> (prefix: Vec<&'static str>)
        ensures
            slice_texts(prefix@) == prefix_of(self.sudo),
    {
        let mut prefix: Vec<&'static str> = Vec::new();
        if self.sudo {
            prefix.push("sudo");
        }
        prefix
    }

    /// The name of the binary.
    pub fn manager_string(&self) -> (name: &'static str)
        ensures
            name@ == binary_name(self.kind),
    {
        match self.kind {
            ManagerKind::Pacman => "pacman",
            ManagerKind::Apt => "apt",
            ManagerKind::Dnf => "dnf",
        }
    }

    /// The arguments that make this manager do `op`.
    pub fn flags(&self, op: Operation) -> (flags: Vec<&'static str>)
        ensures
            slice_texts(flags@) == flags_of(self.kind, op),
    {
        let mut flags: Vec<&'static str> = Vec::new();
        match (self.kind, op) {
            (ManagerKind::Pacman, Operation::Install) => {
                flags.push("-S");
                flags.push("--noconfirm");
            },
            (ManagerKind::Pacman, Operation::Uninstall) => {
                flags.push("-R");
                flags.push("--noconfirm");
            },
            (ManagerKind::Pacman, Operation::QueryInstalled) => {
                flags.push("-Q");
            },
            (ManagerKind::Pacman, Operation::QueryAvailable) => {
                flags.push("-Si");
            },
            (ManagerKind::Apt, Operation::Install) => {
                flags.push("install");
                flags.push("-y");
            },
            (ManagerKind::Apt, Operation::Uninstall) => {
                flags.push("remove");
                flags.push("-y");
            },
            (ManagerKind::Apt, Operation::QueryInstalled) => {
                flags.push("list");
                flags.push("--installed");
            },
            (ManagerKind::Apt, Operation::QueryAvailable) => {
                flags.push("list");
            },
            (ManagerKind::Dnf, Operation::Install) => {
                flags.push("install");
                flags.push("-y");
            },
            (ManagerKind::Dnf, Operation::Uninstall) => {
                flags.push("uninstall");
                flags.push("-y");
            },
            (ManagerKind::Dnf, Operation::QueryInstalled) => {
                flags.push("list");
                flags.push("installed");
            },
            (ManagerKind::Dnf, Operation::QueryAvailable) => {
                flags.push("list");
                flags.push("available");
            },
        }
        flags
    }

    /// The command line that does `op` on `package`: its first word is the
    /// program to run, the others are its arguments.
    pub fn command(&self, op: Operation, package: &str) -> (line: Vec<String>)
        ensures
            texts(line@) == command_line(self.sudo, self.kind, op, package@),
    {
        let mut line: Vec<String> = Vec::new();
        push_words(&mut line, &self.command_prefix());
        line.push(String::from_str(self.manager_string()));
        push_words(&mut line, &self.flags(op));
        let ghost flagged = line@;
        line.push(String::from_str(package));
        assert(texts(line@) =~= texts(flagged).push(package@));
        line
    }

    /// What the outcome of an installation or a removal means: the manager
    /// must have run and reported success, else the operation has failed.
    pub fn completion(&self, op: Operation, outcome: &CommandOutcome) -> (r: Result<
        (),
        PackageManagerError,
    >)
        ensures
            r is Ok <==> (*outcome matches CommandOutcome::Exited { success, .. } && success),
            r matches Err(e) ==> e == failure_of(op),
    {
        match outcome {
            CommandOutcome::Exited { success: true, .. } => Ok(()),
            _ => Err(Self::failure(op)),
        }
    }

    /// What the outcome of a version query means. A manager that ran has
    /// answered, whatever status it reported: the answer is the first token
    /// of its output that is a structured version, or `None`. Only a
    /// manager that could not be started is an error.
    pub fn reported_version(&self, op: Operation, outcome: &CommandOutcome) -> (r: Result<
        Option<String>,
        PackageManagerError,
    >)
        ensures
            match *outcome {
                CommandOutcome::SpawnFailed => r matches Err(e) && e == failure_of(op),
                CommandOutcome::Exited { stdout, .. } => r matches Ok(found) && match found {
                    Some(v) => exists|start: int, end: int| #[trigger]
                        is_first_version(stdout@, start, end) && v@ == stdout@.subrange(
                            start,
                            end,
                        ),
                    None => no_version_before(stdout@, stdout@.len() as int),
                },
            },
    {
        match outcome {
            CommandOutcome::SpawnFailed => Err(Self::failure(op)),
            CommandOutcome::Exited { stdout, .. } => Ok(self.parse_version(stdout.as_str())),
        }
    }

    /// The error that stands for a failure of `op`.
    pub fn failure(op: Operation) -> (e: PackageManagerError)
        ensures
            e == failure_of(op),
    {
        match op {
            Operation::Install => PackageManagerError::FailedInstall,
            Operation::Uninstall => PackageManagerError::FailedUninstall,
            Operation::QueryInstalled => PackageManagerError::FailedGetVersion,
            Operation::QueryAvailable => PackageManagerError::FailedInstall,
        }
    }

    /// Finds the first whitespace-delimited token of `input` that is a
    /// structured version.
    pub fn parse_version(&self, input: &str) -> (found: Option<String>)
        ensures
            match found {
                Some(v) => exists|start: int, end: int| #[trigger]
                    is_first_version(input@, start, end) && v@ == input@.subrange(start, end),
                None => no_version_before(input@, input@.len() as int),
            },
    {
        let mut from: usize = 0;
        loop
            invariant
                from <= input@.len(),
                from == 0 || from == input@.len() || is_whitespace(input@[from as int]),
                no_version_before(input@, from as int),
            decreases input@.len() - from,
        {
            match next_word(input, from) {
                None => {
                    assert forall|start: int, end: int| #[trigger]
                        is_token(input@, start, end) && start < input@.len() implies !parses_as_version(
                        input@.subrange(start, end),
                    ) by {
                        // Only whitespace is left, and no token begins with it.
                        if start >= from {
                            assert(is_whitespace(input@[start]));
                        }
                    }
                    return None;
                },
                Some((start, end)) => {
                    let word = input.substring_char(start, end);
                    if is_version(word) {
                        assert(is_first_version(input@, start as int, end as int)) by {
                            assert forall|s: int, e: int| #[trigger]
                                is_token(input@, s, e) && s < start implies !parses_as_version(
                                input@.subrange(s, e),
                            ) by {
                                if s >= from {
                                    assert(is_whitespace(input@[s]));
                                }
                            }
                        }
                        return Some(String::from_str(word));
                    }
                    assert forall|s: int, e: int| #[trigger]
                        is_token(input@, s, e) && s < end implies !parses_as_version(
                        input@.subrange(s, e),
                    ) by {
                        // A token begins at no whitespace and not inside a word.
                        if from <= s < start {
                            assert(is_whitespace(input@[s]));
                        }
                    }
                    from = end;
                },
            }
        }
    }
}

} // verus!
