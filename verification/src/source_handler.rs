//! Resolving the source of a package to the revision that is checked out.

use vstd::prelude::*;
use vstd::string::StringExecFns;
use crate::package::{Source, SourceView};
use crate::text::{slice_text_of, text_of};

verus! {

/// Why a source could not be resolved or fetched.
#[derive(Debug)]
pub enum GitSourceHandlerError {
    /// The working directory could not be created; holds the reason.
    FailedCreatingTempDirError(String),
    /// Cloning, resolving the revision or checking it out failed; holds the
    /// reason that git gave.
    FailedFetchingGitRepoError(String),
    /// The source names its revision in more than one way.
    InvalidSpecifications(String),
    /// The source is of a kind that cannot be fetched.
    Unsupported,
}

impl GitSourceHandlerError {
    /// The error in words.
    pub fn message(&self) -> (text: String)
        ensures
            text@ == match *self {
                GitSourceHandlerError::FailedCreatingTempDirError(reason) => {
                    "Failed to create temp dir: "@ + reason@
                },
                GitSourceHandlerError::FailedFetchingGitRepoError(reason) => {
                    "Failed to clone git repo: "@ + reason@
                },
                GitSourceHandlerError::InvalidSpecifications(reason) => {
                    "Unsupported source type: "@ + reason@
                },
                GitSourceHandlerError::Unsupported => "Unsupported source type"@,
            },
    {
        match self {
            GitSourceHandlerError::FailedCreatingTempDirError(reason) => String::from_str(
                "Failed to create temp dir: ",
            ).concat(reason.as_str()),
            GitSourceHandlerError::FailedFetchingGitRepoError(reason) => String::from_str(
                "Failed to clone git repo: ",
            ).concat(reason.as_str()),
            GitSourceHandlerError::InvalidSpecifications(reason) => String::from_str(
                "Unsupported source type: ",
            ).concat(reason.as_str()),
            GitSourceHandlerError::Unsupported => String::from_str("Unsupported source type"),
        }
    }
}

/// A git source that names its revision in at most one way.
#[derive(Debug)]
pub struct GitSource<'a> {
    pub repo: &'a str,
    pub tag: Option<&'a str>,
    pub branch: Option<&'a str>,
    pub commit: Option<&'a str>,
}

impl<'a> View for GitSource<'a> {
    type V = SourceView;

    open spec fn view(&self) -> SourceView {
        SourceView {
            repo: self.repo@,
            tag: slice_text_of(self.tag),
            branch: slice_text_of(self.branch),
            commit: slice_text_of(self.commit),
        }
    }
}

/// The same optional text, borrowed.
fn borrow_text<'a>(text: &'a Option<String>) -> (r: Option<&'a str>)
    ensures
        slice_text_of(r) == text_of(*text),
{
    match text {
        Some(t) => Some(t.as_str()),
        None => None,
    }
}

impl<'a> GitSource<'a> {
    /// Holds when at most one of commit, tag and branch is given.
    pub open spec fn wf(&self) -> bool {
        self@.specifier_count() <= 1
    }

    /// Checks that `source` names its revision in at most one way, and
    /// borrows its fields. A source with two or three of commit, tag and
    /// branch is refused with `InvalidSpecifications`.
    pub fn from_source(source: &'a Source) -> (r: Result<Self, GitSourceHandlerError>)
        ensures
            r is Ok <==> source@.specifier_count() <= 1,
            r matches Ok(g) ==> g@ == source@ && g.wf(),
            r matches Err(e) ==> e matches GitSourceHandlerError::InvalidSpecifications(m) && m@
                == "Only one of commit, tag, or branch may be specified"@,
    {
        match source {
            Source::Git { repo, tag, branch, commit } => {
                let mut given: u8 = 0;
                if commit.is_some() {
                    given = given + 1;
                }
                if tag.is_some() {
                    given = given + 1;
                }
                if branch.is_some() {
                    given = given + 1;
                }
                if given > 1 {
                    return Err(
                        GitSourceHandlerError::InvalidSpecifications(
                            String::from_str("Only one of commit, tag, or branch may be specified"),
                        ),
                    );
                }
                Ok(
                    GitSource {
                        repo: repo.as_str(),
                        tag: borrow_text(tag),
                        branch: borrow_text(branch),
                        commit: borrow_text(commit),
                    },
                )
            },
        }
    }
}

/// The revision that a fetch checks out.
#[derive(Debug)]
pub enum CheckoutTarget {
    /// The commit with this object id, written in hexadecimal.
    Commit(String),
    /// The revision that this full reference name points to.
    Reference(String),
    /// Whatever the head of the cloned repository points to.
    Head,
}

/// What a [`CheckoutTarget`] says, as mathematical values.
pub enum CheckoutTargetView {
    Commit(Seq<char>),
    Reference(Seq<char>),
    Head,
}

impl View for CheckoutTarget {
    type V = CheckoutTargetView;

    open spec fn view(&self) -> CheckoutTargetView {
        match *self {
            CheckoutTarget::Commit(id) => CheckoutTargetView::Commit(id@),
            CheckoutTarget::Reference(name) => CheckoutTargetView::Reference(name@),
            CheckoutTarget::Head => CheckoutTargetView::Head,
        }
    }
}

/// Holds for the digits `0`-`9` and the letters `a`-`f` and `A`-`F`.
pub open spec fn is_hex_digit(c: char) -> bool {
    ('0' <= c && c <= '9') || ('a' <= c && c <= 'f') || ('A' <= c && c <= 'F')
}

/// Holds for the texts that git reads as an object id, whole or abbreviated:
/// one to forty hexadecimal digits.
pub open spec fn is_object_id_text(text: Seq<char>) -> bool {
    &&& 1 <= text.len() <= 40
    &&& forall|i: int| 0 <= i < text.len() ==> is_hex_digit(#[trigger] text[i])
}

/// The target that a source resolves to: the commit if one is given, else
/// the tag, else the branch, else the head of the repository.
pub open spec fn target_of(source: SourceView) -> CheckoutTargetView {
    match source.commit {
        Some(id) => CheckoutTargetView::Commit(id),
        None => match source.tag {
            Some(tag) => CheckoutTargetView::Reference("refs/tags/"@ + tag),
            None => match source.branch {
                Some(branch) => CheckoutTargetView::Reference("refs/heads/"@ + branch),
                None => CheckoutTargetView::Head,
            },
        },
    }
}

/// Calls `git2::Oid::from_str`, which parses a hexadecimal object id.
///
/// Trusted: the parse succeeds exactly on one to forty hexadecimal digits,
/// as the documentation of `from_str` says of its errors. On failure the
/// result carries the message of git's error, of which nothing is claimed.
#[verifier::external_body]
fn parse_object_id(text: &str) -> (r: Result<(), String>)
    ensures
        r is Ok <==> is_object_id_text(text@),
{
    match git2::Oid::from_str(text) {
        Ok(_) => Ok(()),
        Err(e) => Err(e.message().to_string()),
    }
}

/// Resolves one validated git source to what is checked out.
pub struct GitSourceHandler<'a> {
    source: GitSource<'a>,
}

impl<'a> GitSourceHandler<'a> {
    /// The source that this handler resolves.
    pub closed spec fn source(&self) -> SourceView {
        self.source@
    }

    /// A handler for `source`.
    pub fn new(source: GitSource<'a>) -> (handler: Self)
        ensures
            handler.source() == source@,
    {
        Self { source }
    }

    /// The location of the repository to clone.
    pub fn repo(&self) -> (repo: &'a str)
        ensures
            repo@ == self.source().repo,
    {
        self.source.repo
    }

    /// Chooses what to check out of the cloned repository, by the priority
    /// commit, tag, branch, head. A tag or branch becomes its full reference
    /// name. A commit must be an object id in hexadecimal; one that is not
    /// is refused with `FailedFetchingGitRepoError`, and nothing else is.
    pub fn checkout_target(&self) -> (r: Result<CheckoutTarget, GitSourceHandlerError>)
        ensures
            r is Err <==> (self.source().commit matches Some(id) && !is_object_id_text(id)),
            r matches Ok(target) ==> target@ == target_of(self.source()),
            r matches Err(e) ==> e is FailedFetchingGitRepoError,
    {
        match self.source.commit {
            Some(commit) => match parse_object_id(commit) {
                Ok(()) => Ok(CheckoutTarget::Commit(String::from_str(commit))),
                Err(reason) => Err(GitSourceHandlerError::FailedFetchingGitRepoError(reason)),
            },
            None => match self.source.tag {
                Some(tag) => Ok(
                    CheckoutTarget::Reference(String::from_str("refs/tags/").concat(tag)),
                ),
                None => match self.source.branch {
                    Some(branch) => Ok(
                        CheckoutTarget::Reference(String::from_str("refs/heads/").concat(branch)),
                    ),
                    None => Ok(CheckoutTarget::Head),
                },
            },
        }
    }
}

} // verus!
