//! The package descriptor and the record kept of an installed package.
//!
//! These are plain data. Each type has a view that replaces its strings by
//! sequences of characters, so that contracts elsewhere can compare values
//! by content.

use vstd::prelude::*;
use crate::text::text_of;

verus! {

/// One dependency of a package: the name the host package manager knows it
/// by, and an optional version requirement such as `>=1.2`.
#[derive(Debug, Clone)]
pub struct Dependency {
    pub name: String,
    pub version_req: Option<String>,
}

/// What a [`Dependency`] says, as mathematical values.
pub struct DependencyView {
    pub name: Seq<char>,
    pub version_req: Option<Seq<char>>,
}

impl View for Dependency {
    type V = DependencyView;

    open spec fn view(&self) -> DependencyView {
        DependencyView { name: self.name@, version_req: text_of(self.version_req) }
    }
}

/// The views of a list of dependencies, in the same order.
pub open spec fn dependency_views(deps: Seq<Dependency>) -> Seq<DependencyView> {
    deps.map_values(|d: Dependency| d@)
}

/// The two dependency lists of a package. Runtime dependencies stay
/// installed; build dependencies are needed only while the package is built.
#[derive(Debug, Clone)]
pub struct Dependencies {
    pub runtime: Vec<Dependency>,
    pub build: Vec<Dependency>,
}

/// The ordered shell commands that build a package.
#[derive(Debug, Clone)]
pub struct Build {
    pub steps: Vec<String>,
}

/// Where the source of a package comes from.
#[derive(Debug, Clone, PartialEq)]
pub enum Source {
    /// A git repository, with at most one of tag, branch and commit naming
    /// the revision to check out.
    Git { repo: String, tag: Option<String>, branch: Option<String>, commit: Option<String> },
}

/// What a [`Source`] says, as mathematical values.
pub struct SourceView {
    pub repo: Seq<char>,
    pub tag: Option<Seq<char>>,
    pub branch: Option<Seq<char>>,
    pub commit: Option<Seq<char>>,
}

impl SourceView {
    /// How many of commit, tag and branch are given.
    pub open spec fn specifier_count(self) -> nat {
        let c: nat = if self.commit is Some { 1 } else { 0 };
        let t: nat = if self.tag is Some { 1 } else { 0 };
        let b: nat = if self.branch is Some { 1 } else { 0 };
        c + t + b
    }
}

impl View for Source {
    type V = SourceView;

    open spec fn view(&self) -> SourceView {
        match *self {
            Source::Git { repo, tag, branch, commit } => SourceView {
                repo: repo@,
                tag: text_of(tag),
                branch: text_of(branch),
                commit: text_of(commit),
            },
        }
    }
}

/// A package descriptor.
#[derive(Debug, Clone)]
pub struct Package {
    pub name: String,
    pub version: String,
    pub description: Option<String>,
    pub source: Source,
    pub dependencies: Dependencies,
    pub build: Option<Build>,
}

/// The record of a package that has been installed.
#[derive(Debug, Clone)]
pub struct InstalledPackage {
    pub name: String,
    pub version: String,
    pub install_path: String,
    pub dependencies: Vec<Dependency>,
}

} // verus!
