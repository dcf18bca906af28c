//! Version requirements: a comparison operator and a version, such as
//! `>=1.2.3`.

use vstd::prelude::*;
use vstd::string::{StrSliceExecFns, StringExecFns};
use crate::structured_version::{compare_versions, parses_as_version, version_order, VersionOrder};

verus! {

/// The comparison that a requirement asks for.
#[derive(Debug, Clone, Copy, PartialEq, Eq, Structural)]
pub enum Operator {
    Gt,
    Ge,
    Lt,
    Le,
    Eq,
}

impl Operator {
    /// Holds when a candidate that stands to the required version as
    /// `order` says meets this comparison.
    pub open spec fn admits(self, order: VersionOrder) -> bool {
        match self {
            Operator::Gt => order == VersionOrder::Greater,
            Operator::Ge => order == VersionOrder::Greater || order == VersionOrder::Equal,
            Operator::Lt => order == VersionOrder::Less,
            Operator::Le => order == VersionOrder::Less || order == VersionOrder::Equal,
            Operator::Eq => order == VersionOrder::Equal,
        }
    }

    /// Tells whether a candidate that stands to the required version as
    /// `order` says meets this comparison.
    pub fn accepts(&self, order: VersionOrder) -> (ok: bool)
        ensures
            ok == self.admits(order),
    {
        match self {
            Operator::Gt => matches!(order, VersionOrder::Greater),
            Operator::Ge => matches!(order, VersionOrder::Greater | VersionOrder::Equal),
            Operator::Lt => matches!(order, VersionOrder::Less),
            Operator::Le => matches!(order, VersionOrder::Less | VersionOrder::Equal),
            Operator::Eq => matches!(order, VersionOrder::Equal),
        }
    }
}

/// A version requirement. The version is kept as written: whether it is a
/// structured version is found out when a candidate is matched.
#[derive(Debug, Clone)]
pub struct VersionRequirement {
    pub op: Operator,
    pub version: String,
}

/// What a [`VersionRequirement`] says, as mathematical values.
pub struct RequirementView {
    pub op: Operator,
    pub version: Seq<char>,
}

impl View for VersionRequirement {
    type V = RequirementView;

    open spec fn view(&self) -> RequirementView {
        RequirementView { op: self.op, version: self.version@ }
    }
}

/// Holds when `text` begins with the character `a`.
pub open spec fn begins_with(text: Seq<char>, a: char) -> bool {
    text.len() >= 1 && text[0] == a
}

/// Holds when `text` begins with the characters `a` and `b`.
pub open spec fn begins_with_pair(text: Seq<char>, a: char, b: char) -> bool {
    text.len() >= 2 && text[0] == a && text[1] == b
}

/// Holds when `text` begins with one of the operators `>=`, `<=`, `>`, `<`
/// and `==`.
pub open spec fn starts_with_operator(text: Seq<char>) -> bool {
    begins_with(text, '>') || begins_with(text, '<') || begins_with_pair(text, '=', '=')
}

/// The requirement that `text` denotes. A leading `>=`, `<=`, `>`, `<` or
/// `==` is the operator and the rest is the version; a text without one
/// asks for equality with the whole text.
pub open spec fn requirement_of(text: Seq<char>) -> RequirementView {
    if begins_with_pair(text, '>', '=') {
        RequirementView { op: Operator::Ge, version: text.skip(2) }
    } else if begins_with_pair(text, '<', '=') {
        RequirementView { op: Operator::Le, version: text.skip(2) }
    } else if begins_with(text, '>') {
        RequirementView { op: Operator::Gt, version: text.skip(1) }
    } else if begins_with(text, '<') {
        RequirementView { op: Operator::Lt, version: text.skip(1) }
    } else if begins_with_pair(text, '=', '=') {
        RequirementView { op: Operator::Eq, version: text.skip(2) }
    } else {
        RequirementView { op: Operator::Eq, version: text }
    }
}

impl RequirementView {
    /// Holds when `candidate` meets this requirement: both it and the
    /// required version are structured versions, and they compare as the
    /// operator asks.
    pub open spec fn satisfied_by(self, candidate: Seq<char>) -> bool {
        match version_order(candidate, self.version) {
            Some(order) => self.op.admits(order),
            None => false,
        }
    }
}

impl VersionRequirement {
    /// The requirement that `version` compare as `op` says.
    fn new(op: Operator, version: String) -> (r: Self)
        ensures
            r.op == op,
            r.version == version,
    {
        VersionRequirement { op, version }
    }

    /// Reads a requirement. Every text is one: see [`requirement_of`].
    pub fn parse_requirement(req: &str) -> (r: Self)
        ensures
            r@ == requirement_of(req@),
    {
        let len = req.unicode_len();
        let first = if len >= 1 {
            Some(req.get_char(0))
        } else {
            None
        };
        let second = if len >= 2 {
            Some(req.get_char(1))
        } else {
            None
        };
        match (first, second) {
            (Some('>'), Some('=')) => Self::new(
                Operator::Ge,
                String::from_str(req.substring_char(2, len)),
            ),
            (Some('<'), Some('=')) => Self::new(
                Operator::Le,
                String::from_str(req.substring_char(2, len)),
            ),
            (Some('>'), _) => Self::new(Operator::Gt, String::from_str(req.substring_char(1, len))),
            (Some('<'), _) => Self::new(Operator::Lt, String::from_str(req.substring_char(1, len))),
            (Some('='), Some('=')) => Self::new(
                Operator::Eq,
                String::from_str(req.substring_char(2, len)),
            ),
            _ => Self::new(Operator::Eq, String::from_str(req)),
        }
    }

    /// Tells whether the version `dep_version` meets this requirement. A
    /// candidate or a required version that is no structured version meets
    /// nothing; two structured versions always compare, and a structured
    /// version compares equal to itself.
    pub fn matches(&self, dep_version: &str) -> (ok: bool)
        ensures
            ok == self@.satisfied_by(dep_version@),
            version_order(dep_version@, self.version@) is Some <==> (parses_as_version(
                dep_version@,
            ) && parses_as_version(self.version@)),
            (dep_version@ == self.version@ && parses_as_version(dep_version@)) ==> version_order(
                dep_version@,
                self.version@,
            ) == Some(VersionOrder::Equal),
            !parses_as_version(dep_version@) ==> !ok,
            !parses_as_version(self.version@) ==> !ok,
    {
        match compare_versions(dep_version, self.version.as_str()) {
            Some(order) => self.op.accepts(order),
            None => false,
        }
    }
}

/// Whatever the order of two versions, the comparisons hang together as
/// their names say: at least is greater or equal, at most is less or
/// equal, less is the contrary of at least, greater the contrary of at
/// most, and exactly one of less, equal and greater holds.
pub proof fn lemma_operators_agree(order: VersionOrder)
    ensures
        Operator::Ge.admits(order) == (Operator::Gt.admits(order) || Operator::Eq.admits(order)),
        Operator::Le.admits(order) == (Operator::Lt.admits(order) || Operator::Eq.admits(order)),
        Operator::Lt.admits(order) == !Operator::Ge.admits(order),
        Operator::Gt.admits(order) == !Operator::Le.admits(order),
        Operator::Lt.admits(order) || Operator::Eq.admits(order) || Operator::Gt.admits(order),
        !(Operator::Lt.admits(order) && Operator::Eq.admits(order)),
        !(Operator::Lt.admits(order) && Operator::Gt.admits(order)),
        !(Operator::Eq.admits(order) && Operator::Gt.admits(order)),
{
}

/// The text of a requirement: the operator, written before the version.
pub open spec fn written(op: Operator, version: Seq<char>) -> Seq<char> {
    match op {
        Operator::Gt => seq!['>'] + version,
        Operator::Ge => seq!['>', '='] + version,
        Operator::Lt => seq!['<'] + version,
        Operator::Le => seq!['<', '='] + version,
        Operator::Eq => seq!['=', '='] + version,
    }
}

/// An operator written before a version is read back as that operator and
/// that version, unless the version begins with `=`, which after `>` or
/// `<` is read as part of the operator.
pub proof fn lemma_written_is_read_back(op: Operator, version: Seq<char>)
    requires
        !begins_with(version, '='),
    ensures
        requirement_of(written(op, version)) == (RequirementView { op, version }),
{
    let text = written(op, version);
    match op {
        Operator::Gt => {
            assert(text.skip(1) =~= version);
        },
        Operator::Lt => {
            assert(text.skip(1) =~= version);
        },
        _ => {
            assert(text.skip(2) =~= version);
        },
    }
}

/// Of a candidate that compares with the required version, the five
/// requirements on that version hang together: at least is greater or
/// equal, at most is less or equal, less is the contrary of at least, and
/// exactly one of less, equal and greater is met.
pub proof fn lemma_requirements_agree(version: Seq<char>, candidate: Seq<char>)
    requires
        !begins_with(version, '='),
        version_order(candidate, version) is Some,
    ensures
        ({
            let gt = requirement_of(written(Operator::Gt, version)).satisfied_by(candidate);
            let ge = requirement_of(written(Operator::Ge, version)).satisfied_by(candidate);
            let lt = requirement_of(written(Operator::Lt, version)).satisfied_by(candidate);
            let le = requirement_of(written(Operator::Le, version)).satisfied_by(candidate);
            let eq = requirement_of(written(Operator::Eq, version)).satisfied_by(candidate);
            &&& ge == (gt || eq)
            &&& le == (lt || eq)
            &&& lt == !ge
            &&& gt == !le
            &&& lt || eq || gt
            &&& !(lt && eq) && !(lt && gt) && !(eq && gt)
        }),
{
    lemma_written_is_read_back(Operator::Gt, version);
    lemma_written_is_read_back(Operator::Ge, version);
    lemma_written_is_read_back(Operator::Lt, version);
    lemma_written_is_read_back(Operator::Le, version);
    lemma_written_is_read_back(Operator::Eq, version);
    lemma_operators_agree(version_order(candidate, version)->0);
}

/// A version written without an operator asks for the same as that version
/// written after `==`.
pub proof fn lemma_bare_version_asks_equality(version: Seq<char>)
    requires
        !starts_with_operator(version),
    ensures
        requirement_of(version) == requirement_of(seq!['=', '='] + version),
        requirement_of(version) == (RequirementView { op: Operator::Eq, version }),
{
    assert((seq!['=', '='] + version).skip(2) =~= version);
}

} // verus!
