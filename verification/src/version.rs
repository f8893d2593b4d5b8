//! Version requirements and resolved versions.
//!
//! A requirement is read with the `semver` crate and then held as plain
//! values: a list of comparators, each an operator and a partial version.

use vstd::prelude::*;
use vstd::string::*;
use crate::text::decimal;

verus! {

/// The operator of a comparator.
#[derive(Clone, Copy, Debug, PartialEq, Eq, Structural)]
pub enum Op {
    Exact,
    Greater,
    GreaterEq,
    Less,
    LessEq,
    Tilde,
    /// The minimum-compatible operator, written `^` or left out.
    Caret,
    Wildcard,
    /// An operator this library has no name for.
    Unrecognized,
}

/// A release without pre-release tag: major, minor, patch.
#[derive(Clone, Copy, Debug, PartialEq, Eq, Structural)]
pub struct ResolvedVersion {
    pub major: u64,
    pub minor: u64,
    pub patch: u64,
}

impl ResolvedVersion {
    /// Whether this version is lower than `other`: by major, then minor,
    /// then patch.
    pub open spec fn precedes(self, other: ResolvedVersion) -> bool {
        ||| self.major < other.major
        ||| self.major == other.major && self.minor < other.minor
        ||| self.major == other.major && self.minor == other.minor && self.patch < other.patch
    }

    /// The text of this version: the three numbers in decimal, with a dot
    /// between them.
    pub open spec fn text(self) -> Seq<char> {
        decimal(self.major as nat) + seq!['.'] + decimal(self.minor as nat) + seq!['.'] + decimal(
            self.patch as nat,
        )
    }

    /// Whether this version is lower than `other`.
    pub fn is_before(&self, other: &ResolvedVersion) -> (lower: bool)
        ensures
            lower == self.precedes(*other),
    {
        if self.major != other.major {
            self.major < other.major
        } else if self.minor != other.minor {
            self.minor < other.minor
        } else {
            self.patch < other.patch
        }
    }

    /// The text of this version, such as `1.5.0`.
    pub fn to_text(&self) -> (s: String)
        ensures
            s@ == self.text(),
    {
        release_text(self.major, self.minor, self.patch)
    }

    /// The requirement that stands in a manifest once a dependency has
    /// been pinned to this version: one minimum-compatible clause with all
    /// three numbers.
    pub fn as_requirement(&self) -> (req: Requirement)
        ensures
            req@ == seq![pin(*self)],
    {
        let mut comparators: Vec<Comparator> = Vec::new();
        comparators.push(
            Comparator {
                op: Op::Caret,
                major: self.major,
                minor: Some(self.minor),
                patch: Some(self.patch),
                pre: String::new(),
            },
        );
        let req = Requirement { comparators };
        assert(req@ =~= seq![pin(*self)]);
        req
    }
}

/// Trusted of `semver::Version`: the version that `semver::Version::new`
/// makes of three numbers has neither pre-release tag nor build metadata,
/// and its `Display`, which `to_string` runs without width or fill, writes
/// major, minor and patch in decimal with a dot between them.
#[verifier::external_body]
fn release_text(major: u64, minor: u64, patch: u64) -> (s: String)
    ensures
        s@ == (ResolvedVersion { major, minor, patch }).text(),
{
    semver::Version::new(major, minor, patch).to_string()
}

/// The minimum-compatible clause that names `version` in full.
pub open spec fn pin(version: ResolvedVersion) -> ComparatorModel {
    ComparatorModel {
        op: Op::Caret,
        major: version.major,
        minor: Some(version.minor),
        patch: Some(version.patch),
        pre: Seq::empty(),
    }
}

/// One clause of a requirement: an operator and a partial version.
#[derive(Clone, Debug, PartialEq, Eq)]
pub struct Comparator {
    pub op: Op,
    pub major: u64,
    pub minor: Option<u64>,
    pub patch: Option<u64>,
    /// The pre-release tag, empty where the clause has none.
    pub pre: String,
}

/// What a [`Comparator`] holds, as mathematical values.
pub ghost struct ComparatorModel {
    pub op: Op,
    pub major: u64,
    pub minor: Option<u64>,
    pub patch: Option<u64>,
    pub pre: Seq<char>,
}

impl View for Comparator {
    type V = ComparatorModel;

    open spec fn view(&self) -> ComparatorModel {
        ComparatorModel {
            op: self.op,
            major: self.major,
            minor: self.minor,
            patch: self.patch,
            pre: self.pre@,
        }
    }
}

/// A parsed version requirement: the clauses in the order they were written.
#[derive(Clone, Debug, PartialEq, Eq)]
pub struct Requirement {
    pub comparators: Vec<Comparator>,
}

impl ComparatorModel {
    /// The version that the clause stands for when it is compared: a
    /// minor or patch number that is left out counts as 0.
    pub open spec fn implied_version(self) -> ResolvedVersion {
        ResolvedVersion {
            major: self.major,
            minor: match self.minor {
                Some(minor) => minor,
                None => 0,
            },
            patch: match self.patch {
                Some(patch) => patch,
                None => 0,
            },
        }
    }

    /// Whether the clause stands for a version of lower precedence than
    /// the release `latest`.  With equal numbers, a clause that carries a
    /// pre-release tag is lower than the release.
    pub open spec fn is_behind(self, latest: ResolvedVersion) -> bool {
        ||| self.implied_version().precedes(latest)
        ||| self.implied_version() == latest && self.pre.len() > 0
    }

    /// The release that the clause names in full, if it names one.
    pub open spec fn pinned(self) -> Option<ResolvedVersion> {
        match (self.minor, self.patch) {
            (Some(minor), Some(patch)) => Some(ResolvedVersion { major: self.major, minor, patch }),
            _ => None,
        }
    }
}

impl Comparator {
    /// The version that the clause stands for when it is compared.
    pub fn implied_version(&self) -> (version: ResolvedVersion)
        ensures
            version == self@.implied_version(),
    {
        ResolvedVersion {
            major: self.major,
            minor: match self.minor {
                Some(minor) => minor,
                None => 0,
            },
            patch: match self.patch {
                Some(patch) => patch,
                None => 0,
            },
        }
    }

    /// Whether the clause stands for a version of lower precedence than
    /// the release `latest`.
    pub fn is_behind(&self, latest: &ResolvedVersion) -> (behind: bool)
        ensures
            behind == self@.is_behind(*latest),
    {
        let implied = self.implied_version();
        if implied.is_before(latest) {
            true
        } else {
            implied.major == latest.major && implied.minor == latest.minor && implied.patch
                == latest.patch && !self.pre.as_str().is_empty()
        }
    }

    /// The release that the clause names in full, if it names one.
    pub fn pinned(&self) -> (version: Option<ResolvedVersion>)
        ensures
            version == self@.pinned(),
    {
        match (self.minor, self.patch) {
            (Some(minor), Some(patch)) => Some(ResolvedVersion { major: self.major, minor, patch }),
            _ => None,
        }
    }
}

impl View for Requirement {
    type V = Seq<ComparatorModel>;

    open spec fn view(&self) -> Seq<ComparatorModel> {
        self.comparators@.map_values(|c: Comparator| c@)
    }
}

/// `semver::VersionReq`, carried through as it comes from the parser.
/// Nothing is known of what is inside but through [`clauses`].
#[verifier::external_type_specification]
#[verifier::external_body]
pub struct ExVersionReq(semver::VersionReq);

/// `semver::Error`, the error of the parser.  Nothing is read from it.
#[verifier::external_type_specification]
#[verifier::external_body]
pub struct ExSemverError(semver::Error);

/// The clauses that a `semver::VersionReq` holds in its public field
/// `comparators`, in order, each as plain values.
pub uninterp spec fn clauses(req: semver::VersionReq) -> Seq<ComparatorModel>;

/// What `semver::VersionReq::parse` makes of a text: the clauses of the
/// requirement it returns, or `None` where it reports an error.  Nothing
/// is claimed of which texts it accepts, nor of the clauses it finds.
pub uninterp spec fn parsed_clauses(text: Seq<char>) -> Option<Seq<ComparatorModel>>;

/// Trusted of `semver::VersionReq::parse`: it is a function of the text
/// alone.  It either reports an error or returns a requirement, and the
/// clauses of that requirement are what [`parsed_clauses`] names.
pub assume_specification[ semver::VersionReq::parse ](text: &str) -> (r: Result<
    semver::VersionReq,
    semver::Error,
>)
    ensures
        r matches Ok(req) ==> parsed_clauses(text@) == Some(clauses(req)),
        r is Err ==> parsed_clauses(text@) is None,
;

/// Trusted of `semver::VersionReq`: the length of its public field
/// `comparators`, read with `Vec::len`, is the number of its clauses.
#[verifier::external_body]
fn clause_count(req: &semver::VersionReq) -> (n: usize)
    ensures
        n == clauses(*req).len(),
{
    req.comparators.len()
}

/// Trusted of `semver::Comparator`: copies the clause at `index` out of
/// the public field `comparators` of a `semver::VersionReq`, operator for
/// operator (`semver::Op`), number for number, and the pre-release tag as
/// the text that `semver::Prerelease::as_str` gives.  The index must lie
/// within the list.
#[verifier::external_body]
fn clause_at(req: &semver::VersionReq, index: usize) -> (c: Comparator)
    requires
        index < clauses(*req).len(),
    ensures
        c@ == clauses(*req)[index as int],
{
    let found = &req.comparators[index];
    let op = match found.op {
        semver::Op::Exact => Op::Exact,
        semver::Op::Greater => Op::Greater,
        semver::Op::GreaterEq => Op::GreaterEq,
        semver::Op::Less => Op::Less,
        semver::Op::LessEq => Op::LessEq,
        semver::Op::Tilde => Op::Tilde,
        semver::Op::Caret => Op::Caret,
        semver::Op::Wildcard => Op::Wildcard,
        _ => Op::Unrecognized,
    };
    Comparator { op, major: found.major, minor: found.minor, patch: found.patch, pre: found.pre.as_str().to_owned() }
}

/// Reads a version requirement.
///
/// Succeeds exactly where `semver` accepts the text, and then holds the
/// clauses that `semver` found.
pub fn parse_requirement(text: &str) -> (r: Option<Requirement>)
    ensures
        r is Some <==> parsed_clauses(text@) is Some,
        r matches Some(req) ==> req@ == parsed_clauses(text@)->0,
{
    match semver::VersionReq::parse(text) {
        Ok(req) => {
            let n: usize = clause_count(&req);
            let mut comparators: Vec<Comparator> = Vec::new();
            let mut i: usize = 0;
            while i < n
                invariant
                    n == clauses(req).len(),
                    i <= n,
                    comparators@.len() == i,
                    forall|k: int| 0 <= k < i ==> (#[trigger] comparators@[k])@ == clauses(req)[k],
                decreases n - i,
            {
                let c = clause_at(&req, i);
                comparators.push(c);
                i = i + 1;
            }
            let parsed = Requirement { comparators };
            assert(parsed@ =~= clauses(req));
            Some(parsed)
        },
        Err(_) => None,
    }
}

} // verus!
