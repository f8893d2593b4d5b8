//! Upgrading named dependencies in every package of the tree.
//!
//! Here stand the rule that decides whether a declared dependency is
//! advanced, and the message of the commit that closes a run.

use vstd::prelude::*;
use vstd::string::*;
use crate::cargo::Dependency;
use crate::cargo::DependencyModel;
use crate::cargo::LatestVersions;
use crate::error::seen;
use crate::error::ErrorModel;
use crate::error::SessionError;
use crate::git::utc_stamp;
use crate::notice::Notice;
use crate::notice::NoticeModel;
use crate::session::next_turn;
use crate::session::step;
use crate::session::turn_of;
use crate::session::Config;
use crate::session::ConfigModel;
use crate::session::Event;
use crate::session::Mode;
use crate::session::Phase;
use crate::session::Session;
use crate::session::Step;
use crate::text::contains_text;
use crate::text::decimal;
use crate::text::decimal_string;
use crate::text::texts;
use crate::version::parse_requirement;
use crate::version::parsed_clauses;
use crate::version::pin;
use crate::version::ComparatorModel;
use crate::version::Op;
use crate::version::Requirement;
use crate::version::ResolvedVersion;

verus! {

/// What the user asks of a run that upgrades dependencies.
#[derive(Clone, Debug, PartialEq, Eq)]
pub struct UpgradeArgs {
    /// Files or directories that are left out, relative to the directory
    /// that the run starts in.
    pub exclude: Vec<String>,
    /// Whether each package is checked once its lockfile is in line.
    pub check: bool,
    /// The names of the packages to upgrade.
    pub dep_crate_names: Vec<String>,
}

/// What becomes of one declared dependency.
#[derive(Clone, Copy, Debug, PartialEq, Eq, Structural)]
pub enum Decision {
    /// The dependency is none of those that were asked for.
    NotRequested,
    /// The dependency was asked for, and no latest version is on record
    /// for it.
    Unresolved,
    /// The requirement has more than one clause.
    MultipleComparators,
    /// The one clause has another operator than the minimum-compatible
    /// one.
    NotCaret,
    /// The requirement stands for the latest release, or for a later
    /// version.
    UpToDate,
    /// The requirement is rewritten to name this release.
    Apply(ResolvedVersion),
}

impl Decision {
    /// Whether the manifest is changed.
    pub open spec fn mutates(self) -> bool {
        self is Apply
    }

    /// What the user is told of the dependency `name`.
    pub open spec fn notice_of(self, name: Seq<char>) -> Option<NoticeModel> {
        match self {
            Decision::NotRequested => None,
            Decision::Unresolved => Some(NoticeModel::UnresolvedPackage { name }),
            Decision::MultipleComparators => Some(NoticeModel::MultipleComparators { name }),
            Decision::NotCaret => Some(NoticeModel::NotCaret { name }),
            Decision::UpToDate => Some(NoticeModel::OnNewestRelease { name }),
            Decision::Apply(_) => None,
        }
    }

    /// The number of warnings that the user is given of the dependency
    /// `name`.
    pub open spec fn warnings(self, name: Seq<char>) -> nat {
        match self.notice_of(name) {
            Some(notice) => if notice.is_warning() {
                1
            } else {
                0
            },
            None => 0,
        }
    }

    /// The requirement as it stands in the manifest afterwards.
    pub open spec fn requirement_after(self, before: Seq<ComparatorModel>) -> Seq<ComparatorModel> {
        match self {
            Decision::Apply(version) => seq![pin(version)],
            _ => before,
        }
    }

    /// What the user is told of the dependency `name`.
    pub fn notice(&self, name: &String) -> (notice: Option<Notice>)
        ensures
            match self.notice_of(name@) {
                Some(model) => notice matches Some(n) && n@ == model,
                None => notice is None,
            },
    {
        match self {
            Decision::NotRequested => None,
            Decision::Unresolved => Some(Notice::UnresolvedPackage { name: name.clone() }),
            Decision::MultipleComparators => Some(
                Notice::MultipleComparators { name: name.clone() },
            ),
            Decision::NotCaret => Some(Notice::NotCaret { name: name.clone() }),
            Decision::UpToDate => Some(Notice::OnNewestRelease { name: name.clone() }),
            Decision::Apply(_) => None,
        }
    }

    /// The requirement as it stands in the manifest afterwards.
    pub fn requirement(&self, before: Requirement) -> (after: Requirement)
        ensures
            after@ == self.requirement_after(before@),
    {
        match self {
            Decision::Apply(version) => version.as_requirement(),
            _ => before,
        }
    }
}

/// What becomes of a requested dependency whose requirement has the
/// clauses `clauses`, when `latest` is the latest release.
///
/// A requirement of several clauses is left alone, and so is one whose
/// single clause has another operator than the minimum-compatible one.  A
/// requirement without any clause is an error.  Otherwise the requirement
/// is rewritten exactly where its clause stands for a version of lower
/// precedence than `latest`.
pub open spec fn judged(dep: DependencyModel, clauses: Seq<ComparatorModel>, latest: ResolvedVersion) -> Result<
    Decision,
    ErrorModel,
> {
    if clauses.len() > 1 {
        Ok(Decision::MultipleComparators)
    } else if clauses.len() == 0 {
        Err(ErrorModel::UnsupportedRequirement { name: dep.name, req: dep.req })
    } else if clauses[0].op != Op::Caret {
        Ok(Decision::NotCaret)
    } else if clauses[0].is_behind(latest) {
        Ok(Decision::Apply(latest))
    } else {
        Ok(Decision::UpToDate)
    }
}

/// What becomes of the dependency `dep`, when `names` are the packages
/// asked for, `latest` holds their latest releases, and `parsed` is what
/// reading the requirement gave: its clauses, or `None` where it could not
/// be read.
///
/// A dependency that was not asked for is passed over without a word.  One
/// that was asked for and has no latest release on record is passed over
/// with a warning.  The requirement is looked at only after that.
pub open spec fn decided_from(
    dep: DependencyModel,
    names: Seq<Seq<char>>,
    latest: Map<Seq<char>, ResolvedVersion>,
    parsed: Option<Seq<ComparatorModel>>,
) -> Result<Decision, ErrorModel> {
    if !names.contains(dep.name) {
        Ok(Decision::NotRequested)
    } else if !latest.contains_key(dep.name) {
        Ok(Decision::Unresolved)
    } else {
        match parsed {
            Some(clauses) => judged(dep, clauses, latest[dep.name]),
            None => Err(ErrorModel::MalformedRequirement { name: dep.name, req: dep.req }),
        }
    }
}

/// What becomes of the dependency `dep`, when `names` are the packages
/// asked for and `latest` holds their latest releases.  The text of the
/// requirement is read as `semver` reads it.
pub open spec fn decided(
    dep: DependencyModel,
    names: Seq<Seq<char>>,
    latest: Map<Seq<char>, ResolvedVersion>,
) -> Result<Decision, ErrorModel> {
    decided_from(dep, names, latest, parsed_clauses(dep.req))
}

/// Decides what becomes of a requested dependency, from its parsed
/// requirement and the latest release.
pub fn judge(dep: &Dependency, requirement: &Requirement, latest: &ResolvedVersion) -> (r: Result<
    Decision,
    SessionError,
>)
    ensures
        seen(r) == judged(dep@, requirement@, *latest),
{
    if requirement.comparators.len() > 1 {
        return Ok(Decision::MultipleComparators);
    }
    if requirement.comparators.len() == 0 {
        return Err(
            SessionError::UnsupportedRequirement { name: dep.name.clone(), req: dep.req.clone() },
        );
    }
    let comparator = &requirement.comparators[0];
    match comparator.op {
        Op::Caret => {
            if comparator.is_behind(latest) {
                Ok(Decision::Apply(*latest))
            } else {
                Ok(Decision::UpToDate)
            }
        },
        _ => Ok(Decision::NotCaret),
    }
}

/// Decides what becomes of one declared dependency.
pub fn decide(dep: &Dependency, names: &Vec<String>, latest: &LatestVersions) -> (r: Result<
    Decision,
    SessionError,
>)
    ensures
        seen(r) == decided(dep@, texts(names@), latest@),
{
    if !contains_text(names, &dep.name) {
        return Ok(Decision::NotRequested);
    }
    let candidate = match latest.get(&dep.name) {
        Some(candidate) => candidate,
        None => {
            return Ok(Decision::Unresolved);
        },
    };
    match parse_requirement(dep.req.as_str()) {
        Some(requirement) => judge(dep, &requirement, &candidate),
        None => Err(
            SessionError::MalformedRequirement { name: dep.name.clone(), req: dep.req.clone() },
        ),
    }
}

/// The requirement of a requested dependency, where it is one
/// minimum-compatible clause of major, minor and patch numbers, the last
/// two of which may be left out, is rewritten if and only if the version
/// it stands for is lower than the latest release, by major, then minor,
/// then patch.  Rewriting is idempotent: a requirement that was dealt with
/// once is left as it is when it is dealt with again.
pub proof fn lemma_caret_is_rewritten_iff_lower(
    dep: DependencyModel,
    names: Seq<Seq<char>>,
    latest: Map<Seq<char>, ResolvedVersion>,
    clause: ComparatorModel,
)
    requires
        names.contains(dep.name),
        latest.contains_key(dep.name),
        clause.op == Op::Caret,
        clause.pre.len() == 0,
    ensures
        decided_from(dep, names, latest, Some(seq![clause])) is Ok,
        decided_from(dep, names, latest, Some(seq![clause]))->Ok_0.mutates()
            <==> clause.implied_version().precedes(latest[dep.name]),
        ({
            let first = decided_from(dep, names, latest, Some(seq![clause]))->Ok_0;
            let once = first.requirement_after(seq![clause]);
            let second = decided_from(dep, names, latest, Some(once));
            &&& first.mutates() ==> once == seq![pin(latest[dep.name])]
            &&& second is Ok
            &&& !second->Ok_0.mutates()
            &&& second->Ok_0.requirement_after(once) == once
        }),
{
    let first = decided_from(dep, names, latest, Some(seq![clause]))->Ok_0;
    let once = first.requirement_after(seq![clause]);
    if first.mutates() {
        assert(once[0] == pin(latest[dep.name]));
        assert(pin(latest[dep.name]).implied_version() == latest[dep.name]);
    } else {
        assert(once[0] == clause);
    }
}

/// The requirement of a requested dependency, where it has several
/// clauses, or one clause with another operator than the
/// minimum-compatible one, is never rewritten, and the user is given
/// exactly one warning of the dependency.
pub proof fn lemma_ineligible_is_left_with_one_warning(
    dep: DependencyModel,
    names: Seq<Seq<char>>,
    latest: Map<Seq<char>, ResolvedVersion>,
    clauses: Seq<ComparatorModel>,
)
    requires
        names.contains(dep.name),
        clauses.len() > 1 || (clauses.len() == 1 && clauses[0].op != Op::Caret),
    ensures
        decided_from(dep, names, latest, Some(clauses)) is Ok,
        !decided_from(dep, names, latest, Some(clauses))->Ok_0.mutates(),
        decided_from(dep, names, latest, Some(clauses))->Ok_0.requirement_after(clauses) == clauses,
        decided_from(dep, names, latest, Some(clauses))->Ok_0.warnings(dep.name) == 1,
{
}

/// The first line of the commit message: the packages, by the names that
/// were asked for, in the order they were asked for.  With more than two,
/// the first two stand for all.
pub open spec fn summary_line(names: Seq<Seq<char>>) -> Option<Seq<char>> {
    if names.len() == 0 {
        None
    } else if names.len() == 1 {
        Some("Upgrade "@ + names[0] + " package"@)
    } else if names.len() == 2 {
        Some("Upgrade "@ + names[0] + " and "@ + names[1] + " packages"@)
    } else {
        Some(
            "Upgrade "@ + names[0] + ", "@ + names[1] + " and "@ + decimal((names.len() - 2) as nat)
                + " other packages"@,
        )
    }
}

/// The first line of the commit message, or `None` where no package was
/// asked for.
pub fn commit_summary(names: &Vec<String>) -> (line: Option<String>)
    ensures
        match summary_line(texts(names@)) {
            Some(text) => line matches Some(found) && found@ == text,
            None => line is None,
        },
{
    let n: usize = names.len();
    if n == 0 {
        return None;
    }
    assert(texts(names@)[0] == names@[0]@);
    let mut line = String::from_str("Upgrade ");
    line.append(names[0].as_str());
    if n == 1 {
        line.append(" package");
    } else if n == 2 {
        assert(texts(names@)[1] == names@[1]@);
        line.append(" and ");
        line.append(names[1].as_str());
        line.append(" packages");
    } else {
        assert(texts(names@)[1] == names@[1]@);
        let others: u64 = (n - 2) as u64;
        let count = decimal_string(others);
        line.append(", ");
        line.append(names[1].as_str());
        line.append(" and ");
        line.append(count.as_str());
        line.append(" other packages");
    }
    Some(line)
}

/// The lines of the commit message that list the packages: for each name
/// a hyphen, the name, `@` and the latest release.  An error where a name
/// has no latest release on record.
pub open spec fn package_lines(names: Seq<Seq<char>>, latest: Map<Seq<char>, ResolvedVersion>) -> Result<
    Seq<char>,
    ErrorModel,
>
    decreases names.len(),
{
    if names.len() == 0 {
        Ok(Seq::empty())
    } else {
        match package_lines(names.drop_last(), latest) {
            Err(error) => Err(error),
            Ok(lines) => if latest.contains_key(names.last()) {
                Ok(lines + "- "@ + names.last() + "@"@ + latest[names.last()].text() + "\n"@)
            } else {
                Err(ErrorModel::MissingLatestVersion { name: names.last() })
            },
        }
    }
}

/// The message of the commit that closes an upgrade of `names`.
pub open spec fn commit_message_of(names: Seq<Seq<char>>, latest: Map<Seq<char>, ResolvedVersion>) -> Result<
    Seq<char>,
    ErrorModel,
> {
    match summary_line(names) {
        None => Err(ErrorModel::NoPackagesRequested),
        Some(summary) => match package_lines(names, latest) {
            Err(error) => Err(error),
            Ok(lines) => Ok(
                summary + "\n\nThese crates were upgraded:\n\n"@ + lines
                    + "\nThis commit was created by `cargo-lockstep`.\n"@,
            ),
        },
    }
}

/// An error among the first names is the error of all.
proof fn lemma_missing_stays(names: Seq<Seq<char>>, latest: Map<Seq<char>, ResolvedVersion>, n: int)
    requires
        0 <= n <= names.len(),
        package_lines(names.take(n), latest) is Err,
    ensures
        package_lines(names, latest) == package_lines(names.take(n), latest),
    decreases names.len() - n,
{
    if n < names.len() {
        assert(names.take(n + 1).drop_last() =~= names.take(n));
        lemma_missing_stays(names, latest, n + 1);
    } else {
        assert(names.take(n) =~= names);
    }
}

/// Composes the message of the commit that closes an upgrade of `names`:
/// the summary line, and one line for each package with the release it
/// was upgraded to.
///
/// Fails where no package was asked for, and where a package has no
/// latest release on record.
pub fn commit_message(names: &Vec<String>, latest: &LatestVersions) -> (r: Result<
    String,
    SessionError,
>)
    ensures
        match commit_message_of(texts(names@), latest@) {
            Ok(text) => r matches Ok(message) && message@ == text,
            Err(error) => r matches Err(e) && e@ == error,
        },
{
    let mut message = match commit_summary(names) {
        Some(line) => line,
        None => {
            return Err(SessionError::NoPackagesRequested);
        },
    };
    let ghost summary = message@;
    message.append("\n\nThese crates were upgraded:\n\n");
    let ghost head = message@;
    let mut i: usize = 0;
    assert(texts(names@).take(0) =~= Seq::empty());
    assert(head + Seq::<char>::empty() =~= head);
    while i < names.len()
        invariant
            i <= names.len(),
            package_lines(texts(names@).take(i as int), latest@) is Ok,
            message@ == head + package_lines(texts(names@).take(i as int), latest@)->Ok_0,
        decreases names.len() - i,
    {
        let name = &names[i];
        let ghost lines = package_lines(texts(names@).take(i as int), latest@)->Ok_0;
        assert(texts(names@).take(i + 1).drop_last() =~= texts(names@).take(i as int));
        assert(texts(names@).take(i + 1).last() == name@);
        match latest.get(name) {
            Some(version) => {
                let text = version.to_text();
                message.append("- ");
                message.append(name.as_str());
                message.append("@");
                message.append(text.as_str());
                message.append("\n");
                assert(message@ =~= head + (lines + "- "@ + name@ + "@"@ + version.text() + "\n"@));
            },
            None => {
                proof {
                    lemma_missing_stays(texts(names@), latest@, i + 1);
                }
                return Err(SessionError::MissingLatestVersion { name: name.clone() });
            },
        }
        i = i + 1;
    }
    assert(texts(names@).take(i as int) =~= texts(names@));
    let ghost lines = package_lines(texts(names@), latest@)->Ok_0;
    message.append("\nThis commit was created by `cargo-lockstep`.\n");
    assert(message@ =~= summary + "\n\nThese crates were upgraded:\n\n"@ + lines
        + "\nThis commit was created by `cargo-lockstep`.\n"@);
    Ok(message)
}

/// What a session goes by in a run that upgrades dependencies.
pub open spec fn upgrade_config(args: UpgradeArgs) -> ConfigModel {
    ConfigModel {
        mode: Mode::Upgrade,
        exclude: texts(args.exclude@),
        check: args.check,
        names: texts(args.dep_crate_names@),
    }
}

/// One turn of a run that upgrades dependencies, at the time `stamp`.
///
/// The run checks that every excluded path exists and that the working
/// tree is clean, finds the latest release of each requested package,
/// finds the base branch, fetches it and makes the working branch from
/// it.  Then it looks through the manifest of every directory that is not
/// excluded and declares anew each dependency that is to be rewritten,
/// brings every lockfile in line, checks the packages where that was asked
/// for, and commits once at the end.
pub fn upgrade_one_at(upgrade_args: &UpgradeArgs, session: Session, event: Event, stamp: &str) -> (turn: (
    Session,
    Step,
))
    ensures
        turn_of(turn) == next_turn(upgrade_config(*upgrade_args), session@, event, stamp@),
{
    let cfg = Config {
        mode: Mode::Upgrade,
        exclude: &upgrade_args.exclude,
        check: upgrade_args.check,
        names: &upgrade_args.dep_crate_names,
    };
    step(&cfg, session, event, stamp)
}

/// One turn of a run that upgrades dependencies.  The turn that names the
/// working branch reads the clock; no other turn depends on the time.
pub fn upgrade_one(upgrade_args: &UpgradeArgs, session: Session, event: Event) -> (turn: (
    Session,
    Step,
))
    ensures
        exists|stamp: Seq<char>|
            turn_of(turn) == #[trigger] next_turn(
                upgrade_config(*upgrade_args),
                session@,
                event,
                stamp,
            ),
{
    let stamp = match session.phase {
        Phase::Fetch => utc_stamp(),
        _ => String::new(),
    };
    let ghost before = session@;
    let turn = upgrade_one_at(upgrade_args, session, event, stamp.as_str());
    assert(turn_of(turn) == next_turn(upgrade_config(*upgrade_args), before, event, stamp@));
    turn
}

} // verus!
