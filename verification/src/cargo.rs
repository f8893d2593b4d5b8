//! The package manager: the documents it prints, the commands it is given,
//! and the latest versions that are read back from a scratch project.

use vstd::prelude::*;
use vstd::string::*;
use crate::command_ext::Command;
use crate::command_ext::CommandModel;
use crate::error::ErrorModel;
use crate::error::SessionError;
use crate::error::seen;
use crate::text::texts;
use crate::version::parse_requirement;
use crate::version::parsed_clauses;
use crate::version::ComparatorModel;
use crate::version::Requirement;
use crate::version::ResolvedVersion;

verus! {

/// The role of a dependency that is not a normal one.
#[derive(Clone, Copy, Debug, PartialEq, Eq, Structural)]
pub enum DepKind {
    /// Needed to build and run tests, examples and benchmarks.
    Dev,
    /// Needed by the build script.
    Build,
}

/// One dependency as a manifest declares it.
#[derive(Clone, Debug, PartialEq, Eq)]
pub struct Dependency {
    pub name: String,
    /// The version requirement, as text.
    pub req: String,
    /// The role, `None` for a normal dependency.
    pub kind: Option<DepKind>,
}

/// What a [`Dependency`] holds, as mathematical values.
pub ghost struct DependencyModel {
    pub name: Seq<char>,
    pub req: Seq<char>,
    pub kind: Option<DepKind>,
}

impl View for Dependency {
    type V = DependencyModel;

    open spec fn view(&self) -> DependencyModel {
        DependencyModel { name: self.name@, req: self.req@, kind: self.kind }
    }
}

/// The dependencies that a list holds, in order.
pub open spec fn dependency_models(list: Seq<Dependency>) -> Seq<DependencyModel> {
    list.map_values(|d: Dependency| d@)
}

/// The manifest of one package.
#[derive(Clone, Debug, PartialEq, Eq)]
pub struct Manifest {
    pub dependencies: Vec<Dependency>,
}

impl View for Manifest {
    type V = Seq<DependencyModel>;

    open spec fn view(&self) -> Seq<DependencyModel> {
        dependency_models(self.dependencies@)
    }
}

/// One package of a resolved dependency graph.
#[derive(Clone, Debug, PartialEq, Eq)]
pub struct Package {
    pub dependencies: Vec<Dependency>,
}

impl View for Package {
    type V = Seq<DependencyModel>;

    open spec fn view(&self) -> Seq<DependencyModel> {
        dependency_models(self.dependencies@)
    }
}

/// A resolved dependency graph.
#[derive(Clone, Debug, PartialEq, Eq)]
pub struct Metadata {
    pub packages: Vec<Package>,
}

impl View for Metadata {
    type V = Seq<Seq<DependencyModel>>;

    open spec fn view(&self) -> Seq<Seq<DependencyModel>> {
        self.packages@.map_values(|p: Package| p@)
    }
}

/// The latest release of each package that was asked about, by name.
#[derive(Clone, Debug)]
pub struct LatestVersions {
    entries: Vec<(String, ResolvedVersion)>,
}

/// The map that a list of entries stands for: a later entry replaces an
/// earlier one of the same name.
pub closed spec fn entries_map(entries: Seq<(String, ResolvedVersion)>) -> Map<
    Seq<char>,
    ResolvedVersion,
>
    decreases entries.len(),
{
    if entries.len() == 0 {
        Map::empty()
    } else {
        entries_map(entries.drop_last()).insert(entries.last().0@, entries.last().1)
    }
}

impl View for LatestVersions {
    type V = Map<Seq<char>, ResolvedVersion>;

    closed spec fn view(&self) -> Map<Seq<char>, ResolvedVersion> {
        entries_map(self.entries@)
    }
}

impl LatestVersions {
    /// No package at all.
    pub fn new() -> (latest: LatestVersions)
        ensures
            latest@ == Map::<Seq<char>, ResolvedVersion>::empty(),
    {
        LatestVersions { entries: Vec::new() }
    }

    /// Records `version` as the latest release of `name`, in place of
    /// what was recorded for that name before.
    pub fn insert(&mut self, name: String, version: ResolvedVersion)
        ensures
            final(self)@ == old(self)@.insert(name@, version),
    {
        let ghost before = self.entries@;
        self.entries.push((name, version));
        assert(self.entries@.drop_last() =~= before);
    }

    /// The latest release of `name`, if one is recorded.
    pub fn get(&self, name: &String) -> (version: Option<ResolvedVersion>)
        ensures
            version == if self@.contains_key(name@) {
                Some(self@[name@])
            } else {
                None
            },
    {
        let mut i: usize = self.entries.len();
        assert(self.entries@.take(i as int) =~= self.entries@);
        while i > 0
            invariant
                i <= self.entries.len(),
                self@.contains_key(name@) == entries_map(self.entries@.take(i as int)).contains_key(
                    name@,
                ),
                self@.contains_key(name@) ==> self@[name@] == entries_map(
                    self.entries@.take(i as int),
                )[name@],
            decreases i,
        {
            let ghost prefix = self.entries@.take(i as int);
            assert(prefix.drop_last() =~= self.entries@.take(i - 1));
            assert(prefix.last() == self.entries@[i - 1]);
            i = i - 1;
            if self.entries[i].0 == *name {
                return Some(self.entries[i].1);
            }
        }
        assert(self.entries@.take(0) =~= Seq::empty());
        None
    }
}

/// The release that the first clause of a requirement names in full; an
/// error where there is no clause, or where its minor or patch number is
/// left out.
pub open spec fn pinned_by(dep: DependencyModel, clauses: Seq<ComparatorModel>) -> Result<
    ResolvedVersion,
    ErrorModel,
> {
    if clauses.len() > 0 && clauses[0].pinned() is Some {
        Ok(clauses[0].pinned()->0)
    } else {
        Err(ErrorModel::UnsupportedRequirement { name: dep.name, req: dep.req })
    }
}

/// The release that the requirement of a dependency names, where the text
/// of the requirement is read as `semver` reads it.
pub open spec fn resolved_by(dep: DependencyModel) -> Result<ResolvedVersion, ErrorModel> {
    match parsed_clauses(dep.req) {
        Some(clauses) => pinned_by(dep, clauses),
        None => Err(ErrorModel::MalformedRequirement { name: dep.name, req: dep.req }),
    }
}

/// The latest versions that a list of pinned dependencies declares: each
/// name with the release that its requirement names, or the error of the
/// first dependency that names none.
pub open spec fn latest_versions_of(deps: Seq<DependencyModel>) -> Result<
    Map<Seq<char>, ResolvedVersion>,
    ErrorModel,
>
    decreases deps.len(),
{
    if deps.len() == 0 {
        Ok(Map::empty())
    } else {
        match latest_versions_of(deps.drop_last()) {
            Err(error) => Err(error),
            Ok(latest) => match resolved_by(deps.last()) {
                Err(error) => Err(error),
                Ok(version) => Ok(latest.insert(deps.last().name, version)),
            },
        }
    }
}

/// The release that the parsed requirement of `dep` names in full.
pub fn resolved_version(dep: &Dependency, requirement: &Requirement) -> (r: Result<
    ResolvedVersion,
    SessionError,
>)
    ensures
        seen(r) == pinned_by(dep@, requirement@),
{
    if requirement.comparators.len() > 0 {
        if let Some(version) = requirement.comparators[0].pinned() {
            return Ok(version);
        }
    }
    Err(SessionError::UnsupportedRequirement { name: dep.name.clone(), req: dep.req.clone() })
}

/// An error among the first dependencies of a list is the error of the
/// whole list.
proof fn lemma_error_stays(deps: Seq<DependencyModel>, n: int)
    requires
        0 <= n <= deps.len(),
        latest_versions_of(deps.take(n)) is Err,
    ensures
        latest_versions_of(deps) == latest_versions_of(deps.take(n)),
    decreases deps.len() - n,
{
    if n < deps.len() {
        assert(deps.take(n + 1).drop_last() =~= deps.take(n));
        lemma_error_stays(deps, n + 1);
    } else {
        assert(deps.take(n) =~= deps);
    }
}

/// Reads the latest versions off the manifest of the scratch project, to
/// which every requested package was added as a dependency.
///
/// Each requirement must parse, and its first clause must name major,
/// minor and patch.  The first dependency of which that does not hold
/// decides the error.
pub fn get_latest_versions(manifest: &Manifest) -> (r: Result<LatestVersions, SessionError>)
    ensures
        match latest_versions_of(manifest@) {
            Ok(latest) => r matches Ok(found) && found@ == latest,
            Err(error) => r matches Err(e) && e@ == error,
        },
{
    let mut result = LatestVersions::new();
    let mut i: usize = 0;
    assert(manifest@.take(0) =~= Seq::empty());
    while i < manifest.dependencies.len()
        invariant
            i <= manifest.dependencies.len(),
            latest_versions_of(manifest@.take(i as int)) == Ok::<
                Map<Seq<char>, ResolvedVersion>,
                ErrorModel,
            >(result@),
        decreases manifest.dependencies.len() - i,
    {
        let dep = &manifest.dependencies[i];
        assert(manifest@.take(i + 1).drop_last() =~= manifest@.take(i as int));
        assert(manifest@.take(i + 1).last() == dep@);
        let version = match parse_requirement(dep.req.as_str()) {
            Some(requirement) => match resolved_version(dep, &requirement) {
                Ok(version) => version,
                Err(error) => {
                    proof {
                        lemma_error_stays(manifest@, i + 1);
                    }
                    return Err(error);
                },
            },
            None => {
                proof {
                    lemma_error_stays(manifest@, i + 1);
                }
                return Err(
                    SessionError::MalformedRequirement {
                        name: dep.name.clone(),
                        req: dep.req.clone(),
                    },
                );
            },
        };
        result.insert(dep.name.clone(), version);
        i = i + 1;
    }
    assert(manifest@.take(i as int) =~= manifest@);
    Ok(result)
}

/// The flags that keep the role of a dependency when it is declared anew.
pub open spec fn role_flags_of(kind: Option<DepKind>) -> Seq<Seq<char>> {
    match kind {
        Some(DepKind::Build) => seq!["--build"@],
        Some(DepKind::Dev) => seq!["--dev"@],
        None => Seq::empty(),
    }
}

/// The flags that keep the role of a dependency when it is declared anew.
pub fn role_flags(kind: Option<DepKind>) -> (flags: Vec<String>)
    ensures
        texts(flags@) == role_flags_of(kind),
{
    let mut flags: Vec<String> = Vec::new();
    match kind {
        Some(DepKind::Build) => {
            flags.push(String::from_str("--build"));
        },
        Some(DepKind::Dev) => {
            flags.push(String::from_str("--dev"));
        },
        None => {},
    }
    assert(texts(flags@) =~= role_flags_of(kind));
    flags
}

/// `cargo add <crate_name> <extra_args>` in `directory`, cut off from the
/// standard streams.
pub open spec fn add_command(
    directory: Seq<char>,
    crate_name: Seq<char>,
    extra_args: Seq<Seq<char>>,
) -> CommandModel {
    CommandModel {
        program: "cargo"@,
        args: seq!["add"@, crate_name] + extra_args,
        directory: Some(directory),
        null_io: true,
    }
}

/// The command that declares the dependency `crate_name` in the package
/// of `directory`.  `crate_name` may carry a version after `@`.
pub fn add(directory: &str, crate_name: &str, extra_args: &Vec<String>) -> (command: Command)
    ensures
        command@ == add_command(directory@, crate_name@, texts(extra_args@)),
{
    let mut command = Command::new("cargo");
    command.arg("add");
    command.arg(crate_name);
    command.current_dir(directory);
    command.null_io();
    command.args(extra_args);
    assert(command@.args =~= seq!["add"@, crate_name@] + texts(extra_args@));
    command
}

/// `cargo read-manifest` in `directory`.
pub open spec fn read_manifest_command(directory: Seq<char>) -> CommandModel {
    CommandModel {
        program: "cargo"@,
        args: seq!["read-manifest"@],
        directory: Some(directory),
        null_io: false,
    }
}

/// The command that prints the manifest of the package of `directory` as
/// a document.
pub fn read_manifest(directory: &str) -> (command: Command)
    ensures
        command@ == read_manifest_command(directory@),
{
    let mut command = Command::new("cargo");
    command.arg("read-manifest");
    command.current_dir(directory);
    assert(command@.args =~= seq!["read-manifest"@]);
    command
}

/// `cargo metadata` in `directory`, with `--no-deps` where only the
/// packages of the workspace are wanted.
pub open spec fn metadata_command(directory: Seq<char>, no_deps: bool) -> CommandModel {
    CommandModel {
        program: "cargo"@,
        args: if no_deps {
            seq!["metadata"@, "--no-deps"@]
        } else {
            seq!["metadata"@]
        },
        directory: Some(directory),
        null_io: false,
    }
}

/// The command that resolves the dependency graph of the package of
/// `directory` and prints it.  Resolving brings the lockfile in line with
/// the manifest.
pub fn metadata(directory: &str, no_deps: bool) -> (command: Command)
    ensures
        command@ == metadata_command(directory@, no_deps),
{
    let mut command = Command::new("cargo");
    command.arg("metadata");
    command.current_dir(directory);
    if no_deps {
        command.arg("--no-deps");
    }
    assert(command@.args =~= metadata_command(directory@, no_deps).args);
    command
}

/// `cargo init --name dummy_for_querying_crate_versions` in `directory`,
/// cut off from the standard streams.
pub open spec fn init_command(directory: Seq<char>) -> CommandModel {
    CommandModel {
        program: "cargo"@,
        args: seq!["init"@, "--name"@, "dummy_for_querying_crate_versions"@],
        directory: Some(directory),
        null_io: true,
    }
}

/// The command that makes an empty package in `directory`, under a name
/// of its own rather than one taken from the directory.
pub fn init(directory: &str) -> (command: Command)
    ensures
        command@ == init_command(directory@),
{
    let mut command = Command::new("cargo");
    command.arg("init");
    command.arg("--name");
    command.arg("dummy_for_querying_crate_versions");
    command.null_io();
    command.current_dir(directory);
    assert(command@.args =~= init_command(directory@).args);
    command
}

/// `cargo add -- <crate_names>` in `directory`, cut off from the standard
/// streams.
pub open spec fn add_all_command(directory: Seq<char>, crate_names: Seq<Seq<char>>) -> CommandModel {
    CommandModel {
        program: "cargo"@,
        args: seq!["add"@, "--"@] + crate_names,
        directory: Some(directory),
        null_io: true,
    }
}

/// The command that declares every package of `crate_names` as a
/// dependency of the package of `directory`, at its latest release.
pub fn add_all(directory: &str, crate_names: &Vec<String>) -> (command: Command)
    ensures
        command@ == add_all_command(directory@, texts(crate_names@)),
{
    let mut command = Command::new("cargo");
    command.arg("add");
    command.arg("--");
    command.args(crate_names);
    command.null_io();
    command.current_dir(directory);
    assert(command@.args =~= seq!["add"@, "--"@] + texts(crate_names@));
    command
}

/// `cargo update` in `directory`.
pub open spec fn update_command(directory: Seq<char>) -> CommandModel {
    CommandModel {
        program: "cargo"@,
        args: seq!["update"@],
        directory: Some(directory),
        null_io: false,
    }
}

/// The command that moves the lockfile of `directory` to the newest
/// versions that the requirements allow.
pub fn update(directory: &str) -> (command: Command)
    ensures
        command@ == update_command(directory@),
{
    let mut command = Command::new("cargo");
    command.arg("update");
    command.current_dir(directory);
    assert(command@.args =~= seq!["update"@]);
    command
}

/// `cargo check --all-targets` in `directory`.
pub open spec fn check_command(directory: Seq<char>) -> CommandModel {
    CommandModel {
        program: "cargo"@,
        args: seq!["check"@, "--all-targets"@],
        directory: Some(directory),
        null_io: false,
    }
}

/// The command that checks that every target of the package of
/// `directory` still builds.
pub fn check(directory: &str) -> (command: Command)
    ensures
        command@ == check_command(directory@),
{
    let mut command = Command::new("cargo");
    command.arg("check");
    command.arg("--all-targets");
    command.current_dir(directory);
    assert(command@.args =~= seq!["check"@, "--all-targets"@]);
    command
}

} // verus!
