//! One run from the first check to the commit, as a state machine.
//!
//! The session never acts.  Each turn takes the event that answers the
//! last action and gives the next action, with the notices for the user.
//! The caller performs the action and reports what came of it.  Nothing in
//! the tree is touched before the working branch exists, and a session
//! commits at most once.

use vstd::prelude::*;
use vstd::string::*;
use crate::cargo;
use crate::cargo::add_all_command;
use crate::cargo::add_command;
use crate::cargo::check_command;
use crate::cargo::dependency_models;
use crate::cargo::get_latest_versions;
use crate::cargo::init_command;
use crate::cargo::latest_versions_of;
use crate::cargo::metadata_command;
use crate::cargo::read_manifest_command;
use crate::cargo::role_flags;
use crate::cargo::role_flags_of;
use crate::cargo::update_command;
use crate::cargo::Dependency;
use crate::cargo::DependencyModel;
use crate::cargo::LatestVersions;
use crate::cargo::Manifest;
use crate::cargo::Metadata;
use crate::command_ext::answer_of;
use crate::command_ext::success_of;
use crate::command_ext::Command;
use crate::command_ext::CommandModel;
use crate::command_ext::Outcome;
use crate::error::ErrorModel;
use crate::error::SessionError;
use crate::git;
use crate::git::base_branch;
use crate::git::branch_name_of;
use crate::git::commit_command;
use crate::git::diff_command;
use crate::git::fetch_command;
use crate::git::show_branch_command;
use crate::git::start_point_of;
use crate::git::switch_command;
use crate::git::working_tree_clean;
use crate::locate::excluded_by;
use crate::locate::locate;
use crate::locate::is_target_manifest;
use crate::locate::paths;
use crate::notice::notice_models;
use crate::notice::Notice;
use crate::notice::NoticeModel;
use crate::text::texts;
use crate::update_all::update_message;
use crate::update_all::update_message_text;
use crate::upgrade::commit_message;
use crate::upgrade::commit_message_of;
use crate::upgrade::decide;
use crate::upgrade::decided;
use crate::upgrade::Decision;
use crate::version::ResolvedVersion;

verus! {

/// Which of the two kinds of run a session is.
#[derive(Clone, Copy, Debug, PartialEq, Eq, Structural)]
pub enum Mode {
    /// Every lockfile is moved to the newest versions that the
    /// requirements allow.
    UpdateAll,
    /// The requirements of the named packages are advanced.
    Upgrade,
}

/// What a session is waiting for.
#[derive(Clone, Copy, Debug, PartialEq, Eq, Structural)]
pub enum Phase {
    /// Nothing has happened yet.
    Start,
    /// An exclusion path is being resolved.
    Exclusions,
    /// The working tree is being compared with the index.
    WorkingTree,
    /// The scratch project's directory is being made.
    ScratchMake,
    /// The scratch project is being initialised.
    ScratchInit,
    /// The requested packages are being added to the scratch project.
    ScratchAdd,
    /// The manifest of the scratch project is being read.
    ScratchRead,
    /// The scratch project is being discarded.
    ScratchDrop,
    /// The branch `main` is being looked for.
    ProbeMain,
    /// The branch `master` is being looked for.
    ProbeMaster,
    /// The base branch is being fetched.
    Fetch,
    /// The working branch is being made.
    Branch,
    /// The walk for manifests is under way.
    Manifests,
    /// A manifest that the walk found is being placed.
    ManifestPath,
    /// A manifest is being read.
    ManifestRead,
    /// A dependency is being declared anew.
    Adding,
    /// The walk for lockfiles is under way.
    Lockfiles,
    /// A lockfile that the walk found is being placed.
    LockfilePath,
    /// The dependency graph of a package is being resolved.
    Resolving,
    /// A lockfile is being updated.
    Updating,
    /// The working tree is being compared with the index, after an update.
    TreeAfterUpdate,
    /// A package is being checked.
    Checking,
    /// The changes are being committed.
    Committing,
    /// The session is over.
    Finished,
}

/// What came of resolving a path.
#[derive(Clone, Debug, PartialEq, Eq)]
pub enum PathProbe {
    /// Nothing is there.
    Missing,
    /// Something is there, and its canonical path could not be had.
    Unresolvable,
    /// The canonical absolute path, by its components from the root down.
    Canonical(Vec<String>),
}

/// What the caller reports to the session.
#[derive(Clone, Debug, PartialEq, Eq)]
pub enum Event {
    /// The run begins.
    Begin,
    /// Answers [`Action::ResolveExclusion`].
    Exclusion(PathProbe),
    /// Answers [`Action::Run`]: how the command ended.
    Exit(Outcome),
    /// Answers [`Action::MakeScratch`]: the new directory, or `None` where
    /// none could be made.
    Scratch(Option<String>),
    /// Answers [`Action::ReadManifest`]: how the command ended, and the
    /// manifest where its output is one.
    Manifest(Outcome, Option<Manifest>),
    /// Answers [`Action::ReadMetadata`]: how the command ended, and the
    /// dependency graph where its output is one.
    Metadata(Outcome, Option<Metadata>),
    /// Answers [`Action::DiscardScratch`].
    Discarded,
    /// Answers [`Action::NextEntry`]: the next file or directory of the
    /// walk, by its name and its path.
    Entry { file_name: String, path: String },
    /// Answers [`Action::NextEntry`]: the walk is over.
    EndOfWalk,
    /// Answers [`Action::NextEntry`]: the walk could not read on.
    Unreadable { path: String },
    /// Answers [`Action::Locate`]: the directory that holds the file, and
    /// the canonical absolute path of the file by its components; `None`
    /// for what could not be had.
    Location { directory: Option<String>, canonical: Option<Vec<String>> },
}

/// What the session asks of the caller.
#[derive(Clone, Debug, PartialEq, Eq)]
pub enum Action {
    /// See whether `path` exists, and resolve it to its canonical absolute
    /// path.
    ResolveExclusion { path: String },
    /// Run the command and wait for its end.
    Run(Command),
    /// Make an empty directory for the scratch project.
    MakeScratch,
    /// Run the command, and read its standard output as a manifest.
    ReadManifest(Command),
    /// Run the command, and read its standard output as a dependency
    /// graph.
    ReadMetadata(Command),
    /// Remove the scratch project.
    DiscardScratch,
    /// Give the next entry of the walk through the tree below the current
    /// directory, which does not follow symbolic links.  With `restart`,
    /// the walk begins anew.
    NextEntry { restart: bool },
    /// Find the directory that holds the file `path`, and the canonical
    /// absolute path of the file.
    Locate { path: String },
    /// Nothing is left to do.  The run succeeded.
    Done,
    /// Nothing more is done.  The run failed with this error.  A scratch
    /// project that still exists is to be removed.
    Fail(SessionError),
}

/// What an [`Action`] holds, as mathematical values.
pub ghost enum ActionModel {
    ResolveExclusion { path: Seq<char> },
    Run(CommandModel),
    MakeScratch,
    ReadManifest(CommandModel),
    ReadMetadata(CommandModel),
    DiscardScratch,
    NextEntry { restart: bool },
    Locate { path: Seq<char> },
    Done,
    Fail(ErrorModel),
}

impl View for Action {
    type V = ActionModel;

    open spec fn view(&self) -> ActionModel {
        match *self {
            Action::ResolveExclusion { path } => ActionModel::ResolveExclusion { path: path@ },
            Action::Run(command) => ActionModel::Run(command@),
            Action::MakeScratch => ActionModel::MakeScratch,
            Action::ReadManifest(command) => ActionModel::ReadManifest(command@),
            Action::ReadMetadata(command) => ActionModel::ReadMetadata(command@),
            Action::DiscardScratch => ActionModel::DiscardScratch,
            Action::NextEntry { restart } => ActionModel::NextEntry { restart },
            Action::Locate { path } => ActionModel::Locate { path: path@ },
            Action::Done => ActionModel::Done,
            Action::Fail(error) => ActionModel::Fail(error@),
        }
    }
}

/// What one turn gives: the notices for the user, in order, and then the
/// action to perform.
#[derive(Clone, Debug, PartialEq, Eq)]
pub struct Step {
    pub notices: Vec<Notice>,
    pub action: Action,
}

/// How a command is run.
#[derive(Clone, Copy, Debug, PartialEq, Eq, Structural)]
pub enum Capture {
    /// For its end alone.
    Nothing,
    /// For the manifest that it prints.
    Manifest,
    /// For the dependency graph that it prints.
    Metadata,
}

/// The state of a session between two turns.
#[derive(Clone, Debug)]
pub struct Session {
    pub phase: Phase,
    /// The exclusion paths that are resolved so far, each by the
    /// components of its canonical path.
    pub exclusions: Vec<Vec<String>>,
    /// The directory of the scratch project.
    pub scratch: String,
    /// The latest release of each requested package.
    pub latest: LatestVersions,
    /// Whether the branch `main` exists.
    pub main_exists: bool,
    /// The base branch.
    pub base_branch: String,
    /// Whether a manifest was looked through, or a lockfile changed.
    pub any_changes: bool,
    /// The file that is being placed.
    pub path: String,
    /// The directory of the package that is being dealt with.
    pub directory: String,
    /// The dependencies of the manifest that is being looked through.
    pub dependencies: Vec<Dependency>,
    /// How many of them have been dealt with.
    pub next: usize,
    /// The command that was given out last.
    pub running: Command,
}

/// What a [`Session`] holds, as mathematical values.
pub ghost struct SessionModel {
    pub phase: Phase,
    pub exclusions: Seq<Seq<Seq<char>>>,
    pub scratch: Seq<char>,
    pub latest: Map<Seq<char>, ResolvedVersion>,
    pub main_exists: bool,
    pub base_branch: Seq<char>,
    pub any_changes: bool,
    pub path: Seq<char>,
    pub directory: Seq<char>,
    pub dependencies: Seq<DependencyModel>,
    pub next: nat,
    pub running: CommandModel,
}

impl View for Session {
    type V = SessionModel;

    open spec fn view(&self) -> SessionModel {
        SessionModel {
            phase: self.phase,
            exclusions: paths(self.exclusions@),
            scratch: self.scratch@,
            latest: self.latest@,
            main_exists: self.main_exists,
            base_branch: self.base_branch@,
            any_changes: self.any_changes,
            path: self.path@,
            directory: self.directory@,
            dependencies: dependency_models(self.dependencies@),
            next: self.next as nat,
            running: self.running@,
        }
    }
}

/// What the user asked for, as far as a session goes by it.
pub struct Config<'a> {
    pub mode: Mode,
    /// The paths that are left out, as the user wrote them.
    pub exclude: &'a Vec<String>,
    /// Whether each package is checked once its lockfile is in line.
    pub check: bool,
    /// The packages to upgrade.
    pub names: &'a Vec<String>,
}

/// What a [`Config`] holds, as mathematical values.
pub ghost struct ConfigModel {
    pub mode: Mode,
    pub exclude: Seq<Seq<char>>,
    pub check: bool,
    pub names: Seq<Seq<char>>,
}

impl<'a> View for Config<'a> {
    type V = ConfigModel;

    open spec fn view(&self) -> ConfigModel {
        ConfigModel {
            mode: self.mode,
            exclude: texts(self.exclude@),
            check: self.check,
            names: texts(self.names@),
        }
    }
}

/// What a turn comes to: the state afterwards, the notices, the action.
pub ghost struct TurnModel {
    pub state: SessionModel,
    pub notices: Seq<NoticeModel>,
    pub action: ActionModel,
}

/// The state before the first turn: nothing is resolved, nothing is
/// known, nothing was given out.
pub open spec fn initial() -> SessionModel {
    SessionModel {
        phase: Phase::Start,
        exclusions: Seq::empty(),
        scratch: Seq::empty(),
        latest: Map::empty(),
        main_exists: false,
        base_branch: Seq::empty(),
        any_changes: false,
        path: Seq::empty(),
        directory: Seq::empty(),
        dependencies: Seq::empty(),
        next: 0,
        running: CommandModel {
            program: Seq::empty(),
            args: Seq::empty(),
            directory: None,
            null_io: false,
        },
    }
}

impl SessionModel {
    /// What holds of every state that a session comes to: while the
    /// scratch project is worked on, the command that runs is one in the
    /// scratch project.
    pub open spec fn well_formed(self) -> bool {
        self.phase == Phase::ScratchInit || self.phase == Phase::ScratchAdd || self.phase
            == Phase::ScratchRead ==> self.running.directory == Some(self.scratch)
    }
}

/// What a turn came to, as mathematical values.
pub open spec fn turn_of(turn: (Session, Step)) -> TurnModel {
    TurnModel {
        state: turn.0@,
        notices: notice_models(turn.1.notices@),
        action: turn.1.action@,
    }
}

/// The word for the kind of run in the name of the working branch.
pub open spec fn subcommand_of(mode: Mode) -> Seq<char> {
    match mode {
        Mode::UpdateAll => "update-all"@,
        Mode::Upgrade => "upgrade"@,
    }
}

/// The session ends in failure.
pub open spec fn failed(s: SessionModel, notices: Seq<NoticeModel>, error: ErrorModel) -> TurnModel {
    TurnModel {
        state: SessionModel { phase: Phase::Finished, ..s },
        notices,
        action: ActionModel::Fail(error),
    }
}

/// The session ends in failure, because the event does not answer the
/// last action.
pub open spec fn confused(s: SessionModel) -> TurnModel {
    failed(s, Seq::empty(), ErrorModel::UnexpectedEvent)
}

/// The session gives out a command and waits in `phase` for its end.
pub open spec fn issued(
    s: SessionModel,
    phase: Phase,
    notices: Seq<NoticeModel>,
    command: CommandModel,
    capture: Capture,
) -> TurnModel {
    TurnModel {
        state: SessionModel { phase, running: command, ..s },
        notices,
        action: match capture {
            Capture::Nothing => ActionModel::Run(command),
            Capture::Manifest => ActionModel::ReadManifest(command),
            Capture::Metadata => ActionModel::ReadMetadata(command),
        },
    }
}

/// The session asks for the next entry of the walk and waits in `phase`.
pub open spec fn walking(s: SessionModel, phase: Phase, notices: Seq<NoticeModel>, restart: bool) -> TurnModel {
    TurnModel {
        state: SessionModel { phase, ..s },
        notices,
        action: ActionModel::NextEntry { restart },
    }
}

/// The next exclusion path is resolved; when none is left, the working
/// tree is looked at.
pub open spec fn resolving(cfg: ConfigModel, s: SessionModel) -> TurnModel {
    if s.exclusions.len() < cfg.exclude.len() {
        TurnModel {
            state: SessionModel { phase: Phase::Exclusions, ..s },
            notices: Seq::empty(),
            action: ActionModel::ResolveExclusion { path: cfg.exclude[s.exclusions.len() as int] },
        }
    } else {
        issued(s, Phase::WorkingTree, Seq::empty(), diff_command(), Capture::Nothing)
    }
}

/// An exclusion path was resolved.  One that is missing ends the session
/// before anything else is done.
pub open spec fn on_exclusion(cfg: ConfigModel, s: SessionModel, probe: PathProbe) -> TurnModel {
    if s.exclusions.len() >= cfg.exclude.len() {
        confused(s)
    } else {
        let path = cfg.exclude[s.exclusions.len() as int];
        match probe {
            PathProbe::Missing => failed(
                s,
                Seq::empty(),
                ErrorModel::MissingExclusion { path },
            ),
            PathProbe::Unresolvable => failed(
                s,
                Seq::empty(),
                ErrorModel::UnreadablePath { path },
            ),
            PathProbe::Canonical(canonical) => resolving(
                cfg,
                SessionModel { exclusions: s.exclusions.push(texts(canonical@)), ..s },
            ),
        }
    }
}

/// The search for the base branch begins.
pub open spec fn probing(s: SessionModel) -> TurnModel {
    issued(s, Phase::ProbeMain, Seq::empty(), show_branch_command("main"@), Capture::Nothing)
}

/// The working tree was looked at.  It must be clean.  An upgrade then
/// finds the latest versions; an update goes on to the base branch.
pub open spec fn on_working_tree(cfg: ConfigModel, s: SessionModel, outcome: Outcome) -> TurnModel {
    match working_tree_clean(outcome) {
        Err(error) => failed(s, Seq::empty(), error),
        Ok(clean) => if !clean {
            failed(s, Seq::empty(), ErrorModel::DirtyWorkingTree)
        } else if cfg.mode == Mode::Upgrade {
            TurnModel {
                state: SessionModel { phase: Phase::ScratchMake, ..s },
                notices: Seq::empty(),
                action: ActionModel::MakeScratch,
            }
        } else {
            probing(s)
        },
    }
}

/// The scratch directory was made, or not.
pub open spec fn on_scratch(s: SessionModel, directory: Option<String>) -> TurnModel {
    match directory {
        None => failed(s, Seq::empty(), ErrorModel::ScratchUnavailable),
        Some(directory) => issued(
            SessionModel { scratch: directory@, ..s },
            Phase::ScratchInit,
            Seq::empty(),
            init_command(directory@),
            Capture::Nothing,
        ),
    }
}

/// The scratch project was initialised, or not.
pub open spec fn on_scratch_init(cfg: ConfigModel, s: SessionModel, outcome: Outcome) -> TurnModel {
    match success_of(s.running, outcome) {
        Err(error) => failed(s, Seq::empty(), error),
        Ok(_) => issued(
            s,
            Phase::ScratchAdd,
            Seq::empty(),
            add_all_command(s.scratch, cfg.names),
            Capture::Nothing,
        ),
    }
}

/// The requested packages were added to the scratch project, or not.
pub open spec fn on_scratch_add(s: SessionModel, outcome: Outcome) -> TurnModel {
    match success_of(s.running, outcome) {
        Err(error) => failed(s, Seq::empty(), error),
        Ok(_) => issued(
            s,
            Phase::ScratchRead,
            Seq::empty(),
            read_manifest_command(s.scratch),
            Capture::Manifest,
        ),
    }
}

/// The manifest of the scratch project was read, or not.  The latest
/// versions are taken from it, once and for the whole session.
pub open spec fn on_scratch_read(s: SessionModel, outcome: Outcome, manifest: Option<Manifest>) -> TurnModel {
    match success_of(s.running, outcome) {
        Err(error) => failed(s, Seq::empty(), error),
        Ok(_) => match manifest {
            None => failed(s, Seq::empty(), ErrorModel::MalformedOutput { command: s.running }),
            Some(manifest) => match latest_versions_of(manifest@) {
                Err(error) => failed(s, Seq::empty(), error),
                Ok(latest) => TurnModel {
                    state: SessionModel { phase: Phase::ScratchDrop, latest, ..s },
                    notices: Seq::empty(),
                    action: ActionModel::DiscardScratch,
                },
            },
        },
    }
}

/// It is known whether `main` exists.
pub open spec fn on_probe_main(s: SessionModel, outcome: Outcome) -> TurnModel {
    match answer_of(show_branch_command("main"@), outcome) {
        Err(error) => failed(s, Seq::empty(), error),
        Ok(exists) => issued(
            SessionModel { main_exists: exists, ..s },
            Phase::ProbeMaster,
            Seq::empty(),
            show_branch_command("master"@),
            Capture::Nothing,
        ),
    }
}

/// It is known whether `master` exists.  The base branch is the one of
/// the two that exists alone, and is fetched.
pub open spec fn on_probe_master(s: SessionModel, outcome: Outcome) -> TurnModel {
    match answer_of(show_branch_command("master"@), outcome) {
        Err(error) => failed(s, Seq::empty(), error),
        Ok(exists) => match base_branch(s.main_exists, exists) {
            Err(error) => failed(s, Seq::empty(), error),
            Ok(base) => issued(
                SessionModel { base_branch: base, ..s },
                Phase::Fetch,
                Seq::empty(),
                fetch_command(base),
                Capture::Nothing,
            ),
        },
    }
}

/// The base branch was fetched, or not.  The working branch is made from
/// it, under a name that holds `stamp`.
pub open spec fn on_fetch(cfg: ConfigModel, s: SessionModel, outcome: Outcome, stamp: Seq<char>) -> TurnModel {
    match success_of(s.running, outcome) {
        Err(error) => failed(s, Seq::empty(), error),
        Ok(_) => issued(
            s,
            Phase::Branch,
            Seq::empty(),
            switch_command(
                branch_name_of(subcommand_of(cfg.mode), stamp),
                start_point_of(s.base_branch),
            ),
            Capture::Nothing,
        ),
    }
}

/// The working branch was made, or not.  The first walk begins: for
/// manifests in an upgrade, for lockfiles in an update.
pub open spec fn on_branch(cfg: ConfigModel, s: SessionModel, outcome: Outcome) -> TurnModel {
    match success_of(s.running, outcome) {
        Err(error) => failed(s, Seq::empty(), error),
        Ok(_) => if cfg.mode == Mode::Upgrade {
            walking(
                s,
                Phase::Manifests,
                seq![NoticeModel::LookingFor { file_name: "Cargo.toml"@ }],
                true,
            )
        } else {
            walking(
                s,
                Phase::Lockfiles,
                seq![NoticeModel::LookingFor { file_name: "Cargo.lock"@ }],
                true,
            )
        },
    }
}

/// The walk gave an entry.  A file of the wanted name is placed; any
/// other entry is passed over.
pub open spec fn on_entry(
    s: SessionModel,
    wanted: Seq<char>,
    placing: Phase,
    file_name: Seq<char>,
    path: Seq<char>,
) -> TurnModel {
    if file_name == wanted {
        TurnModel {
            state: SessionModel { phase: placing, path, ..s },
            notices: Seq::empty(),
            action: ActionModel::Locate { path },
        }
    } else {
        walking(s, s.phase, Seq::empty(), false)
    }
}

/// The notices with one more, where there is one more.
pub open spec fn with_notice(notices: Seq<NoticeModel>, more: Option<NoticeModel>) -> Seq<NoticeModel> {
    match more {
        Some(notice) => notices.push(notice),
        None => notices,
    }
}

/// The dependencies of the manifest at hand are dealt with in order, from
/// the first that is left.  One that is passed over gives its notice.  One
/// that is to be rewritten is declared anew, at the latest release and in
/// its role, and the session waits for that.  After the last, the walk
/// goes on.
pub open spec fn scanning(cfg: ConfigModel, s: SessionModel, notices: Seq<NoticeModel>) -> TurnModel
    decreases s.dependencies.len() - s.next,
{
    if s.next >= s.dependencies.len() {
        walking(SessionModel { any_changes: true, ..s }, Phase::Manifests, notices, false)
    } else {
        let dep = s.dependencies[s.next as int];
        match decided(dep, cfg.names, s.latest) {
            Err(error) => failed(s, notices, error),
            Ok(decision) => match decision {
                Decision::Apply(version) => issued(
                    SessionModel { next: s.next + 1, ..s },
                    Phase::Adding,
                    notices,
                    add_command(
                        s.directory,
                        dep.name + "@"@ + version.text(),
                        role_flags_of(dep.kind),
                    ),
                    Capture::Nothing,
                ),
                _ => scanning(
                    cfg,
                    SessionModel { next: s.next + 1, ..s },
                    with_notice(notices, decision.notice_of(dep.name)),
                ),
            },
        }
    }
}

/// A manifest was placed.  One that is excluded is passed over, with a
/// notice; any other is read.
pub open spec fn on_manifest_path(
    s: SessionModel,
    directory: Option<String>,
    canonical: Option<Vec<String>>,
) -> TurnModel {
    if directory is None || canonical is None {
        failed(s, Seq::empty(), ErrorModel::UnreadablePath { path: s.path })
    } else if excluded_by(s.exclusions, texts(canonical->0@)) {
        walking(
            s,
            Phase::Manifests,
            seq![NoticeModel::Skipping { directory: directory->0@ }],
            false,
        )
    } else {
        issued(
            SessionModel { directory: directory->0@, ..s },
            Phase::ManifestRead,
            seq![NoticeModel::LookingForUpgrades { directory: directory->0@ }],
            read_manifest_command(directory->0@),
            Capture::Manifest,
        )
    }
}

/// A manifest was read, or not.  One that could not be read is taken to
/// declare no dependency of its own, and is passed over with a warning.
pub open spec fn on_manifest_read(
    cfg: ConfigModel,
    s: SessionModel,
    outcome: Outcome,
    manifest: Option<Manifest>,
) -> TurnModel {
    if outcome == Outcome::Exited(0) && manifest is Some {
        scanning(
            cfg,
            SessionModel { dependencies: manifest->0@, next: 0, ..s },
            Seq::empty(),
        )
    } else {
        walking(s, Phase::Manifests, seq![NoticeModel::AssumingVirtualManifest], false)
    }
}

/// A dependency was declared anew, or not.
pub open spec fn on_added(cfg: ConfigModel, s: SessionModel, outcome: Outcome) -> TurnModel {
    match success_of(s.running, outcome) {
        Err(error) => failed(s, Seq::empty(), error),
        Ok(_) => scanning(cfg, s, Seq::empty()),
    }
}

/// The walk for manifests is over.  The walk for lockfiles begins.
pub open spec fn on_manifests_done(s: SessionModel) -> TurnModel {
    walking(
        s,
        Phase::Lockfiles,
        if s.any_changes {
            seq![NoticeModel::LookingFor { file_name: "Cargo.lock"@ }]
        } else {
            seq![
                NoticeModel::NothingToUpgrade,
                NoticeModel::LookingFor { file_name: "Cargo.lock"@ },
            ]
        },
        true,
    )
}

/// A lockfile was placed.  One that is excluded is passed over, with a
/// notice.  For any other the dependency graph is resolved in an upgrade,
/// and the lockfile is updated in an update.
pub open spec fn on_lockfile_path(
    cfg: ConfigModel,
    s: SessionModel,
    directory: Option<String>,
    canonical: Option<Vec<String>>,
) -> TurnModel {
    if directory is None || canonical is None {
        failed(s, Seq::empty(), ErrorModel::UnreadablePath { path: s.path })
    } else if excluded_by(s.exclusions, texts(canonical->0@)) {
        walking(
            s,
            Phase::Lockfiles,
            seq![NoticeModel::Skipping { directory: directory->0@ }],
            false,
        )
    } else if cfg.mode == Mode::Upgrade {
        issued(
            SessionModel { directory: directory->0@, ..s },
            Phase::Resolving,
            Seq::empty(),
            metadata_command(directory->0@, false),
            Capture::Metadata,
        )
    } else {
        issued(
            SessionModel { directory: directory->0@, ..s },
            Phase::Updating,
            seq![NoticeModel::RunningUpdate { directory: directory->0@ }],
            update_command(directory->0@),
            Capture::Nothing,
        )
    }
}

/// The lockfile of a package is in line.  The package is checked where
/// that was asked for; otherwise the walk goes on.
pub open spec fn checking(cfg: ConfigModel, s: SessionModel) -> TurnModel {
    if cfg.check {
        issued(
            s,
            Phase::Checking,
            seq![NoticeModel::RunningCheck { directory: s.directory }],
            check_command(s.directory),
            Capture::Nothing,
        )
    } else {
        walking(s, Phase::Lockfiles, Seq::empty(), false)
    }
}

/// The dependency graph was resolved, or not.
pub open spec fn on_resolved(
    cfg: ConfigModel,
    s: SessionModel,
    outcome: Outcome,
    metadata: Option<Metadata>,
) -> TurnModel {
    match success_of(s.running, outcome) {
        Err(error) => failed(s, Seq::empty(), error),
        Ok(_) => if metadata is None {
            failed(s, Seq::empty(), ErrorModel::MalformedOutput { command: s.running })
        } else {
            checking(cfg, s)
        },
    }
}

/// The lockfile was updated, or not.  The working tree tells whether
/// anything changed.
pub open spec fn on_updated(s: SessionModel, outcome: Outcome) -> TurnModel {
    match success_of(s.running, outcome) {
        Err(error) => failed(s, Seq::empty(), error),
        Ok(_) => issued(s, Phase::TreeAfterUpdate, Seq::empty(), diff_command(), Capture::Nothing),
    }
}

/// The working tree was looked at after an update.
pub open spec fn on_tree_after_update(cfg: ConfigModel, s: SessionModel, outcome: Outcome) -> TurnModel {
    match working_tree_clean(outcome) {
        Err(error) => failed(s, Seq::empty(), error),
        Ok(clean) => if clean {
            walking(s, Phase::Lockfiles, seq![NoticeModel::AlreadyUpToDate], false)
        } else {
            checking(cfg, SessionModel { any_changes: true, ..s })
        },
    }
}

/// The package was checked.  A failed check ends the session, and nothing
/// is committed.
pub open spec fn on_checked(s: SessionModel, outcome: Outcome) -> TurnModel {
    match success_of(s.running, outcome) {
        Err(error) => failed(s, Seq::empty(), error),
        Ok(_) => walking(s, Phase::Lockfiles, Seq::empty(), false),
    }
}

/// The walk for lockfiles is over.  An upgrade commits under the message
/// that lists the packages.  An update commits where a lockfile changed,
/// and is over at once where none did.
pub open spec fn on_lockfiles_done(cfg: ConfigModel, s: SessionModel) -> TurnModel {
    if cfg.mode == Mode::Upgrade {
        match commit_message_of(cfg.names, s.latest) {
            Err(error) => failed(s, seq![NoticeModel::Committing], error),
            Ok(message) => issued(
                s,
                Phase::Committing,
                seq![NoticeModel::Committing],
                commit_command(message),
                Capture::Nothing,
            ),
        }
    } else if s.any_changes {
        issued(
            s,
            Phase::Committing,
            seq![NoticeModel::Committing],
            commit_command(update_message_text()),
            Capture::Nothing,
        )
    } else {
        TurnModel {
            state: SessionModel { phase: Phase::Finished, ..s },
            notices: seq![NoticeModel::NothingToUpdate, NoticeModel::UpdatesApplied],
            action: ActionModel::Done,
        }
    }
}

/// The commit was made, or not.
pub open spec fn on_committed(cfg: ConfigModel, s: SessionModel, outcome: Outcome) -> TurnModel {
    match success_of(s.running, outcome) {
        Err(error) => failed(s, Seq::empty(), error),
        Ok(_) => TurnModel {
            state: SessionModel { phase: Phase::Finished, ..s },
            notices: if cfg.mode == Mode::Upgrade {
                seq![NoticeModel::UpgradesApplied]
            } else {
                seq![NoticeModel::UpdatesApplied]
            },
            action: ActionModel::Done,
        },
    }
}

/// The walk could not read on.
pub open spec fn on_unreadable(s: SessionModel, path: Seq<char>) -> TurnModel {
    failed(s, Seq::empty(), ErrorModel::UnreadablePath { path })
}

/// What a turn comes to: from the state `s` and the event `event`, for
/// the user's wishes `cfg`, at the time `stamp`.
///
/// An event that does not answer the last action ends the session.  Once
/// the session is over, every turn gives [`Action::Done`].
pub open spec fn next_turn(cfg: ConfigModel, s: SessionModel, event: Event, stamp: Seq<char>) -> TurnModel {
    match s.phase {
        Phase::Start => match event {
            Event::Begin => resolving(cfg, s),
            _ => confused(s),
        },
        Phase::Exclusions => match event {
            Event::Exclusion(probe) => on_exclusion(cfg, s, probe),
            _ => confused(s),
        },
        Phase::WorkingTree => match event {
            Event::Exit(outcome) => on_working_tree(cfg, s, outcome),
            _ => confused(s),
        },
        Phase::ScratchMake => match event {
            Event::Scratch(directory) => on_scratch(s, directory),
            _ => confused(s),
        },
        Phase::ScratchInit => match event {
            Event::Exit(outcome) => on_scratch_init(cfg, s, outcome),
            _ => confused(s),
        },
        Phase::ScratchAdd => match event {
            Event::Exit(outcome) => on_scratch_add(s, outcome),
            _ => confused(s),
        },
        Phase::ScratchRead => match event {
            Event::Manifest(outcome, manifest) => on_scratch_read(s, outcome, manifest),
            _ => confused(s),
        },
        Phase::ScratchDrop => match event {
            Event::Discarded => probing(s),
            _ => confused(s),
        },
        Phase::ProbeMain => match event {
            Event::Exit(outcome) => on_probe_main(s, outcome),
            _ => confused(s),
        },
        Phase::ProbeMaster => match event {
            Event::Exit(outcome) => on_probe_master(s, outcome),
            _ => confused(s),
        },
        Phase::Fetch => match event {
            Event::Exit(outcome) => on_fetch(cfg, s, outcome, stamp),
            _ => confused(s),
        },
        Phase::Branch => match event {
            Event::Exit(outcome) => on_branch(cfg, s, outcome),
            _ => confused(s),
        },
        Phase::Manifests => match event {
            Event::Entry { file_name, path } => on_entry(
                s,
                "Cargo.toml"@,
                Phase::ManifestPath,
                file_name@,
                path@,
            ),
            Event::EndOfWalk => on_manifests_done(s),
            Event::Unreadable { path } => on_unreadable(s, path@),
            _ => confused(s),
        },
        Phase::ManifestPath => match event {
            Event::Location { directory, canonical } => on_manifest_path(s, directory, canonical),
            _ => confused(s),
        },
        Phase::ManifestRead => match event {
            Event::Manifest(outcome, manifest) => on_manifest_read(cfg, s, outcome, manifest),
            _ => confused(s),
        },
        Phase::Adding => match event {
            Event::Exit(outcome) => on_added(cfg, s, outcome),
            _ => confused(s),
        },
        Phase::Lockfiles => match event {
            Event::Entry { file_name, path } => on_entry(
                s,
                "Cargo.lock"@,
                Phase::LockfilePath,
                file_name@,
                path@,
            ),
            Event::EndOfWalk => on_lockfiles_done(cfg, s),
            Event::Unreadable { path } => on_unreadable(s, path@),
            _ => confused(s),
        },
        Phase::LockfilePath => match event {
            Event::Location { directory, canonical } => on_lockfile_path(
                cfg,
                s,
                directory,
                canonical,
            ),
            _ => confused(s),
        },
        Phase::Resolving => match event {
            Event::Metadata(outcome, metadata) => on_resolved(cfg, s, outcome, metadata),
            _ => confused(s),
        },
        Phase::Updating => match event {
            Event::Exit(outcome) => on_updated(s, outcome),
            _ => confused(s),
        },
        Phase::TreeAfterUpdate => match event {
            Event::Exit(outcome) => on_tree_after_update(cfg, s, outcome),
            _ => confused(s),
        },
        Phase::Checking => match event {
            Event::Exit(outcome) => on_checked(s, outcome),
            _ => confused(s),
        },
        Phase::Committing => match event {
            Event::Exit(outcome) => on_committed(cfg, s, outcome),
            _ => confused(s),
        },
        Phase::Finished => TurnModel { state: s, notices: Seq::empty(), action: ActionModel::Done },
    }
}

impl Phase {
    /// Whether the working branch does not exist yet: whether the session
    /// is still checking and preparing.
    pub open spec fn is_guard(self) -> bool {
        match self {
            Phase::Start => true,
            Phase::Exclusions => true,
            Phase::WorkingTree => true,
            Phase::ScratchMake => true,
            Phase::ScratchInit => true,
            Phase::ScratchAdd => true,
            Phase::ScratchRead => true,
            Phase::ScratchDrop => true,
            Phase::ProbeMain => true,
            Phase::ProbeMaster => true,
            Phase::Fetch => true,
            Phase::Branch => true,
            _ => false,
        }
    }

    /// Whether nothing can be committed any more.
    pub open spec fn is_closing(self) -> bool {
        self == Phase::Committing || self == Phase::Finished
    }
}

impl ActionModel {
    /// The command that the action has the caller run, if it has any run.
    pub open spec fn command(self) -> Option<CommandModel> {
        match self {
            ActionModel::Run(command) => Some(command),
            ActionModel::ReadManifest(command) => Some(command),
            ActionModel::ReadMetadata(command) => Some(command),
            _ => None,
        }
    }

    /// Whether the action commits.
    pub open spec fn is_commit(self) -> bool {
        match self.command() {
            Some(command) => commits(command),
            None => false,
        }
    }
}

/// Whether a command commits.
pub open spec fn commits(command: CommandModel) -> bool {
    command.program == "git"@ && command.args.len() > 0 && command.args[0] == "commit"@
}

/// Of the commands of a session, none commits but the commit.
proof fn lemma_what_does_not_commit()
    ensures
        !commits(diff_command()),
        forall|name: Seq<char>| !commits(#[trigger] show_branch_command(name)),
        forall|name: Seq<char>| !commits(#[trigger] fetch_command(name)),
        forall|name: Seq<char>, from: Seq<char>| !commits(#[trigger] switch_command(name, from)),
        forall|command: CommandModel| command.program == "cargo"@ ==> !#[trigger] commits(command),
{
    reveal_strlit("cargo");
    reveal_strlit("git");
    reveal_strlit("commit");
    reveal_strlit("diff");
    reveal_strlit("show-branch");
    reveal_strlit("fetch");
    reveal_strlit("checkout");
    assert("cargo"@.len() != "git"@.len());
    assert("diff"@.len() != "commit"@.len());
    assert("show-branch"@.len() != "commit"@.len());
    assert("fetch"@.len() != "commit"@.len());
    assert("checkout"@.len() != "commit"@.len());
}

/// Whether a command leaves the tree and the history as they are: whether
/// it is one of the questions to the repository, the fetch, the making of
/// the working branch, or a command in the scratch project.
pub open spec fn is_harmless(command: CommandModel, scratch: Seq<char>) -> bool {
    ||| command == diff_command()
    ||| exists|name: Seq<char>| command == #[trigger] show_branch_command(name)
    ||| exists|name: Seq<char>| command == #[trigger] fetch_command(name)
    ||| exists|name: Seq<char>, from: Seq<char>| command == #[trigger] switch_command(name, from)
    ||| command.directory == Some(scratch)
}

impl Phase {
    /// Whether a session that waits in this phase may wait in `next` one
    /// turn later.  Every phase may be followed by the end.  Apart from
    /// that the phases follow one another in the order of a run: the
    /// checks, the scratch project, the base branch, the working branch,
    /// the walk for manifests, the walk for lockfiles, the commit.
    pub open spec fn may_be_followed_by(self, next: Phase) -> bool {
        next == Phase::Finished || match self {
            Phase::Start => next == Phase::Exclusions || next == Phase::WorkingTree,
            Phase::Exclusions => next == Phase::Exclusions || next == Phase::WorkingTree,
            Phase::WorkingTree => next == Phase::ScratchMake || next == Phase::ProbeMain,
            Phase::ScratchMake => next == Phase::ScratchInit,
            Phase::ScratchInit => next == Phase::ScratchAdd,
            Phase::ScratchAdd => next == Phase::ScratchRead,
            Phase::ScratchRead => next == Phase::ScratchDrop,
            Phase::ScratchDrop => next == Phase::ProbeMain,
            Phase::ProbeMain => next == Phase::ProbeMaster,
            Phase::ProbeMaster => next == Phase::Fetch,
            Phase::Fetch => next == Phase::Branch,
            Phase::Branch => next == Phase::Manifests || next == Phase::Lockfiles,
            Phase::Manifests => next == Phase::Manifests || next == Phase::ManifestPath || next
                == Phase::Lockfiles,
            Phase::ManifestPath => next == Phase::Manifests || next == Phase::ManifestRead,
            Phase::ManifestRead => next == Phase::Manifests || next == Phase::Adding,
            Phase::Adding => next == Phase::Manifests || next == Phase::Adding,
            Phase::Lockfiles => next == Phase::Lockfiles || next == Phase::LockfilePath || next
                == Phase::Committing,
            Phase::LockfilePath => next == Phase::Lockfiles || next == Phase::Resolving || next
                == Phase::Updating,
            Phase::Resolving => next == Phase::Lockfiles || next == Phase::Checking,
            Phase::Updating => next == Phase::TreeAfterUpdate,
            Phase::TreeAfterUpdate => next == Phase::Lockfiles || next == Phase::Checking,
            Phase::Checking => next == Phase::Lockfiles,
            Phase::Committing => false,
            Phase::Finished => false,
        }
    }
}

proof fn lemma_guards_follow(cfg: ConfigModel, s: SessionModel, event: Event, stamp: Seq<char>)
    requires
        s.phase.is_guard(),
    ensures
        s.phase.may_be_followed_by(next_turn(cfg, s, event, stamp).state.phase),
{
}

proof fn lemma_manifests_follow(cfg: ConfigModel, s: SessionModel, event: Event, stamp: Seq<char>)
    requires
        s.phase == Phase::Manifests || s.phase == Phase::ManifestPath || s.phase
            == Phase::ManifestRead || s.phase == Phase::Adding,
    ensures
        s.phase.may_be_followed_by(next_turn(cfg, s, event, stamp).state.phase),
{
    match s.phase {
        Phase::ManifestRead => {
            match event {
                Event::Manifest(outcome, manifest) => {
                    if manifest is Some {
                        lemma_scanned(
                            cfg,
                            SessionModel { dependencies: manifest->0@, next: 0, ..s },
                            Seq::empty(),
                        );
                    }
                },
                _ => {
                },
            }
        },
        Phase::Adding => {
            lemma_scanned(cfg, s, Seq::empty());
        },
        _ => {
        },
    }
}

proof fn lemma_lockfiles_follow(cfg: ConfigModel, s: SessionModel, event: Event, stamp: Seq<char>)
    requires
        !s.phase.is_guard(),
        !(s.phase == Phase::Manifests || s.phase == Phase::ManifestPath || s.phase
            == Phase::ManifestRead || s.phase == Phase::Adding),
    ensures
        s.phase.may_be_followed_by(next_turn(cfg, s, event, stamp).state.phase),
{
}

/// The phases of a session follow one another in the order of a run,
/// whatever the session is told.
pub proof fn lemma_phases_follow_in_order(
    cfg: ConfigModel,
    s: SessionModel,
    event: Event,
    stamp: Seq<char>,
)
    ensures
        s.phase.may_be_followed_by(next_turn(cfg, s, event, stamp).state.phase),
{
    if s.phase.is_guard() {
        lemma_guards_follow(cfg, s, event, stamp);
    } else if s.phase == Phase::Manifests || s.phase == Phase::ManifestPath || s.phase
        == Phase::ManifestRead || s.phase == Phase::Adding {
        lemma_manifests_follow(cfg, s, event, stamp);
    } else {
        lemma_lockfiles_follow(cfg, s, event, stamp);
    }
}

proof fn lemma_scratch_commands(cfg: ConfigModel, s: SessionModel, event: Event, stamp: Seq<char>)
    requires
        s.well_formed(),
        s.phase == Phase::ScratchMake || s.phase == Phase::ScratchInit || s.phase
            == Phase::ScratchAdd,
    ensures
        next_turn(cfg, s, event, stamp).state.well_formed(),
{
}

/// A session starts well-formed and stays so, whatever it is told.
pub proof fn lemma_turn_keeps_well_formed(
    cfg: ConfigModel,
    s: SessionModel,
    event: Event,
    stamp: Seq<char>,
)
    requires
        s.well_formed(),
    ensures
        initial().well_formed(),
        next_turn(cfg, s, event, stamp).state.well_formed(),
{
    if s.phase == Phase::ScratchMake || s.phase == Phase::ScratchInit || s.phase
        == Phase::ScratchAdd {
        lemma_scratch_commands(cfg, s, event, stamp);
    } else {
        lemma_phases_follow_in_order(cfg, s, event, stamp);
    }
}

/// Until the working branch exists, nothing in the tree is touched: every
/// command that the session gives out before is a question to the
/// repository, the fetch, the making of the branch, or a command in the
/// scratch project.  And the session goes over to its work in the tree
/// only from the making of the branch, when that succeeded.
pub proof fn lemma_nothing_is_touched_before_the_branch(
    cfg: ConfigModel,
    s: SessionModel,
    event: Event,
    stamp: Seq<char>,
)
    requires
        s.well_formed(),
        s.phase.is_guard(),
    ensures
        ({
            let turn = next_turn(cfg, s, event, stamp);
            &&& turn.action.command() matches Some(command) ==> is_harmless(
                command,
                turn.state.scratch,
            )
            &&& !turn.state.phase.is_guard() && turn.state.phase != Phase::Finished ==> s.phase
                == Phase::Branch && event == Event::Exit(Outcome::Exited(0))
        }),
{
    let turn = next_turn(cfg, s, event, stamp);
    if turn.action.command() is Some {
        let command = turn.action.command()->0;
        match s.phase {
            Phase::WorkingTree => {
                assert(command == show_branch_command("main"@));
            },
            Phase::ScratchDrop => {
                assert(command == show_branch_command("main"@));
            },
            Phase::ProbeMain => {
                assert(command == show_branch_command("master"@));
            },
            Phase::ProbeMaster => {
                assert(command == fetch_command(turn.state.base_branch));
            },
            Phase::Fetch => {
                assert(command == switch_command(
                    branch_name_of(subcommand_of(cfg.mode), stamp),
                    start_point_of(s.base_branch),
                ));
            },
            _ => {
            },
        }
    }
}

/// A file that the walk found and that could be placed takes part if and
/// only if its canonical path is none of the exclusions and lies under
/// none of them: then its manifest is read, or its lockfile is brought in
/// line; otherwise the walk goes on.
pub proof fn lemma_taking_part_iff_not_excluded(
    cfg: ConfigModel,
    s: SessionModel,
    directory: String,
    canonical: Vec<String>,
    stamp: Seq<char>,
)
    requires
        s.phase == Phase::ManifestPath || s.phase == Phase::LockfilePath,
    ensures
        ({
            let event = Event::Location { directory: Some(directory), canonical: Some(canonical) };
            let turn = next_turn(cfg, s, event, stamp);
            let excluded = excluded_by(s.exclusions, texts(canonical@));
            &&& !excluded <==> turn.action.command() is Some
            &&& !excluded ==> turn.action.command()->0.directory == Some(directory@)
            &&& excluded <==> turn.action == ActionModel::NextEntry { restart: false }
            &&& excluded ==> turn.notices == seq![NoticeModel::Skipping { directory: directory@ }]
        }),
{
}

/// The latest versions are settled in one turn, the one that reads the
/// manifest of the scratch project, which comes before the working branch
/// exists.  No other turn changes them.
pub proof fn lemma_latest_versions_are_settled_once(
    cfg: ConfigModel,
    s: SessionModel,
    event: Event,
    stamp: Seq<char>,
)
    requires
        s.phase != Phase::ScratchRead,
    ensures
        next_turn(cfg, s, event, stamp).state.latest == s.latest,
{
    if s.phase == Phase::Manifests || s.phase == Phase::ManifestRead || s.phase == Phase::Adding {
        lemma_scanning_keeps(cfg, s, event, stamp);
    }
}

/// Looking through the dependencies of a manifest changes neither the
/// latest versions nor the phase but to wait for a dependency to be
/// declared anew, to go on with the walk, or to end in failure; and it
/// gives out no commit.
proof fn lemma_scanned(cfg: ConfigModel, s: SessionModel, notices: Seq<NoticeModel>)
    ensures
        ({
            let turn = scanning(cfg, s, notices);
            &&& turn.state.latest == s.latest
            &&& turn.state.phase == Phase::Adding || turn.state.phase == Phase::Manifests
                || turn.state.phase == Phase::Finished
            &&& !turn.action.is_commit()
        }),
    decreases s.dependencies.len() - s.next,
{
    lemma_what_does_not_commit();
    if s.next < s.dependencies.len() {
        let dep = s.dependencies[s.next as int];
        match decided(dep, cfg.names, s.latest) {
            Err(_) => {
            },
            Ok(decision) => match decision {
                Decision::Apply(_) => {
                },
                _ => {
                    lemma_scanned(
                        cfg,
                        SessionModel { next: s.next + 1, ..s },
                        with_notice(notices, decision.notice_of(dep.name)),
                    );
                },
            },
        }
    }
}

proof fn lemma_scanning_keeps(cfg: ConfigModel, s: SessionModel, event: Event, stamp: Seq<char>)
    requires
        s.phase == Phase::Manifests || s.phase == Phase::ManifestRead || s.phase == Phase::Adding,
    ensures
        next_turn(cfg, s, event, stamp).state.latest == s.latest,
{
    match event {
        Event::Manifest(outcome, manifest) => {
            if manifest is Some {
                lemma_scanned(
                    cfg,
                    SessionModel { dependencies: manifest->0@, next: 0, ..s },
                    Seq::empty(),
                );
            }
        },
        Event::Exit(_) => {
            lemma_scanned(cfg, s, Seq::empty());
        },
        _ => {
        },
    }
}

/// A turn of the checks before the working branch gives out no commit.
proof fn lemma_guards_do_not_commit(cfg: ConfigModel, s: SessionModel, event: Event, stamp: Seq<char>)
    requires
        s.phase.is_guard(),
    ensures
        !next_turn(cfg, s, event, stamp).action.is_commit(),
{
    lemma_what_does_not_commit();
    let turn = next_turn(cfg, s, event, stamp);
    if turn.action.command() is Some {
        let command = turn.action.command()->0;
        match s.phase {
            Phase::Start => {
                assert(command == diff_command());
            },
            Phase::Exclusions => {
                assert(command == diff_command());
            },
            Phase::WorkingTree => {
                assert(command == show_branch_command("main"@));
            },
            Phase::ScratchMake => {
                assert(command.program == "cargo"@);
            },
            Phase::ScratchInit => {
                assert(command.program == "cargo"@);
            },
            Phase::ScratchAdd => {
                assert(command.program == "cargo"@);
            },
            Phase::ScratchRead => {
            },
            Phase::ScratchDrop => {
                assert(command == show_branch_command("main"@));
            },
            Phase::ProbeMain => {
                assert(command == show_branch_command("master"@));
            },
            Phase::ProbeMaster => {
                assert(command == fetch_command(turn.state.base_branch));
            },
            Phase::Fetch => {
                assert(command == switch_command(
                    branch_name_of(subcommand_of(cfg.mode), stamp),
                    start_point_of(s.base_branch),
                ));
            },
            _ => {
            },
        }
    }
}

/// A turn of the walk for manifests gives out no commit, and does not
/// close the session but in failure.
proof fn lemma_manifests_do_not_commit(cfg: ConfigModel, s: SessionModel, event: Event, stamp: Seq<char>)
    requires
        s.phase == Phase::Manifests || s.phase == Phase::ManifestPath || s.phase
            == Phase::ManifestRead || s.phase == Phase::Adding,
    ensures
        !next_turn(cfg, s, event, stamp).action.is_commit(),
{
    lemma_what_does_not_commit();
    let turn = next_turn(cfg, s, event, stamp);
    match s.phase {
        Phase::ManifestPath => {
            if turn.action.command() is Some {
                assert(turn.action.command()->0.program == "cargo"@);
            }
        },
        Phase::ManifestRead => {
            match event {
                Event::Manifest(outcome, manifest) => {
                    if manifest is Some {
                        lemma_scanned(
                            cfg,
                            SessionModel { dependencies: manifest->0@, next: 0, ..s },
                            Seq::empty(),
                        );
                    }
                },
                _ => {
                },
            }
        },
        Phase::Adding => {
            lemma_scanned(cfg, s, Seq::empty());
        },
        _ => {
        },
    }
}

/// A turn that deals with one lockfile gives out no commit.
proof fn lemma_lockfile_work_does_not_commit(cfg: ConfigModel, s: SessionModel, event: Event, stamp: Seq<char>)
    requires
        s.phase == Phase::LockfilePath || s.phase == Phase::Resolving || s.phase == Phase::Updating
            || s.phase == Phase::TreeAfterUpdate || s.phase == Phase::Checking,
    ensures
        !next_turn(cfg, s, event, stamp).action.is_commit(),
{
    lemma_what_does_not_commit();
    let turn = next_turn(cfg, s, event, stamp);
    if turn.action.command() is Some {
        let command = turn.action.command()->0;
        match s.phase {
            Phase::Updating => {
                assert(command == diff_command());
            },
            _ => {
                assert(command.program == "cargo"@);
            },
        }
    }
}

/// A commit is given out in one turn alone: the one that ends the walk
/// for lockfiles.  After it the session waits for the commit and then is
/// over.
pub proof fn lemma_commit_closes(cfg: ConfigModel, s: SessionModel, event: Event, stamp: Seq<char>)
    ensures
        ({
            let turn = next_turn(cfg, s, event, stamp);
            &&& turn.action.is_commit() ==> s.phase == Phase::Lockfiles && turn.state.phase
                == Phase::Committing
            &&& s.phase.is_closing() ==> turn.state.phase == Phase::Finished
                && !turn.action.is_commit()
        }),
{
    if s.phase.is_guard() {
        lemma_guards_do_not_commit(cfg, s, event, stamp);
    } else if s.phase == Phase::Manifests || s.phase == Phase::ManifestPath || s.phase
        == Phase::ManifestRead || s.phase == Phase::Adding {
        lemma_manifests_do_not_commit(cfg, s, event, stamp);
    } else if s.phase == Phase::LockfilePath || s.phase == Phase::Resolving || s.phase
        == Phase::Updating || s.phase == Phase::TreeAfterUpdate || s.phase == Phase::Checking {
        lemma_lockfile_work_does_not_commit(cfg, s, event, stamp);
    } else if s.phase == Phase::Lockfiles {
    } else {
    }
}

/// The number of commits that a session gives out from the state `s`
/// when it is told `events` one after the other.
pub open spec fn commits_given(cfg: ConfigModel, s: SessionModel, events: Seq<Event>, stamp: Seq<char>) -> nat
    decreases events.len(),
{
    if events.len() == 0 {
        0
    } else {
        let turn = next_turn(cfg, s, events[0], stamp);
        let rest = commits_given(cfg, turn.state, events.drop_first(), stamp);
        if turn.action.is_commit() {
            rest + 1
        } else {
            rest
        }
    }
}

/// Whatever the caller reports, a session commits at most once; and once
/// it waits for its commit or is over, it commits no more.
pub proof fn lemma_at_most_one_commit(
    cfg: ConfigModel,
    s: SessionModel,
    events: Seq<Event>,
    stamp: Seq<char>,
)
    ensures
        commits_given(cfg, s, events, stamp) <= 1,
        s.phase.is_closing() ==> commits_given(cfg, s, events, stamp) == 0,
    decreases events.len(),
{
    if events.len() > 0 {
        let turn = next_turn(cfg, s, events[0], stamp);
        lemma_commit_closes(cfg, s, events[0], stamp);
        lemma_at_most_one_commit(cfg, turn.state, events.drop_first(), stamp);
    }
}

fn no_notices() -> (notices: Vec<Notice>)
    ensures
        notice_models(notices@) == Seq::<NoticeModel>::empty(),
{
    let notices: Vec<Notice> = Vec::new();
    assert(notice_models(notices@) =~= Seq::empty());
    notices
}

fn one_notice(notice: Notice) -> (notices: Vec<Notice>)
    ensures
        notice_models(notices@) == seq![notice@],
{
    let mut notices: Vec<Notice> = Vec::new();
    notices.push(notice);
    assert(notice_models(notices@) =~= seq![notice@]);
    notices
}

fn looking_for(file_name: &str) -> (notice: Notice)
    ensures
        notice@ == (NoticeModel::LookingFor { file_name: file_name@ }),
{
    Notice::LookingFor { file_name: String::from_str(file_name) }
}

fn fail(state: Session, notices: Vec<Notice>, error: SessionError) -> (turn: (Session, Step))
    ensures
        turn_of(turn) == failed(state@, notice_models(notices@), error@),
{
    let mut state = state;
    state.phase = Phase::Finished;
    (state, Step { notices, action: Action::Fail(error) })
}

fn confuse(state: Session) -> (turn: (Session, Step))
    ensures
        turn_of(turn) == confused(state@),
{
    fail(state, no_notices(), SessionError::UnexpectedEvent)
}

fn issue(state: Session, phase: Phase, notices: Vec<Notice>, command: Command, capture: Capture) -> (turn: (
    Session,
    Step,
))
    ensures
        turn_of(turn) == issued(state@, phase, notice_models(notices@), command@, capture),
{
    let mut state = state;
    state.phase = phase;
    state.running = command.duplicate();
    let action = match capture {
        Capture::Nothing => Action::Run(command),
        Capture::Manifest => Action::ReadManifest(command),
        Capture::Metadata => Action::ReadMetadata(command),
    };
    (state, Step { notices, action })
}

fn walk(state: Session, phase: Phase, notices: Vec<Notice>, restart: bool) -> (turn: (Session, Step))
    ensures
        turn_of(turn) == walking(state@, phase, notice_models(notices@), restart),
{
    let mut state = state;
    state.phase = phase;
    (state, Step { notices, action: Action::NextEntry { restart } })
}

fn resolve(cfg: &Config, state: Session) -> (turn: (Session, Step))
    ensures
        turn_of(turn) == resolving(cfg@, state@),
{
    let resolved: usize = state.exclusions.len();
    if resolved < cfg.exclude.len() {
        let mut state = state;
        state.phase = Phase::Exclusions;
        let path = cfg.exclude[resolved].clone();
        (state, Step { notices: no_notices(), action: Action::ResolveExclusion { path } })
    } else {
        issue(state, Phase::WorkingTree, no_notices(), git::diff(), Capture::Nothing)
    }
}

fn exclusion(cfg: &Config, state: Session, probe: PathProbe) -> (turn: (Session, Step))
    ensures
        turn_of(turn) == on_exclusion(cfg@, state@, probe),
{
    let resolved: usize = state.exclusions.len();
    if resolved >= cfg.exclude.len() {
        return confuse(state);
    }
    match probe {
        PathProbe::Missing => {
            let path = cfg.exclude[resolved].clone();
            fail(state, no_notices(), SessionError::MissingExclusion { path })
        },
        PathProbe::Unresolvable => {
            let path = cfg.exclude[resolved].clone();
            fail(state, no_notices(), SessionError::UnreadablePath { path })
        },
        PathProbe::Canonical(canonical) => {
            let mut state = state;
            let ghost before = paths(state.exclusions@);
            state.exclusions.push(canonical);
            assert(paths(state.exclusions@) =~= before.push(texts(canonical@)));
            resolve(cfg, state)
        },
    }
}

fn probe(state: Session) -> (turn: (Session, Step))
    ensures
        turn_of(turn) == probing(state@),
{
    issue(state, Phase::ProbeMain, no_notices(), git::show_branch("main"), Capture::Nothing)
}

fn working_tree(cfg: &Config, state: Session, outcome: Outcome) -> (turn: (Session, Step))
    ensures
        turn_of(turn) == on_working_tree(cfg@, state@, outcome),
{
    match git::is_working_tree_clean(outcome) {
        Err(error) => fail(state, no_notices(), error),
        Ok(clean) => {
            if !clean {
                fail(state, no_notices(), SessionError::DirtyWorkingTree)
            } else if cfg.mode == Mode::Upgrade {
                let mut state = state;
                state.phase = Phase::ScratchMake;
                (state, Step { notices: no_notices(), action: Action::MakeScratch })
            } else {
                probe(state)
            }
        },
    }
}

fn scratch(state: Session, directory: Option<String>) -> (turn: (Session, Step))
    ensures
        turn_of(turn) == on_scratch(state@, directory),
{
    match directory {
        None => fail(state, no_notices(), SessionError::ScratchUnavailable),
        Some(directory) => {
            let command = cargo::init(directory.as_str());
            let mut state = state;
            state.scratch = directory;
            issue(state, Phase::ScratchInit, no_notices(), command, Capture::Nothing)
        },
    }
}

fn scratch_init(cfg: &Config, state: Session, outcome: Outcome) -> (turn: (Session, Step))
    ensures
        turn_of(turn) == on_scratch_init(cfg@, state@, outcome),
{
    match state.running.success_or_err(outcome) {
        Err(error) => fail(state, no_notices(), error),
        Ok(_) => {
            let command = cargo::add_all(state.scratch.as_str(), cfg.names);
            issue(state, Phase::ScratchAdd, no_notices(), command, Capture::Nothing)
        },
    }
}

fn scratch_add(state: Session, outcome: Outcome) -> (turn: (Session, Step))
    ensures
        turn_of(turn) == on_scratch_add(state@, outcome),
{
    match state.running.success_or_err(outcome) {
        Err(error) => fail(state, no_notices(), error),
        Ok(_) => {
            let command = cargo::read_manifest(state.scratch.as_str());
            issue(state, Phase::ScratchRead, no_notices(), command, Capture::Manifest)
        },
    }
}

fn scratch_read(state: Session, outcome: Outcome, manifest: Option<Manifest>) -> (turn: (
    Session,
    Step,
))
    ensures
        turn_of(turn) == on_scratch_read(state@, outcome, manifest),
{
    match state.running.success_or_err(outcome) {
        Err(error) => fail(state, no_notices(), error),
        Ok(_) => match manifest {
            None => {
                let command = state.running.duplicate();
                fail(state, no_notices(), SessionError::MalformedOutput { command })
            },
            Some(manifest) => match get_latest_versions(&manifest) {
                Err(error) => fail(state, no_notices(), error),
                Ok(latest) => {
                    let mut state = state;
                    state.phase = Phase::ScratchDrop;
                    state.latest = latest;
                    (state, Step { notices: no_notices(), action: Action::DiscardScratch })
                },
            },
        },
    }
}

fn probe_main(state: Session, outcome: Outcome) -> (turn: (Session, Step))
    ensures
        turn_of(turn) == on_probe_main(state@, outcome),
{
    match git::branch_exists("main", outcome) {
        Err(error) => fail(state, no_notices(), error),
        Ok(exists) => {
            let mut state = state;
            state.main_exists = exists;
            issue(
                state,
                Phase::ProbeMaster,
                no_notices(),
                git::show_branch("master"),
                Capture::Nothing,
            )
        },
    }
}

fn probe_master(state: Session, outcome: Outcome) -> (turn: (Session, Step))
    ensures
        turn_of(turn) == on_probe_master(state@, outcome),
{
    match git::branch_exists("master", outcome) {
        Err(error) => fail(state, no_notices(), error),
        Ok(exists) => match git::guess_base_branch(state.main_exists, exists) {
            Err(error) => fail(state, no_notices(), error),
            Ok(base) => {
                let command = git::fetch(base.as_str());
                let mut state = state;
                state.base_branch = base;
                issue(state, Phase::Fetch, no_notices(), command, Capture::Nothing)
            },
        },
    }
}

fn subcommand(mode: Mode) -> (word: &'static str)
    ensures
        word@ == subcommand_of(mode),
{
    match mode {
        Mode::UpdateAll => "update-all",
        Mode::Upgrade => "upgrade",
    }
}

fn fetched(cfg: &Config, state: Session, outcome: Outcome, stamp: &str) -> (turn: (Session, Step))
    ensures
        turn_of(turn) == on_fetch(cfg@, state@, outcome, stamp@),
{
    match state.running.success_or_err(outcome) {
        Err(error) => fail(state, no_notices(), error),
        Ok(_) => {
            let name = git::branch_name(subcommand(cfg.mode), stamp);
            let from = git::start_point(state.base_branch.as_str());
            let command = git::switch_to_new_branch(name.as_str(), from.as_str());
            issue(state, Phase::Branch, no_notices(), command, Capture::Nothing)
        },
    }
}

fn branched(cfg: &Config, state: Session, outcome: Outcome) -> (turn: (Session, Step))
    ensures
        turn_of(turn) == on_branch(cfg@, state@, outcome),
{
    match state.running.success_or_err(outcome) {
        Err(error) => fail(state, no_notices(), error),
        Ok(_) => {
            if cfg.mode == Mode::Upgrade {
                walk(state, Phase::Manifests, one_notice(looking_for("Cargo.toml")), true)
            } else {
                walk(state, Phase::Lockfiles, one_notice(looking_for("Cargo.lock")), true)
            }
        },
    }
}

fn entry(state: Session, wanted: &str, placing: Phase, file_name: String, path: String) -> (turn: (
    Session,
    Step,
))
    ensures
        turn_of(turn) == on_entry(state@, wanted@, placing, file_name@, path@),
{
    if is_target_manifest(&file_name, wanted) {
        let mut state = state;
        state.phase = placing;
        state.path = path.clone();
        (state, Step { notices: no_notices(), action: Action::Locate { path } })
    } else {
        let phase = state.phase;
        walk(state, phase, no_notices(), false)
    }
}

fn scan(cfg: &Config, state: Session, notices: Vec<Notice>) -> (turn: (Session, Step))
    ensures
        turn_of(turn) == scanning(cfg@, state@, notice_models(notices@)),
{
    let ghost goal = scanning(cfg@, state@, notice_models(notices@));
    let mut current = state;
    let mut told = notices;
    while current.next < current.dependencies.len()
        invariant
            goal == scanning(cfg@, state@, notice_models(notices@)),
            scanning(cfg@, current@, notice_models(told@)) == goal,
        decreases current.dependencies.len() - current.next,
    {
        let ghost dep = current@.dependencies[current.next as int];
        let ghost before = notice_models(told@);
        assert(dep == current.dependencies@[current.next as int]@);
        match decide(&current.dependencies[current.next], cfg.names, &current.latest) {
            Err(error) => {
                assert(scanning(cfg@, current@, before) == failed(current@, before, error@));
                return fail(current, told, error);
            },
            Ok(decision) => match decision {
                Decision::Apply(version) => {
                    let found = &current.dependencies[current.next];
                    let mut wanted = found.name.clone();
                    wanted.append("@");
                    wanted.append(version.to_text().as_str());
                    let flags = role_flags(found.kind);
                    let command = cargo::add(current.directory.as_str(), wanted.as_str(), &flags);
                    assert(scanning(cfg@, current@, before) == issued(
                        SessionModel { next: current@.next + 1, ..current@ },
                        Phase::Adding,
                        before,
                        command@,
                        Capture::Nothing,
                    ));
                    current.next = current.next + 1;
                    return issue(current, Phase::Adding, told, command, Capture::Nothing);
                },
                _ => {
                    let ghost earlier = current@;
                    match decision.notice(&current.dependencies[current.next].name) {
                        Some(notice) => {
                            told.push(notice);
                            assert(notice_models(told@) =~= before.push(notice@));
                        },
                        None => {},
                    }
                    assert(notice_models(told@) == with_notice(
                        before,
                        decision.notice_of(dep.name),
                    ));
                    current.next = current.next + 1;
                    assert(scanning(cfg@, earlier, before) == scanning(
                        cfg@,
                        current@,
                        notice_models(told@),
                    ));
                },
            },
        }
    }
    current.any_changes = true;
    walk(current, Phase::Manifests, told, false)
}

fn manifest_path(state: Session, directory: Option<String>, canonical: Option<Vec<String>>) -> (turn: (
    Session,
    Step,
))
    ensures
        turn_of(turn) == on_manifest_path(state@, directory, canonical),
{
    match (directory, canonical) {
        (Some(directory), Some(canonical)) => {
            let location = locate(directory, canonical, &state.exclusions);
            if location.excluded {
                let notice = Notice::Skipping { directory: location.directory };
                walk(state, Phase::Manifests, one_notice(notice), false)
            } else {
                let command = cargo::read_manifest(location.directory.as_str());
                let notice = Notice::LookingForUpgrades { directory: location.directory.clone() };
                let mut state = state;
                state.directory = location.directory;
                issue(state, Phase::ManifestRead, one_notice(notice), command, Capture::Manifest)
            }
        },
        _ => {
            let path = state.path.clone();
            fail(state, no_notices(), SessionError::UnreadablePath { path })
        },
    }
}

fn manifest_read(cfg: &Config, state: Session, outcome: Outcome, manifest: Option<Manifest>) -> (turn: (
    Session,
    Step,
))
    ensures
        turn_of(turn) == on_manifest_read(cfg@, state@, outcome, manifest),
{
    let ran = match outcome {
        Outcome::Exited(code) => code == 0,
        _ => false,
    };
    match manifest {
        Some(manifest) => {
            if ran {
                let mut state = state;
                state.dependencies = manifest.dependencies;
                state.next = 0;
                scan(cfg, state, no_notices())
            } else {
                walk(state, Phase::Manifests, one_notice(Notice::AssumingVirtualManifest), false)
            }
        },
        None => walk(state, Phase::Manifests, one_notice(Notice::AssumingVirtualManifest), false),
    }
}

fn added(cfg: &Config, state: Session, outcome: Outcome) -> (turn: (Session, Step))
    ensures
        turn_of(turn) == on_added(cfg@, state@, outcome),
{
    match state.running.success_or_err(outcome) {
        Err(error) => fail(state, no_notices(), error),
        Ok(_) => scan(cfg, state, no_notices()),
    }
}

fn manifests_done(state: Session) -> (turn: (Session, Step))
    ensures
        turn_of(turn) == on_manifests_done(state@),
{
    let mut notices: Vec<Notice> = Vec::new();
    if !state.any_changes {
        notices.push(Notice::NothingToUpgrade);
    }
    notices.push(looking_for("Cargo.lock"));
    assert(notice_models(notices@) =~= on_manifests_done(state@).notices);
    walk(state, Phase::Lockfiles, notices, true)
}

fn lockfile_path(
    cfg: &Config,
    state: Session,
    directory: Option<String>,
    canonical: Option<Vec<String>>,
) -> (turn: (Session, Step))
    ensures
        turn_of(turn) == on_lockfile_path(cfg@, state@, directory, canonical),
{
    match (directory, canonical) {
        (Some(directory), Some(canonical)) => {
            let location = locate(directory, canonical, &state.exclusions);
            if location.excluded {
                let notice = Notice::Skipping { directory: location.directory };
                walk(state, Phase::Lockfiles, one_notice(notice), false)
            } else if cfg.mode == Mode::Upgrade {
                let command = cargo::metadata(location.directory.as_str(), false);
                let mut state = state;
                state.directory = location.directory;
                issue(state, Phase::Resolving, no_notices(), command, Capture::Metadata)
            } else {
                let command = cargo::update(location.directory.as_str());
                let notice = Notice::RunningUpdate { directory: location.directory.clone() };
                let mut state = state;
                state.directory = location.directory;
                issue(state, Phase::Updating, one_notice(notice), command, Capture::Nothing)
            }
        },
        _ => {
            let path = state.path.clone();
            fail(state, no_notices(), SessionError::UnreadablePath { path })
        },
    }
}

fn check(cfg: &Config, state: Session) -> (turn: (Session, Step))
    ensures
        turn_of(turn) == checking(cfg@, state@),
{
    if cfg.check {
        let command = cargo::check(state.directory.as_str());
        let notice = Notice::RunningCheck { directory: state.directory.clone() };
        issue(state, Phase::Checking, one_notice(notice), command, Capture::Nothing)
    } else {
        walk(state, Phase::Lockfiles, no_notices(), false)
    }
}

fn resolved(cfg: &Config, state: Session, outcome: Outcome, metadata: Option<Metadata>) -> (turn: (
    Session,
    Step,
))
    ensures
        turn_of(turn) == on_resolved(cfg@, state@, outcome, metadata),
{
    match state.running.success_or_err(outcome) {
        Err(error) => fail(state, no_notices(), error),
        Ok(_) => match metadata {
            None => {
                let command = state.running.duplicate();
                fail(state, no_notices(), SessionError::MalformedOutput { command })
            },
            Some(_) => check(cfg, state),
        },
    }
}

fn updated(state: Session, outcome: Outcome) -> (turn: (Session, Step))
    ensures
        turn_of(turn) == on_updated(state@, outcome),
{
    match state.running.success_or_err(outcome) {
        Err(error) => fail(state, no_notices(), error),
        Ok(_) => issue(state, Phase::TreeAfterUpdate, no_notices(), git::diff(), Capture::Nothing),
    }
}

fn tree_after_update(cfg: &Config, state: Session, outcome: Outcome) -> (turn: (Session, Step))
    ensures
        turn_of(turn) == on_tree_after_update(cfg@, state@, outcome),
{
    match git::is_working_tree_clean(outcome) {
        Err(error) => fail(state, no_notices(), error),
        Ok(clean) => {
            if clean {
                walk(state, Phase::Lockfiles, one_notice(Notice::AlreadyUpToDate), false)
            } else {
                let mut state = state;
                state.any_changes = true;
                check(cfg, state)
            }
        },
    }
}

fn checked(state: Session, outcome: Outcome) -> (turn: (Session, Step))
    ensures
        turn_of(turn) == on_checked(state@, outcome),
{
    match state.running.success_or_err(outcome) {
        Err(error) => fail(state, no_notices(), error),
        Ok(_) => walk(state, Phase::Lockfiles, no_notices(), false),
    }
}

fn lockfiles_done(cfg: &Config, state: Session) -> (turn: (Session, Step))
    ensures
        turn_of(turn) == on_lockfiles_done(cfg@, state@),
{
    if cfg.mode == Mode::Upgrade {
        match commit_message(cfg.names, &state.latest) {
            Err(error) => fail(state, one_notice(Notice::Committing), error),
            Ok(message) => issue(
                state,
                Phase::Committing,
                one_notice(Notice::Committing),
                git::commit(message.as_str()),
                Capture::Nothing,
            ),
        }
    } else if state.any_changes {
        let message = update_message();
        issue(
            state,
            Phase::Committing,
            one_notice(Notice::Committing),
            git::commit(message.as_str()),
            Capture::Nothing,
        )
    } else {
        let mut notices: Vec<Notice> = Vec::new();
        notices.push(Notice::NothingToUpdate);
        notices.push(Notice::UpdatesApplied);
        assert(notice_models(notices@) =~= seq![
            NoticeModel::NothingToUpdate,
            NoticeModel::UpdatesApplied,
        ]);
        let mut state = state;
        state.phase = Phase::Finished;
        (state, Step { notices, action: Action::Done })
    }
}

fn committed(cfg: &Config, state: Session, outcome: Outcome) -> (turn: (Session, Step))
    ensures
        turn_of(turn) == on_committed(cfg@, state@, outcome),
{
    match state.running.success_or_err(outcome) {
        Err(error) => fail(state, no_notices(), error),
        Ok(_) => {
            let notice = if cfg.mode == Mode::Upgrade {
                Notice::UpgradesApplied
            } else {
                Notice::UpdatesApplied
            };
            let mut state = state;
            state.phase = Phase::Finished;
            (state, Step { notices: one_notice(notice), action: Action::Done })
        },
    }
}

fn unreadable(state: Session, path: String) -> (turn: (Session, Step))
    ensures
        turn_of(turn) == on_unreadable(state@, path@),
{
    fail(state, no_notices(), SessionError::UnreadablePath { path })
}

impl Session {
    /// The state before the first turn.
    pub fn new() -> (session: Session)
        ensures
            session@ == initial(),
    {
        let session = Session {
            phase: Phase::Start,
            exclusions: Vec::new(),
            scratch: String::new(),
            latest: LatestVersions::new(),
            main_exists: false,
            base_branch: String::new(),
            any_changes: false,
            path: String::new(),
            directory: String::new(),
            dependencies: Vec::new(),
            next: 0,
            running: Command::new(""),
        };
        proof {
            reveal_strlit("");
        }
        assert(session@.exclusions =~= Seq::empty());
        assert(session@.dependencies =~= Seq::empty());
        assert(session@.scratch =~= Seq::empty());
        assert(session@.base_branch =~= Seq::empty());
        assert(session@.path =~= Seq::empty());
        assert(session@.directory =~= Seq::empty());
        assert(session@.running.program =~= Seq::empty());
        session
    }

    /// Whether the session is over.
    pub fn is_finished(&self) -> (finished: bool)
        ensures
            finished == (self@.phase == Phase::Finished),
    {
        self.phase == Phase::Finished
    }
}

/// One turn of a session: takes the event that answers the last action,
/// and gives the state afterwards and the next step.  `stamp` is the time
/// of the turn in compact numeric form; it goes into the name of the
/// working branch.
pub fn step(cfg: &Config, state: Session, event: Event, stamp: &str) -> (turn: (Session, Step))
    ensures
        turn_of(turn) == next_turn(cfg@, state@, event, stamp@),
{
    match state.phase {
        Phase::Start => match event {
            Event::Begin => resolve(cfg, state),
            _ => confuse(state),
        },
        Phase::Exclusions => match event {
            Event::Exclusion(probe) => exclusion(cfg, state, probe),
            _ => confuse(state),
        },
        Phase::WorkingTree => match event {
            Event::Exit(outcome) => working_tree(cfg, state, outcome),
            _ => confuse(state),
        },
        Phase::ScratchMake => match event {
            Event::Scratch(directory) => scratch(state, directory),
            _ => confuse(state),
        },
        Phase::ScratchInit => match event {
            Event::Exit(outcome) => scratch_init(cfg, state, outcome),
            _ => confuse(state),
        },
        Phase::ScratchAdd => match event {
            Event::Exit(outcome) => scratch_add(state, outcome),
            _ => confuse(state),
        },
        Phase::ScratchRead => match event {
            Event::Manifest(outcome, manifest) => scratch_read(state, outcome, manifest),
            _ => confuse(state),
        },
        Phase::ScratchDrop => match event {
            Event::Discarded => probe(state),
            _ => confuse(state),
        },
        Phase::ProbeMain => match event {
            Event::Exit(outcome) => probe_main(state, outcome),
            _ => confuse(state),
        },
        Phase::ProbeMaster => match event {
            Event::Exit(outcome) => probe_master(state, outcome),
            _ => confuse(state),
        },
        Phase::Fetch => match event {
            Event::Exit(outcome) => fetched(cfg, state, outcome, stamp),
            _ => confuse(state),
        },
        Phase::Branch => match event {
            Event::Exit(outcome) => branched(cfg, state, outcome),
            _ => confuse(state),
        },
        Phase::Manifests => match event {
            Event::Entry { file_name, path } => entry(
                state,
                "Cargo.toml",
                Phase::ManifestPath,
                file_name,
                path,
            ),
            Event::EndOfWalk => manifests_done(state),
            Event::Unreadable { path } => unreadable(state, path),
            _ => confuse(state),
        },
        Phase::ManifestPath => match event {
            Event::Location { directory, canonical } => manifest_path(state, directory, canonical),
            _ => confuse(state),
        },
        Phase::ManifestRead => match event {
            Event::Manifest(outcome, manifest) => manifest_read(cfg, state, outcome, manifest),
            _ => confuse(state),
        },
        Phase::Adding => match event {
            Event::Exit(outcome) => added(cfg, state, outcome),
            _ => confuse(state),
        },
        Phase::Lockfiles => match event {
            Event::Entry { file_name, path } => entry(
                state,
                "Cargo.lock",
                Phase::LockfilePath,
                file_name,
                path,
            ),
            Event::EndOfWalk => lockfiles_done(cfg, state),
            Event::Unreadable { path } => unreadable(state, path),
            _ => confuse(state),
        },
        Phase::LockfilePath => match event {
            Event::Location { directory, canonical } => lockfile_path(
                cfg,
                state,
                directory,
                canonical,
            ),
            _ => confuse(state),
        },
        Phase::Resolving => match event {
            Event::Metadata(outcome, metadata) => resolved(cfg, state, outcome, metadata),
            _ => confuse(state),
        },
        Phase::Updating => match event {
            Event::Exit(outcome) => updated(state, outcome),
            _ => confuse(state),
        },
        Phase::TreeAfterUpdate => match event {
            Event::Exit(outcome) => tree_after_update(cfg, state, outcome),
            _ => confuse(state),
        },
        Phase::Checking => match event {
            Event::Exit(outcome) => checked(state, outcome),
            _ => confuse(state),
        },
        Phase::Committing => match event {
            Event::Exit(outcome) => committed(cfg, state, outcome),
            _ => confuse(state),
        },
        Phase::Finished => (state, Step { notices: no_notices(), action: Action::Done }),
    }
}

} // verus!
