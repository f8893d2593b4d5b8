//! What a session tells the user while it runs.

use vstd::prelude::*;
use vstd::string::*;

verus! {

/// One message of a session to the user.
#[derive(Clone, Debug, PartialEq, Eq)]
pub enum Notice {
    /// The walk for files of this name begins.
    LookingFor { file_name: String },
    /// A file in this directory is left out, because it is excluded.
    Skipping { directory: String },
    /// The lockfile of this directory is being updated.
    RunningUpdate { directory: String },
    /// The update changed nothing.
    AlreadyUpToDate,
    /// The package of this directory is being checked.
    RunningCheck { directory: String },
    /// The changes are being committed.
    Committing,
    /// No lockfile was changed.
    NothingToUpdate,
    /// The updates are on the working branch.
    UpdatesApplied,
    /// The manifest of this directory is being looked through.
    LookingForUpgrades { directory: String },
    /// The manifest could not be read, and is taken to declare no
    /// dependency of its own.
    AssumingVirtualManifest,
    /// A requested dependency has no latest version on record.
    UnresolvedPackage { name: String },
    /// The requirement of this dependency has several clauses.
    MultipleComparators { name: String },
    /// The one clause of the requirement of this dependency has another
    /// operator than the minimum-compatible one.
    NotCaret { name: String },
    /// This dependency is on its newest release already.
    OnNewestRelease { name: String },
    /// No manifest was looked through.
    NothingToUpgrade,
    /// The upgrades are on the working branch.
    UpgradesApplied,
}

/// What a [`Notice`] holds, as mathematical values.
pub ghost enum NoticeModel {
    LookingFor { file_name: Seq<char> },
    Skipping { directory: Seq<char> },
    RunningUpdate { directory: Seq<char> },
    AlreadyUpToDate,
    RunningCheck { directory: Seq<char> },
    Committing,
    NothingToUpdate,
    UpdatesApplied,
    LookingForUpgrades { directory: Seq<char> },
    AssumingVirtualManifest,
    UnresolvedPackage { name: Seq<char> },
    MultipleComparators { name: Seq<char> },
    NotCaret { name: Seq<char> },
    OnNewestRelease { name: Seq<char> },
    NothingToUpgrade,
    UpgradesApplied,
}

impl View for Notice {
    type V = NoticeModel;

    open spec fn view(&self) -> NoticeModel {
        match *self {
            Notice::LookingFor { file_name } => NoticeModel::LookingFor { file_name: file_name@ },
            Notice::Skipping { directory } => NoticeModel::Skipping { directory: directory@ },
            Notice::RunningUpdate { directory } => NoticeModel::RunningUpdate {
                directory: directory@,
            },
            Notice::AlreadyUpToDate => NoticeModel::AlreadyUpToDate,
            Notice::RunningCheck { directory } => NoticeModel::RunningCheck { directory: directory@ },
            Notice::Committing => NoticeModel::Committing,
            Notice::NothingToUpdate => NoticeModel::NothingToUpdate,
            Notice::UpdatesApplied => NoticeModel::UpdatesApplied,
            Notice::LookingForUpgrades { directory } => NoticeModel::LookingForUpgrades {
                directory: directory@,
            },
            Notice::AssumingVirtualManifest => NoticeModel::AssumingVirtualManifest,
            Notice::UnresolvedPackage { name } => NoticeModel::UnresolvedPackage { name: name@ },
            Notice::MultipleComparators { name } => NoticeModel::MultipleComparators { name: name@ },
            Notice::NotCaret { name } => NoticeModel::NotCaret { name: name@ },
            Notice::OnNewestRelease { name } => NoticeModel::OnNewestRelease { name: name@ },
            Notice::NothingToUpgrade => NoticeModel::NothingToUpgrade,
            Notice::UpgradesApplied => NoticeModel::UpgradesApplied,
        }
    }
}

/// The notices that a list holds, in order.
pub open spec fn notice_models(list: Seq<Notice>) -> Seq<NoticeModel> {
    list.map_values(|n: Notice| n@)
}

/// The `Debug` rendering of a text: the text between double quotes, with
/// the characters escaped that Rust escapes there.  Nothing is claimed of
/// which characters those are.
pub uninterp spec fn quoted_text(text: Seq<char>) -> Seq<char>;

/// Trusted of std: the `Debug` rendering of a `str`, as `format!` writes
/// it for `{:?}`, is a function of the text alone.
#[verifier::external_body]
fn quoted(text: &str) -> (rendering: String)
    ensures
        rendering@ == quoted_text(text@),
{
    format!("{:?}", text)
}

fn framed(before: &str, text: &str, after: &str) -> (line: String)
    ensures
        line@ == before@ + text@ + after@,
{
    let mut line = String::from_str(before);
    line.append(text);
    line.append(after);
    line
}

fn framed_quoted(before: &str, text: &str, after: &str) -> (line: String)
    ensures
        line@ == before@ + quoted_text(text@) + after@,
{
    let rendering = quoted(text);
    framed(before, rendering.as_str(), after)
}

impl NoticeModel {
    /// Whether the notice warns of something that was passed over.
    pub open spec fn is_warning(self) -> bool {
        match self {
            NoticeModel::AssumingVirtualManifest => true,
            NoticeModel::UnresolvedPackage { .. } => true,
            NoticeModel::MultipleComparators { .. } => true,
            NoticeModel::NotCaret { .. } => true,
            _ => false,
        }
    }

    /// The line that the user reads.
    pub open spec fn message(self) -> Seq<char> {
        match self {
            NoticeModel::LookingFor { file_name } => "Looking for \""@ + file_name
                + "\" files..."@,
            NoticeModel::Skipping { directory } => "  Skipping "@ + quoted_text(directory)
                + " because it matches an excluded path."@,
            NoticeModel::RunningUpdate { directory } => "  Running `cargo update` in "@
                + quoted_text(directory) + "..."@,
            NoticeModel::AlreadyUpToDate => "    Already up-to-date!"@,
            NoticeModel::RunningCheck { directory } => "  Running `cargo check --all-targets` in "@
                + quoted_text(directory) + "..."@,
            NoticeModel::Committing => "    Committing updates..."@,
            NoticeModel::NothingToUpdate => "All \"Cargo.lock\" files were already up-to-date!"@,
            NoticeModel::UpdatesApplied => "Updates applied! You can now push this branch and make a pull-request."@,
            NoticeModel::LookingForUpgrades { directory } => "  Looking for dependencies to upgrade in "@
                + quoted_text(directory) + "..."@,
            NoticeModel::AssumingVirtualManifest => "Failed to read manifest of project to check for available upgrades; assuming it is a virtual manifest"@,
            NoticeModel::UnresolvedPackage { name } => "Warning: didn't find "@ + quoted_text(name)
                + " in latest versions; this shouldn't happen."@,
            NoticeModel::MultipleComparators { name } => "Warning: multiple comparators found in version requirement for "@
                + quoted_text(name) + "; skipping"@,
            NoticeModel::NotCaret { name } => "Warning: comparator in version requirement for "@
                + quoted_text(name) + " was not a 'caret'; skipping"@,
            NoticeModel::OnNewestRelease { name } => quoted_text(name)
                + " is already on its newest normal release. Nothing to do!"@,
            NoticeModel::NothingToUpgrade => "All specified dependencies were already on their latest versions!"@,
            NoticeModel::UpgradesApplied => "Upgrades applied! You can now push this branch and make a pull-request."@,
        }
    }
}

impl Notice {
    /// Whether the notice warns of something that was passed over.  A
    /// warning belongs on the standard error stream.
    pub fn is_warning(&self) -> (warning: bool)
        ensures
            warning == self@.is_warning(),
    {
        match self {
            Notice::AssumingVirtualManifest => true,
            Notice::UnresolvedPackage { .. } => true,
            Notice::MultipleComparators { .. } => true,
            Notice::NotCaret { .. } => true,
            _ => false,
        }
    }

    /// The line that the user reads.
    pub fn message(&self) -> (line: String)
        ensures
            line@ == self@.message(),
    {
        match self {
            Notice::LookingFor { file_name } => framed(
                "Looking for \"",
                file_name.as_str(),
                "\" files...",
            ),
            Notice::Skipping { directory } => framed_quoted(
                "  Skipping ",
                directory.as_str(),
                " because it matches an excluded path.",
            ),
            Notice::RunningUpdate { directory } => framed_quoted(
                "  Running `cargo update` in ",
                directory.as_str(),
                "...",
            ),
            Notice::AlreadyUpToDate => String::from_str("    Already up-to-date!"),
            Notice::RunningCheck { directory } => framed_quoted(
                "  Running `cargo check --all-targets` in ",
                directory.as_str(),
                "...",
            ),
            Notice::Committing => String::from_str("    Committing updates..."),
            Notice::NothingToUpdate => String::from_str(
                "All \"Cargo.lock\" files were already up-to-date!",
            ),
            Notice::UpdatesApplied => String::from_str(
                "Updates applied! You can now push this branch and make a pull-request.",
            ),
            Notice::LookingForUpgrades { directory } => framed_quoted(
                "  Looking for dependencies to upgrade in ",
                directory.as_str(),
                "...",
            ),
            Notice::AssumingVirtualManifest => String::from_str(
                "Failed to read manifest of project to check for available upgrades; assuming it is a virtual manifest",
            ),
            Notice::UnresolvedPackage { name } => framed_quoted(
                "Warning: didn't find ",
                name.as_str(),
                " in latest versions; this shouldn't happen.",
            ),
            Notice::MultipleComparators { name } => framed_quoted(
                "Warning: multiple comparators found in version requirement for ",
                name.as_str(),
                "; skipping",
            ),
            Notice::NotCaret { name } => framed_quoted(
                "Warning: comparator in version requirement for ",
                name.as_str(),
                " was not a 'caret'; skipping",
            ),
            Notice::OnNewestRelease { name } => {
                let line = framed_quoted(
                    "",
                    name.as_str(),
                    " is already on its newest normal release. Nothing to do!",
                );
                proof {
                    reveal_strlit("");
                }
                assert(line@ =~= self@.message());
                line
            },
            Notice::NothingToUpgrade => String::from_str(
                "All specified dependencies were already on their latest versions!",
            ),
            Notice::UpgradesApplied => String::from_str(
                "Upgrades applied! You can now push this branch and make a pull-request.",
            ),
        }
    }
}

} // verus!
