//! Moving every lockfile of the tree to the newest versions that the
//! requirements allow.

use vstd::prelude::*;
use vstd::string::*;
use crate::git::utc_stamp;
use crate::session::next_turn;
use crate::session::step;
use crate::session::turn_of;
use crate::session::Config;
use crate::session::ConfigModel;
use crate::session::Event;
use crate::session::Mode;
use crate::session::Phase;
use crate::session::Session;
use crate::session::Step;
use crate::text::texts;

verus! {

/// What the user asks of a run that updates every lockfile.
#[derive(Clone, Debug, PartialEq, Eq)]
pub struct UpdateAllArgs {
    /// Lockfiles or directories that are left out, relative to the
    /// directory that the run starts in.
    pub exclude: Vec<String>,
    /// Whether each package is checked once its lockfile has changed.
    pub check: bool,
}

/// The message of the commit that closes an update.
pub open spec fn update_message_text() -> Seq<char> {
    "cargo update\n\nAll semver-compatible-updates, by running `cargo update`.\nThis commit was created by `cargo-lockstep`."@
}

/// The message of the commit that closes an update.
pub fn update_message() -> (message: String)
    ensures
        message@ == update_message_text(),
{
    String::from_str(
        "cargo update\n\nAll semver-compatible-updates, by running `cargo update`.\nThis commit was created by `cargo-lockstep`.",
    )
}

/// What a session goes by in a run that updates every lockfile.
pub open spec fn update_all_config(args: UpdateAllArgs) -> ConfigModel {
    ConfigModel {
        mode: Mode::UpdateAll,
        exclude: texts(args.exclude@),
        check: args.check,
        names: Seq::empty(),
    }
}

/// One turn of a run that updates every lockfile, at the time `stamp`.
///
/// The run checks that every excluded path exists and that the working
/// tree is clean, finds the base branch, fetches it and makes the working
/// branch from it.  Then it updates the lockfile of every directory that
/// is not excluded, checks the package where that was asked for and the
/// lockfile changed, and commits once at the end if any lockfile
/// changed.
pub fn update_all_at(update_all_args: &UpdateAllArgs, session: Session, event: Event, stamp: &str) -> (turn: (
    Session,
    Step,
))
    ensures
        turn_of(turn) == next_turn(update_all_config(*update_all_args), session@, event, stamp@),
{
    let names: Vec<String> = Vec::new();
    let cfg = Config {
        mode: Mode::UpdateAll,
        exclude: &update_all_args.exclude,
        check: update_all_args.check,
        names: &names,
    };
    assert(cfg@.names =~= Seq::empty());
    step(&cfg, session, event, stamp)
}

/// One turn of a run that updates every lockfile.  The turn that names
/// the working branch reads the clock; no other turn depends on the time.
pub fn update_all(update_all_args: &UpdateAllArgs, session: Session, event: Event) -> (turn: (
    Session,
    Step,
))
    ensures
        exists|stamp: Seq<char>|
            turn_of(turn) == #[trigger] next_turn(
                update_all_config(*update_all_args),
                session@,
                event,
                stamp,
            ),
{
    let stamp = match session.phase {
        Phase::Fetch => utc_stamp(),
        _ => String::new(),
    };
    let ghost before = session@;
    let turn = update_all_at(update_all_args, session, event, stamp.as_str());
    assert(turn_of(turn) == next_turn(update_all_config(*update_all_args), before, event, stamp@));
    turn
}

} // verus!
