//! Bulk dependency maintenance across every package of one source tree.
//!
//! The library holds the decisions: which manifests take part, whether a
//! declared dependency is advanced, which commands are run and in which
//! order, and what the final commit says.  Running the commands and
//! walking the file system is left to the caller.

pub mod cargo;
pub mod command_ext;
pub mod error;
pub mod git;
pub mod locate;
pub mod notice;
pub mod session;
pub mod text;
pub mod update_all;
pub mod upgrade;
pub mod version;
