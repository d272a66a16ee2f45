//! The command vocabulary: plain argument records for every command the
//! tool accepts. Parsing the command line into these is the caller's
//! concern.

use vstd::prelude::*;

verus! {

/// A parsed invocation.
pub struct Cli {
    pub command: Command,
}

/// Every command the tool accepts.
pub enum Command {
    Auth(AuthCommand),
    Save(SaveArgs),
    Find(FindArgs),
    List(ListArgs),
    Info(InfoArgs),
    Run(RunArgs),
    History(HistoryArgs),
    Stats(StatsArgs),
    Versions(VersionArgs),
    Diff(DiffArgs),
    Checkout(CheckoutArgs),
    Share(ShareArgs),
    Team(TeamCommand),
    Context,
    Recommend,
    Export(ExportArgs),
    Sync,
    Doctor,
    Status,
}

/// An authentication subcommand.
pub struct AuthCommand {
    pub action: AuthAction,
}

/// The authentication actions.
pub enum AuthAction {
    Login(LoginArgs),
    Logout,
    Status,
}

/// Arguments for logging in.
pub struct LoginArgs {
    pub token: Option<String>,
}

/// Arguments for saving a script.
pub struct SaveArgs {
    pub file: String,
    pub tags: Option<String>,
    pub description: Option<String>,
    pub git: bool,
    pub yes: bool,
}

/// Arguments for finding scripts.
pub struct FindArgs {
    pub query: Option<String>,
    pub here: bool,
    pub tag: Option<String>,
    pub language: Option<String>,
    pub team: bool,
    pub all: bool,
    pub git_repo: Option<String>,
}

/// Arguments for listing scripts.
pub struct ListArgs {
    pub mine: bool,
    pub team: bool,
    pub all: bool,
}

/// Arguments for showing one script's details.
pub struct InfoArgs {
    pub name: String,
}

/// Arguments for running a script.
pub struct RunArgs {
    pub script: String,
    pub args: Vec<String>,
    pub dry_run: bool,
    pub sandbox: bool,
    pub confirm: bool,
    pub update: bool,
    pub verbose: bool,
    pub ci: bool,
    pub failed: bool,
    pub check_permissions: bool,
}

/// Arguments for viewing execution history.
pub struct HistoryArgs {
    pub script: Option<String>,
    pub failed: bool,
    pub recent: bool,
    pub team: bool,
}

/// Arguments for viewing one script's statistics.
pub struct StatsArgs {
    pub name: String,
}

/// Arguments for listing a script's versions.
pub struct VersionArgs {
    pub name: String,
}

/// Arguments for comparing two versions of a script.
pub struct DiffArgs {
    pub name: String,
    pub version1: String,
    pub version2: String,
}

/// Arguments for checking out a version of a script.
pub struct CheckoutArgs {
    pub script_version: String,
}

/// Arguments for sharing a script.
pub struct ShareArgs {
    pub name: String,
    pub team: bool,
    pub public: bool,
}

/// A team subcommand.
pub struct TeamCommand {
    pub action: TeamAction,
}

/// The team actions.
pub enum TeamAction {
    Ls,
    Scripts,
    Permissions,
}

/// Arguments for exporting scripts.
pub struct ExportArgs {
    pub format: String,
    pub output: Option<String>,
}

} // verus!
