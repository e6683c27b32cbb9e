use vstd::prelude::*;

use crate::config::{resolve, strings_view, BindingView, ConfigReader};

verus! {

/// What the process launcher is asked to start: a program, by name or path,
/// and its argument vector.
pub struct LaunchRequest {
    pub program: String,
    pub args: Vec<String>,
}

/// The program and the arguments of a launch request.
pub struct LaunchView {
    pub program: Seq<char>,
    pub args: Seq<Seq<char>>,
}

impl View for LaunchRequest {
    type V = LaunchView;

    open spec fn view(&self) -> LaunchView {
        LaunchView { program: self.program@, args: strings_view(self.args@) }
    }
}

/// The view of an optional launch request.
pub open spec fn opt_launch_view(r: Option<LaunchRequest>) -> Option<LaunchView> {
    match r {
        Some(l) => Some(l@),
        None => None,
    }
}

/// The launch that a resolved binding calls for: its command with its
/// arguments; none where nothing was bound.
pub open spec fn launch_for(b: Option<BindingView>) -> Option<LaunchView> {
    match b {
        Some(b) => Some(LaunchView { program: b.command, args: b.args }),
        None => None,
    }
}

/// What became of a launch: the child process was created, or it could not
/// be, for the reason given by the operating system.
pub enum LaunchOutcome {
    Spawned,
    SpawnFailed(String),
}

/// Runs the command bound to an alias.
///
/// Running an alias takes two decisions around one launch: which program to
/// start, and whether the request succeeded once the launch is over. The
/// launch itself happens between them, outside.
pub trait Exec {
    /// The launch that running `alias` under `config` calls for; `None` when
    /// the alias is unbound, in which case nothing is launched and the request
    /// has failed.
    fn exec<C: ConfigReader>(&self, alias: &String, config: &C) -> (r: Option<LaunchRequest>)
        ensures
            opt_launch_view(r) == launch_for(resolve(config.table(), alias@)),
    ;

    /// Whether a request whose launch came to `outcome` succeeded.
    fn succeeded(&self, outcome: &LaunchOutcome) -> (r: bool)
        ensures
            r == (outcome is Spawned),
    ;
}

/// Runs configured commands as independent child processes, without waiting
/// for them.
pub struct Executor {}

impl Executor {
    /// A new executor.
    pub fn new() -> (r: Executor) {
        Executor {  }
    }
}

impl Exec for Executor {
    fn exec<C: ConfigReader>(&self, alias: &String, config: &C) -> (r: Option<LaunchRequest>) {
        match config.get_command_for_alias(alias) {
            Some(entry) => Some(LaunchRequest { program: entry.command, args: entry.args }),
            None => None,
        }
    }

    fn succeeded(&self, outcome: &LaunchOutcome) -> (r: bool) {
        match outcome {
            LaunchOutcome::Spawned => true,
            LaunchOutcome::SpawnFailed(_) => false,
        }
    }
}

} // verus!
