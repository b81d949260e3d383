//! Finding out whether the executable can be used.
//!
//! The executable is available where it is found and can be launched. An
//! absolute path is found where it names a regular file; any other path is a
//! command name and is found where the search path of the process resolves
//! it. The launch is made without arguments, and only whether the process
//! could be started counts: its exit status and its output are ignored.
//!
//! The caller walks through three steps: `locate` names the lookup,
//! `is_available_with_path` takes its answer and names the launch, and
//! `Launched::started` reads the answer off what came of the launch.

use crate::config::default_bin_path;
use crate::trusted::{decode_lossy, lossy_text, path_is_absolute};
use vstd::prelude::*;
use vstd::utf8::{decode_utf8, valid_utf8};

verus! {

/// How the caller finds the executable.
#[derive(Debug, PartialEq, Eq)]
pub enum Lookup {
    /// The path must name an existing regular file.
    File(String),
    /// The name must be resolved by the executable search path.
    SearchPath(String),
}

/// A `Lookup` as plain values.
pub enum LookupView {
    File(Seq<char>),
    SearchPath(Seq<char>),
}

impl View for Lookup {
    type V = LookupView;

    open spec fn view(&self) -> LookupView {
        match self {
            Lookup::File(path) => LookupView::File(path@),
            Lookup::SearchPath(name) => LookupView::SearchPath(name@),
        }
    }
}

/// A launch of the executable that the caller is to make.
#[derive(Debug, PartialEq, Eq)]
pub struct Command {
    /// Path or name of the program.
    pub program: String,
    /// Its arguments, in order.
    pub args: Vec<String>,
}

/// A `Command` as plain values.
pub struct CommandView {
    pub program: Seq<char>,
    pub args: Seq<Seq<char>>,
}

impl View for Command {
    type V = CommandView;

    open spec fn view(&self) -> CommandView {
        CommandView { program: self.program@, args: self.args.deep_view() }
    }
}

impl DeepView for Command {
    type V = CommandView;

    open spec fn deep_view(&self) -> CommandView {
        self@
    }
}

/// What came of a launch.
#[derive(Debug, PartialEq, Eq)]
pub enum Launched {
    /// The process could not be started. Holds the system's error text.
    SpawnFailed(String),
    /// The process ran and exited.
    Exited {
        /// Whether it exited with status 0.
        success: bool,
        /// The text of what it wrote to its standard output.
        stdout: String,
        /// The text of what it wrote to its standard error.
        stderr: String,
    },
}

/// A `Launched` as plain values.
pub enum LaunchedView {
    SpawnFailed(Seq<char>),
    Exited { success: bool, stdout: Seq<char>, stderr: Seq<char> },
}

impl View for Launched {
    type V = LaunchedView;

    open spec fn view(&self) -> LaunchedView {
        match self {
            Launched::SpawnFailed(detail) => LaunchedView::SpawnFailed(detail@),
            Launched::Exited { success, stdout, stderr } => LaunchedView::Exited {
                success: *success,
                stdout: stdout@,
                stderr: stderr@,
            },
        }
    }
}

/// The lookup that finds `bin_path`, given whether the path is absolute.
pub open spec fn lookup_for(bin_path: Seq<char>, absolute: bool) -> LookupView {
    if absolute {
        LookupView::File(bin_path)
    } else {
        LookupView::SearchPath(bin_path)
    }
}

/// The launch that probes `bin_path`: the program without arguments.
pub open spec fn probe_command(bin_path: Seq<char>) -> CommandView {
    CommandView { program: bin_path, args: Seq::empty() }
}

/// The launch that is due once the lookup of `bin_path` has been answered:
/// none where the executable was not found.
pub open spec fn probe_launch(bin_path: Seq<char>, found: bool) -> Option<CommandView> {
    if found {
        Some(probe_command(bin_path))
    } else {
        None
    }
}

/// Whether the launch shows the executable to be available: the process was
/// started, however it exited.
pub open spec fn launch_started(outcome: LaunchedView) -> bool {
    outcome is Exited
}

/// The lookup that finds `bin_path`, given whether the path is absolute.
pub fn lookup_of(bin_path: &str, absolute: bool) -> (lookup: Lookup)
    ensures
        lookup@ == lookup_for(bin_path@, absolute),
{
    if absolute {
        Lookup::File(bin_path.to_owned())
    } else {
        Lookup::SearchPath(bin_path.to_owned())
    }
}

/// The lookup that finds `bin_path`. Whether a path is absolute is decided by
/// the platform's rules for paths, so the result is one of the two lookups of
/// that path.
pub fn locate(bin_path: &str) -> (lookup: Lookup)
    ensures
        lookup@ == lookup_for(bin_path@, true) || lookup@ == lookup_for(bin_path@, false),
{
    let absolute = path_is_absolute(bin_path);
    lookup_of(bin_path, absolute)
}

/// The launch that probes `bin_path`: the program without arguments.
pub fn probe_of(bin_path: &str) -> (command: Command)
    ensures
        command@ == probe_command(bin_path@),
{
    let command = Command { program: bin_path.to_owned(), args: Vec::new() };
    assert(command.args.deep_view() =~= Seq::empty());
    command
}

/// Second step of the probe of `bin_path`. `found` is the answer to the
/// lookup that `locate` named. Without the executable there is nothing to
/// launch and it is unavailable; else the probe launch is due.
pub fn is_available_with_path(bin_path: &str, found: bool) -> (launch: Option<Command>)
    ensures
        launch.deep_view() == probe_launch(bin_path@, found),
{
    if found {
        Some(probe_of(bin_path))
    } else {
        None
    }
}

/// Second step of the probe of the default executable, `vaultarq`.
pub fn is_available(found: bool) -> (launch: Option<Command>)
    ensures
        launch.deep_view() == probe_launch(default_bin_path(), found),
{
    is_available_with_path("vaultarq", found)
}

impl Launched {
    /// The outcome of a process that ran and exited, from its exit and the
    /// bytes that were captured of its output. The bytes are decoded as UTF-8,
    /// with U+FFFD in place of what is invalid.
    pub fn exited(success: bool, stdout: &[u8], stderr: &[u8]) -> (outcome: Launched)
        ensures
            outcome@ == (LaunchedView::Exited {
                success,
                stdout: lossy_text(stdout@),
                stderr: lossy_text(stderr@),
            }),
            valid_utf8(stdout@) ==> outcome@->stdout == decode_utf8(stdout@),
            valid_utf8(stderr@) ==> outcome@->stderr == decode_utf8(stderr@),
    {
        Launched::Exited { success, stdout: decode_lossy(stdout), stderr: decode_lossy(stderr) }
    }

    /// Last step of the probe: whether the launch shows the executable to be
    /// available.
    pub fn started(&self) -> (available: bool)
        ensures
            available == launch_started(self@),
    {
        match self {
            Launched::SpawnFailed(_) => false,
            Launched::Exited { .. } => true,
        }
    }
}

} // verus!
