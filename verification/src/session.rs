//! One load of the secrets, as a sequence of launches.
//!
//! A load probes the executable, switches to the named environment where one
//! is set, asks for the export and reads what it printed. The library makes
//! the decisions; the caller makes each launch and hands back what came of
//! it, until the load is done. No launch is made twice.
//!
//! The load starts with `init_with_config`, which takes the answer to the
//! lookup that `locate` named for the configured executable. Each `Step` is
//! either a launch to make, with the session to hand its outcome to, or the
//! end of the load: the pairs to put into the environment, or the error.

use crate::config::{default_config, Config, ConfigView, Format};
use crate::error::{Error, ErrorView};
use crate::output::{output_pairs, parse_output};
use crate::probe::{probe_command, probe_of, Command, CommandView, Launched, LaunchedView};
use vstd::prelude::*;

verus! {

/// The launch whose outcome a session waits for.
#[derive(Debug, Clone, Copy, PartialEq, Eq, Structural)]
pub enum Stage {
    /// The launch without arguments that shows the executable to be usable.
    Probing,
    /// The switch to the named environment.
    Switching,
    /// The export of the secrets.
    Exporting,
}

/// A load that waits for the outcome of a launch.
#[derive(Debug)]
pub struct Session {
    config: Config,
    stage: Stage,
}

/// A `Session` as plain values.
pub struct SessionView {
    /// The settings of the load.
    pub config: ConfigView,
    /// The launch whose outcome is awaited.
    pub stage: Stage,
}

impl View for Session {
    type V = SessionView;

    closed spec fn view(&self) -> SessionView {
        SessionView { config: self.config@, stage: self.stage }
    }
}

/// What a load does next.
#[derive(Debug)]
pub enum Step {
    /// Make the launch and hand its outcome to the session.
    Launch(Session, Command),
    /// The load is over. On success, each pair is to be put into the
    /// environment, in order, so that a later pair of the same name wins.
    Done(Result<Vec<(String, String)>, Error>),
}

/// A `Step` as plain values.
pub enum StepView {
    Launch(SessionView, CommandView),
    Done(Result<Seq<(Seq<char>, Seq<char>)>, ErrorView>),
}

impl View for Step {
    type V = StepView;

    open spec fn view(&self) -> StepView {
        match self {
            Step::Launch(session, command) => StepView::Launch(session@, command@),
            Step::Done(Ok(pairs)) => StepView::Done(Ok(pairs.deep_view())),
            Step::Done(Err(error)) => StepView::Done(Err(error@)),
        }
    }
}

/// The launch that switches `bin_path` to the environment `name`.
pub open spec fn link_command(bin_path: Seq<char>, name: Seq<char>) -> CommandView {
    CommandView { program: bin_path, args: seq!["link"@, name] }
}

/// The launch that asks `bin_path` for the export in the given style.
pub open spec fn export_command(bin_path: Seq<char>, format: Format) -> CommandView {
    CommandView { program: bin_path, args: seq!["export"@, format.flag()] }
}

/// How a load ends where the executable is unavailable: with `NotFound` where
/// that is asked for, and else in success with no pair.
pub open spec fn unavailable(config: ConfigView) -> StepView {
    if config.throw_if_not_found {
        StepView::Done(Err(ErrorView::NotFound))
    } else {
        StepView::Done(Ok(Seq::empty()))
    }
}

/// The step that asks for the export.
pub open spec fn export_step(config: ConfigView) -> StepView {
    StepView::Launch(
        SessionView { config, stage: Stage::Exporting },
        export_command(config.bin_path, config.format),
    )
}

/// The step that follows the probe of an available executable: the switch to
/// the named environment where one is set, and else the export.
pub open spec fn available_step(config: ConfigView) -> StepView {
    match config.environment {
        Some(name) => StepView::Launch(
            SessionView { config, stage: Stage::Switching },
            link_command(config.bin_path, name),
        ),
        None => export_step(config),
    }
}

/// The first step of a load, given whether the executable was found.
pub open spec fn begin(config: ConfigView, found: bool) -> StepView {
    if found {
        StepView::Launch(SessionView { config, stage: Stage::Probing }, probe_command(config.bin_path))
    } else {
        unavailable(config)
    }
}

/// The step that follows the outcome of the awaited launch.
pub open spec fn next_step(session: SessionView, outcome: LaunchedView) -> StepView {
    let config = session.config;
    match session.stage {
        Stage::Probing => match outcome {
            LaunchedView::SpawnFailed(_) => unavailable(config),
            LaunchedView::Exited { .. } => available_step(config),
        },
        Stage::Switching => match outcome {
            LaunchedView::SpawnFailed(detail) => StepView::Done(
                Err(ErrorView::ExecutionError(detail)),
            ),
            LaunchedView::Exited { success, stdout, stderr } => if success {
                export_step(config)
            } else {
                StepView::Done(Err(ErrorView::EnvironmentSwitchError(stderr)))
            },
        },
        Stage::Exporting => match outcome {
            LaunchedView::SpawnFailed(detail) => StepView::Done(
                Err(ErrorView::ExecutionError(detail)),
            ),
            LaunchedView::Exited { success, stdout, stderr } => if success {
                StepView::Done(Ok(output_pairs(stdout)))
            } else {
                StepView::Done(Err(ErrorView::ExecutionError(stderr)))
            },
        },
    }
}

/// The number of launches that a session in this stage can still ask for,
/// the awaited one included.
pub open spec fn launches_left(stage: Stage) -> nat {
    match stage {
        Stage::Probing => 3,
        Stage::Switching => 2,
        Stage::Exporting => 1,
    }
}

/// Without the executable a load ends at once and launches nothing: with
/// `NotFound` where the settings ask for it, and else in success with no pair
/// to set.
pub proof fn law_executable_not_found(config: ConfigView)
    ensures
        config.throw_if_not_found ==> begin(config, false) == StepView::Done(
            Err(ErrorView::NotFound),
        ),
        !config.throw_if_not_found ==> begin(config, false) == StepView::Done(Ok(Seq::empty())),
{
}

/// An export that exits with a failure ends the load with `ExecutionError`,
/// which holds what the export wrote to its standard error.
pub proof fn law_export_failure(config: ConfigView, stdout: Seq<char>, stderr: Seq<char>)
    ensures
        next_step(
            SessionView { config, stage: Stage::Exporting },
            LaunchedView::Exited { success: false, stdout, stderr },
        ) == StepView::Done(Err(ErrorView::ExecutionError(stderr))),
{
}

/// Every step moves on: the session that a step hands out has the same
/// settings and fewer launches left. A load so makes three launches at most,
/// and none of them twice.
pub proof fn law_session_moves_on(session: SessionView, outcome: LaunchedView)
    ensures
        next_step(session, outcome) matches StepView::Launch(next, _) ==> next.config
            == session.config && launches_left(next.stage) < launches_left(session.stage),
{
}

/// The launch that switches `bin_path` to the environment `name`.
fn link_of(bin_path: &str, name: &str) -> (command: Command)
    ensures
        command@ == link_command(bin_path@, name@),
{
    let mut args: Vec<String> = Vec::new();
    args.push("link".to_owned());
    args.push(name.to_owned());
    assert(args.deep_view() =~= seq!["link"@, name@]);
    Command { program: bin_path.to_owned(), args }
}

/// The launch that asks `bin_path` for the export in the given style.
fn export_of(bin_path: &str, format: Format) -> (command: Command)
    ensures
        command@ == export_command(bin_path@, format),
{
    let mut args: Vec<String> = Vec::new();
    args.push("export".to_owned());
    args.push(format.as_arg().to_owned());
    assert(args.deep_view() =~= seq!["export"@, format.flag()]);
    Command { program: bin_path.to_owned(), args }
}

/// How a load ends where the executable is unavailable.
fn end_unavailable(config: &Config) -> (step: Step)
    ensures
        step@ == unavailable(config@),
{
    if config.throw_if_not_found() {
        Step::Done(Err(Error::NotFound))
    } else {
        let pairs: Vec<(String, String)> = Vec::new();
        assert(pairs.deep_view() =~= Seq::empty());
        Step::Done(Ok(pairs))
    }
}

/// The step that asks for the export.
fn ask_export(config: Config) -> (step: Step)
    ensures
        step@ == export_step(config@),
{
    let command = export_of(config.bin_path(), config.format());
    Step::Launch(Session { config, stage: Stage::Exporting }, command)
}

/// The step that follows the probe of an available executable.
fn go_on(config: Config) -> (step: Step)
    ensures
        step@ == available_step(config@),
{
    let link = match config.environment() {
        Some(name) => Some(link_of(config.bin_path(), name)),
        None => None,
    };
    match link {
        Some(command) => Step::Launch(Session { config, stage: Stage::Switching }, command),
        None => ask_export(config),
    }
}

/// Starts a load with the given settings. `found` is the answer to the lookup
/// that `locate` names for the configured executable.
///
/// Where the executable was found, the step is the probe launch. Where it was
/// not, the load is over: in `NotFound` where the settings make a missing
/// executable an error, and else in success with nothing to set.
pub fn init_with_config(config: &Config, found: bool) -> (step: Step)
    ensures
        step@ == begin(config@, found),
{
    if found {
        let command = probe_of(config.bin_path());
        Step::Launch(Session { config: config.clone(), stage: Stage::Probing }, command)
    } else {
        end_unavailable(config)
    }
}

/// Starts a load with the default settings.
pub fn init(found: bool) -> (step: Step)
    ensures
        step@ == begin(default_config(), found),
{
    let config = Config::new();
    init_with_config(&config, found)
}

impl Session {
    /// The settings of the load.
    pub fn config(&self) -> (config: &Config)
        ensures
            config@ == self@.config,
    {
        &self.config
    }

    /// The launch whose outcome is awaited.
    pub fn stage(&self) -> (stage: Stage)
        ensures
            stage == self@.stage,
    {
        self.stage
    }

    /// Takes the outcome of the awaited launch and gives the next step.
    ///
    /// After the probe, a process that could not be started means that the
    /// executable is unavailable; one that ran, whatever its exit, lets the
    /// load go on. After the switch and after the export, a process that could
    /// not be started ends the load with `ExecutionError` and the system's
    /// text; a failed switch ends it with `EnvironmentSwitchError`, a failed
    /// export with `ExecutionError`, each with the text of the standard
    /// error. A successful export ends the load with the pairs of its
    /// standard output.
    pub fn advance(self, outcome: Launched) -> (step: Step)
        ensures
            step@ == next_step(self@, outcome@),
    {
        let Session { config, stage } = self;
        match stage {
            Stage::Probing => match outcome {
                Launched::SpawnFailed(_) => end_unavailable(&config),
                Launched::Exited { .. } => go_on(config),
            },
            Stage::Switching => match outcome {
                Launched::SpawnFailed(detail) => Step::Done(Err(Error::ExecutionError(detail))),
                Launched::Exited { success, stdout, stderr } => {
                    if success {
                        ask_export(config)
                    } else {
                        Step::Done(Err(Error::EnvironmentSwitchError(stderr)))
                    }
                },
            },
            Stage::Exporting => match outcome {
                Launched::SpawnFailed(detail) => Step::Done(Err(Error::ExecutionError(detail))),
                Launched::Exited { success, stdout, stderr } => {
                    if success {
                        Step::Done(Ok(parse_output(stdout.as_str())))
                    } else {
                        Step::Done(Err(Error::ExecutionError(stderr)))
                    }
                },
            },
        }
    }
}

} // verus!
