use vstd::prelude::*;

use crate::config::FileType;

verus! {

/// What the engine asks its host to do next: execute one command line in the
/// problem directory. `pipe_input` says whether the sample input is piped to
/// the command's standard input; compile and cleanup commands run with an
/// empty one.
#[derive(Debug)]
pub struct CommandRequest {
    pub command: String,
    pub pipe_input: bool,
}

/// How one command invocation ended: the captured standard output on a zero
/// exit status, or failure (a non-zero exit status, or failure to spawn).
#[derive(Debug)]
pub enum CommandOutcome {
    Success(String),
    Failure,
}

/// The execution pipeline's state between command invocations. The pipeline
/// runs at most three commands — compile, run, cleanup — and each await
/// state remembers what it waits for.
#[derive(Debug)]
pub enum PipelineState {
    /// The compile command was issued; its outcome decides whether the run
    /// stage starts at all.
    Compiling,
    /// The run command was issued; its captured output is the candidate
    /// output.
    Running,
    /// The cleanup command was issued; the run stage already captured
    /// `output`, which no cleanup outcome can take away.
    CleaningUp { output: String },
    /// Terminal: the pipeline produced the solution's output.
    Done { output: String },
    /// Terminal: the compile stage failed on `command`.
    CompileFailed { command: String },
    /// Terminal: the run stage failed on `command`.
    RunFailed { command: String },
}

impl PipelineState {
    /// Whether the pipeline is finished; a terminal state takes no further
    /// step.
    pub open spec fn is_terminal(&self) -> bool {
        match self {
            PipelineState::Done { .. } => true,
            PipelineState::CompileFailed { .. } => true,
            PipelineState::RunFailed { .. } => true,
            _ => false,
        }
    }

    /// Whether the pipeline is finished.
    pub fn finished(&self) -> (r: bool)
        ensures
            r == self.is_terminal(),
    {
        match self {
            PipelineState::Done { .. } => true,
            PipelineState::CompileFailed { .. } => true,
            PipelineState::RunFailed { .. } => true,
            _ => false,
        }
    }
}

/// The first state and command of a pipeline run: the compile command when
/// the descriptor has one, otherwise directly the run command with the
/// sample input piped in.
pub open spec fn spec_start(ft: FileType) -> (PipelineState, Option<CommandRequest>) {
    match ft.compile {
        Some(c) => (
            PipelineState::Compiling,
            Some(CommandRequest { command: c, pipe_input: false }),
        ),
        None => (
            PipelineState::Running,
            Some(CommandRequest { command: ft.run, pipe_input: true }),
        ),
    }
}

/// The transition the pipeline takes when the awaited command ends with
/// `outcome`: compile and run failures abort into their terminal failure
/// states, a successful run captures its output, and the cleanup outcome is
/// ignored either way.
pub open spec fn spec_step(ft: FileType, state: PipelineState, outcome: CommandOutcome) -> (
    PipelineState,
    Option<CommandRequest>,
) {
    match state {
        PipelineState::Compiling => match outcome {
            CommandOutcome::Success(_) => (
                PipelineState::Running,
                Some(CommandRequest { command: ft.run, pipe_input: true }),
            ),
            CommandOutcome::Failure => (
                PipelineState::CompileFailed { command: ft.compile->Some_0 },
                None,
            ),
        },
        PipelineState::Running => match outcome {
            CommandOutcome::Success(out) => match ft.after {
                Some(a) => (
                    PipelineState::CleaningUp { output: out },
                    Some(CommandRequest { command: a, pipe_input: false }),
                ),
                None => (PipelineState::Done { output: out }, None),
            },
            CommandOutcome::Failure => (PipelineState::RunFailed { command: ft.run }, None),
        },
        PipelineState::CleaningUp { output } => (PipelineState::Done { output }, None),
        _ => (state, None),
    }
}

/// Starts a pipeline run for the resolved toolchain.
pub fn pipeline_start(ft: &FileType) -> (r: (PipelineState, Option<CommandRequest>))
    ensures
        r == spec_start(*ft),
{
    match &ft.compile {
        Some(c) => (
            PipelineState::Compiling,
            Some(CommandRequest { command: c.clone(), pipe_input: false }),
        ),
        None => (
            PipelineState::Running,
            Some(CommandRequest { command: ft.run.clone(), pipe_input: true }),
        ),
    }
}

/// Advances the pipeline after the awaited command ended with `outcome`.
pub fn pipeline_step(ft: &FileType, state: PipelineState, outcome: CommandOutcome) -> (r: (
    PipelineState,
    Option<CommandRequest>,
))
    requires
        !state.is_terminal(),
        state is Compiling ==> ft.compile is Some,
    ensures
        r == spec_step(*ft, state, outcome),
{
    match state {
        PipelineState::Compiling => match outcome {
            CommandOutcome::Success(_) => (
                PipelineState::Running,
                Some(CommandRequest { command: ft.run.clone(), pipe_input: true }),
            ),
            CommandOutcome::Failure => {
                let c = match &ft.compile {
                    Some(c) => c.clone(),
                    None => String::new(),
                };
                (PipelineState::CompileFailed { command: c }, None)
            },
        },
        PipelineState::Running => match outcome {
            CommandOutcome::Success(out) => match &ft.after {
                Some(a) => (
                    PipelineState::CleaningUp { output: out },
                    Some(CommandRequest { command: a.clone(), pipe_input: false }),
                ),
                None => (PipelineState::Done { output: out }, None),
            },
            CommandOutcome::Failure => (
                PipelineState::RunFailed { command: ft.run.clone() },
                None,
            ),
        },
        PipelineState::CleaningUp { output } => (PipelineState::Done { output }, None),
        other => (other, None),
    }
}

/// The outcome of one whole pipeline run: the solution's output, or the
/// stage and command on which it failed. Cleanup cannot fail a run, so no
/// variant exists for it.
#[derive(Debug)]
pub enum ExecutionResult {
    Output(String),
    CompileError { command: String },
    RunError { command: String },
}

/// Reads the result off a finished pipeline.
pub fn pipeline_result(state: PipelineState) -> (r: ExecutionResult)
    requires
        state.is_terminal(),
    ensures
        state matches PipelineState::Done { output } ==> r == ExecutionResult::Output(output),
        state matches PipelineState::CompileFailed { command } ==> r == (
            ExecutionResult::CompileError { command }
        ),
        state matches PipelineState::RunFailed { command } ==> r == (
            ExecutionResult::RunError { command }
        ),
{
    match state {
        PipelineState::Done { output } => ExecutionResult::Output(output),
        PipelineState::CompileFailed { command } => ExecutionResult::CompileError { command },
        PipelineState::RunFailed { command } => ExecutionResult::RunError { command },
        _ => unreached(),
    }
}

/// Compile-stage failure short-circuits the pipeline: a failing compile
/// command ends the run at once in a terminal failure state, and no further
/// command — in particular the run command — is requested for that sample.
pub proof fn lemma_compile_failure_short_circuits(ft: FileType)
    requires
        ft.compile is Some,
    ensures
        spec_step(ft, PipelineState::Compiling, CommandOutcome::Failure) == (
            (PipelineState::CompileFailed { command: ft.compile->Some_0 }),
            None::<CommandRequest>,
        ),
        spec_step(ft, PipelineState::Compiling, CommandOutcome::Failure).0.is_terminal(),
{
}

/// Cleanup failure is swallowed: whatever the cleanup command's outcome, the
/// pipeline ends with the output the run stage already captured, never in a
/// failure state.
pub proof fn lemma_cleanup_outcome_ignored(ft: FileType, output: String, outcome: CommandOutcome)
    ensures
        spec_step(ft, (PipelineState::CleaningUp { output }), outcome) == (
            (PipelineState::Done { output }),
            None::<CommandRequest>,
        ),
{
}

} // verus!
