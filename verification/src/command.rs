use vstd::prelude::*;

verus! {

/// One external command invocation: a program name and its arguments.
#[derive(Clone, Debug)]
pub struct CommandLine {
    pub program: String,
    pub args: Vec<String>,
}

/// Mathematical image of a [`CommandLine`].
#[verifier::ext_equal]
pub struct CommandLineView {
    pub program: Seq<char>,
    pub args: Seq<Seq<char>>,
}

impl View for CommandLine {
    type V = CommandLineView;

    open spec fn view(&self) -> CommandLineView {
        CommandLineView { program: self.program@, args: self.args.deep_view() }
    }
}

/// What the embedding application observed when it ran one command: either
/// the process could not be started at all (a missing binary is a normal data
/// outcome here, never an error), or it ran to completion with an exit status
/// and fully captured output streams.
#[derive(Clone, Debug)]
pub enum RunOutcome {
    NotStarted,
    Exited { ok: bool, stdout: Vec<u8>, stderr: Vec<u8> },
}

/// Mathematical image of a [`RunOutcome`].
#[verifier::ext_equal]
pub enum RunOutcomeView {
    NotStarted,
    Exited { ok: bool, stdout: Seq<u8>, stderr: Seq<u8> },
}

impl View for RunOutcome {
    type V = RunOutcomeView;

    open spec fn view(&self) -> RunOutcomeView {
        match self {
            RunOutcome::NotStarted => RunOutcomeView::NotStarted,
            RunOutcome::Exited { ok, stdout, stderr } => RunOutcomeView::Exited {
                ok: *ok,
                stdout: stdout@,
                stderr: stderr@,
            },
        }
    }
}

/// A command invocation counts as successful when the process could be
/// started and exited with a success status.
pub open spec fn run_ok(o: RunOutcomeView) -> bool {
    o matches RunOutcomeView::Exited { ok: true, .. }
}

/// Captured standard output; empty if the process never started.
pub open spec fn run_stdout(o: RunOutcomeView) -> Seq<u8> {
    match o {
        RunOutcomeView::NotStarted => Seq::empty(),
        RunOutcomeView::Exited { stdout, .. } => stdout,
    }
}

/// Captured standard error; empty if the process never started.
pub open spec fn run_stderr(o: RunOutcomeView) -> Seq<u8> {
    match o {
        RunOutcomeView::NotStarted => Seq::empty(),
        RunOutcomeView::Exited { stderr, .. } => stderr,
    }
}

/// Executable test for [`run_ok`].
pub fn outcome_ok(o: &RunOutcome) -> (b: bool)
    ensures
        b == run_ok(o@),
{
    match o {
        RunOutcome::NotStarted => false,
        RunOutcome::Exited { ok, .. } => *ok,
    }
}

} // verus!
