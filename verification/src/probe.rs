use vstd::prelude::*;

use crate::command::{run_ok, run_stdout, CommandLine, CommandLineView, RunOutcome, RunOutcomeView};
use crate::platform::Tool;
use crate::text::{version_text, version_view};

verus! {

/// The command forms one probe may run: a primary form and, for a tool with
/// a historical standalone form, a fallback that is tried only after the
/// primary fails.
#[derive(Clone, Debug)]
pub struct ProbePlan {
    pub primary: CommandLine,
    pub fallback: Option<CommandLine>,
}

/// Mathematical image of a [`ProbePlan`].
#[verifier::ext_equal]
pub struct ProbePlanView {
    pub primary: CommandLineView,
    pub fallback: Option<CommandLineView>,
}

impl View for ProbePlan {
    type V = ProbePlanView;

    open spec fn view(&self) -> ProbePlanView {
        ProbePlanView {
            primary: self.primary@,
            fallback: match &self.fallback {
                Some(c) => Some(c@),
                None => None,
            },
        }
    }
}

/// The image of an optional outcome, for contracts over a fallback run that
/// may not have happened.
pub open spec fn opt_outcome_view(o: Option<RunOutcome>) -> Option<RunOutcomeView> {
    match o {
        Some(x) => Some(x@),
        None => None,
    }
}

/// The probe commands for each tool: the container runtime and the
/// version-control client answer a plain version flag; the compose extension
/// is asked in its modern subcommand form first, with the legacy standalone
/// binary as the fallback.
pub open spec fn probe_plan_view(t: Tool) -> ProbePlanView {
    match t {
        Tool::Docker => ProbePlanView {
            primary: CommandLineView { program: "docker"@, args: seq!["--version"@] },
            fallback: None,
        },
        Tool::DockerCompose => ProbePlanView {
            primary: CommandLineView { program: "docker"@, args: seq!["compose"@, "version"@] },
            fallback: Some(CommandLineView { program: "docker-compose"@, args: seq!["--version"@] }),
        },
        Tool::Git => ProbePlanView {
            primary: CommandLineView { program: "git"@, args: seq!["--version"@] },
            fallback: None,
        },
    }
}

/// Build the probe plan for a tool.
pub fn probe_plan(t: Tool) -> (r: ProbePlan)
    ensures
        r@ == probe_plan_view(t),
{
    let r = match t {
        Tool::Docker => {
            let mut args: Vec<String> = Vec::new();
            args.push("--version".to_string());
            ProbePlan { primary: CommandLine { program: "docker".to_string(), args }, fallback: None }
        }
        Tool::DockerCompose => {
            let mut args: Vec<String> = Vec::new();
            args.push("compose".to_string());
            args.push("version".to_string());
            let mut fb_args: Vec<String> = Vec::new();
            fb_args.push("--version".to_string());
            ProbePlan {
                primary: CommandLine { program: "docker".to_string(), args },
                fallback: Some(CommandLine { program: "docker-compose".to_string(), args: fb_args }),
            }
        }
        Tool::Git => {
            let mut args: Vec<String> = Vec::new();
            args.push("--version".to_string());
            ProbePlan { primary: CommandLine { program: "git".to_string(), args }, fallback: None }
        }
    };
    proof {
        assert(r@ =~~= probe_plan_view(t));
    }
    r
}

/// The fallback form is attempted exactly when the primary form failed and
/// the plan has a fallback; the two forms are never asked for together.
pub open spec fn fallback_needed(plan: ProbePlanView, primary: RunOutcomeView) -> bool {
    !run_ok(primary) && plan.fallback is Some
}

/// Decide whether the fallback command must still be run after the primary
/// outcome came in.
pub fn needs_fallback(plan: &ProbePlan, primary: &RunOutcome) -> (b: bool)
    ensures
        b == fallback_needed(plan@, primary@),
{
    match primary {
        RunOutcome::Exited { ok: true, .. } => false,
        _ => plan.fallback.is_some(),
    }
}

/// A probe reports the tool installed iff its primary form succeeded or,
/// failing that, a fallback form was run and succeeded.
pub open spec fn probe_installed(primary: RunOutcomeView, fallback: Option<RunOutcomeView>) -> bool {
    run_ok(primary) || (fallback is Some && run_ok(fallback.unwrap()))
}

/// The version a probe reports: the trimmed, leniently decoded output of the
/// command form that succeeded (the primary form takes precedence); no
/// version when neither form succeeded.
pub open spec fn probe_version(primary: RunOutcomeView, fallback: Option<RunOutcomeView>) -> Option<
    Seq<char>,
> {
    if run_ok(primary) {
        Some(version_view(run_stdout(primary)))
    } else if fallback is Some && run_ok(fallback.unwrap()) {
        Some(version_view(run_stdout(fallback.unwrap())))
    } else {
        None
    }
}

/// What one probe reports: presence, and the version string when present.
#[derive(Clone, Debug, PartialEq)]
pub struct ProbeSignal {
    pub installed: bool,
    pub version: Option<String>,
}

/// Fold the observed outcomes of a probe's command forms into its signal.
pub fn evaluate_probe(primary: &RunOutcome, fallback: &Option<RunOutcome>) -> (r: ProbeSignal)
    ensures
        r.installed == probe_installed(primary@, opt_outcome_view(*fallback)),
        r.version.deep_view() == probe_version(primary@, opt_outcome_view(*fallback)),
{
    match primary {
        RunOutcome::Exited { ok: true, stdout, .. } => ProbeSignal {
            installed: true,
            version: Some(version_text(stdout)),
        },
        _ => match fallback {
            Some(RunOutcome::Exited { ok: true, stdout, .. }) => ProbeSignal {
                installed: true,
                version: Some(version_text(stdout)),
            },
            _ => ProbeSignal { installed: false, version: None },
        },
    }
}

/// A version is reported exactly when the probe found the tool installed.
pub proof fn lemma_version_iff_installed(primary: RunOutcomeView, fallback: Option<RunOutcomeView>)
    ensures
        probe_version(primary, fallback) is Some <==> probe_installed(primary, fallback),
{
}

/// When the primary form fails, a plan with a fallback asks for the fallback
/// to be attempted; and when every form that was run failed, the probe
/// reports not-installed with no version.
pub proof fn lemma_fallback_policy(
    plan: ProbePlanView,
    primary: RunOutcomeView,
    fallback: Option<RunOutcomeView>,
)
    requires
        !run_ok(primary),
    ensures
        plan.fallback is Some ==> fallback_needed(plan, primary),
        (fallback is Some ==> !run_ok(fallback.unwrap())) ==> !probe_installed(primary, fallback)
            && probe_version(primary, fallback) is None,
{
}

} // verus!
