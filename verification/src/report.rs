use vstd::prelude::*;

use crate::command::{RunOutcome, RunOutcomeView};
use crate::platform::{
    install_guide, install_guide_view, install_url, install_url_view, platform_name_view,
    tool_can_auto_install, tool_name_view, tool_required, Platform, Tool,
};
use crate::probe::{evaluate_probe, opt_outcome_view, probe_installed, probe_version};

verus! {

/// What one dependency check reports: presence and version of the tool, and
/// the fixed guidance shown when it is missing. Immutable once produced.
#[derive(Clone, Debug, PartialEq)]
pub struct CheckResult {
    pub name: String,
    pub installed: bool,
    pub version: Option<String>,
    pub required: bool,
    pub can_auto_install: bool,
    pub install_url: String,
    pub install_guide: Vec<String>,
}

/// Mathematical image of a [`CheckResult`].
#[verifier::ext_equal]
pub struct CheckResultView {
    pub name: Seq<char>,
    pub installed: bool,
    pub version: Option<Seq<char>>,
    pub required: bool,
    pub can_auto_install: bool,
    pub install_url: Seq<char>,
    pub install_guide: Seq<Seq<char>>,
}

impl View for CheckResult {
    type V = CheckResultView;

    open spec fn view(&self) -> CheckResultView {
        CheckResultView {
            name: self.name@,
            installed: self.installed,
            version: self.version.deep_view(),
            required: self.required,
            can_auto_install: self.can_auto_install,
            install_url: self.install_url@,
            install_guide: self.install_guide.deep_view(),
        }
    }
}

/// A well-formed check: a version is reported iff the tool is installed, and
/// the installation guide is never empty.
pub open spec fn check_wf(c: CheckResultView) -> bool {
    &&& c.version is Some <==> c.installed
    &&& c.install_guide.len() > 0
}

/// The check reported for one tool, as a function of the platform and the
/// observed outcomes of the tool's probe commands.
pub open spec fn check_view(
    t: Tool,
    p: Platform,
    primary: RunOutcomeView,
    fallback: Option<RunOutcomeView>,
) -> CheckResultView {
    CheckResultView {
        name: tool_name_view(t),
        installed: probe_installed(primary, fallback),
        version: probe_version(primary, fallback),
        required: tool_required(t),
        can_auto_install: tool_can_auto_install(t),
        install_url: install_url_view(t, p),
        install_guide: install_guide_view(t, p),
    }
}

/// Every check this crate produces is well-formed: in particular its
/// installation guide is non-empty.
pub proof fn lemma_check_view_wf(
    t: Tool,
    p: Platform,
    primary: RunOutcomeView,
    fallback: Option<RunOutcomeView>,
)
    ensures
        check_wf(check_view(t, p, primary, fallback)),
{
}

/// Assemble the check for one tool from its observed probe outcomes.
pub fn run_check(t: Tool, p: Platform, primary: &RunOutcome, fallback: &Option<RunOutcome>) -> (c:
    CheckResult)
    ensures
        c@ == check_view(t, p, primary@, opt_outcome_view(*fallback)),
        check_wf(c@),
{
    let signal = evaluate_probe(primary, fallback);
    let c = CheckResult {
        name: t.name(),
        installed: signal.installed,
        version: signal.version,
        required: t.is_required(),
        can_auto_install: t.auto_installable(),
        install_url: install_url(t, p),
        install_guide: install_guide(t, p),
    };
    proof {
        assert(c@ =~~= check_view(t, p, primary@, opt_outcome_view(*fallback)));
        lemma_check_view_wf(t, p, primary@, opt_outcome_view(*fallback));
    }
    c
}

/// Check the container runtime from its probe outcome.
pub fn check_docker(p: Platform, output: &RunOutcome) -> (c: CheckResult)
    ensures
        c@ == check_view(Tool::Docker, p, output@, None),
        check_wf(c@),
{
    run_check(Tool::Docker, p, output, &None)
}

/// Check the compose extension from the outcome of its modern subcommand
/// form and, where that failed, of the legacy standalone form.
pub fn check_docker_compose(
    p: Platform,
    primary: &RunOutcome,
    fallback: &Option<RunOutcome>,
) -> (c: CheckResult)
    ensures
        c@ == check_view(Tool::DockerCompose, p, primary@, opt_outcome_view(*fallback)),
        check_wf(c@),
{
    run_check(Tool::DockerCompose, p, primary, fallback)
}

/// Check the version-control client from its probe outcome.
pub fn check_git(p: Platform, output: &RunOutcome) -> (c: CheckResult)
    ensures
        c@ == check_view(Tool::Git, p, output@, None),
        check_wf(c@),
{
    run_check(Tool::Git, p, output, &None)
}

/// The aggregated readiness view across all checks.
#[derive(Clone, Debug, PartialEq)]
pub struct SystemReport {
    pub platform: String,
    pub all_ready: bool,
    pub checks: Vec<CheckResult>,
}

/// Mathematical image of a [`SystemReport`].
#[verifier::ext_equal]
pub struct SystemReportView {
    pub platform: Seq<char>,
    pub all_ready: bool,
    pub checks: Seq<CheckResultView>,
}

impl View for SystemReport {
    type V = SystemReportView;

    open spec fn view(&self) -> SystemReportView {
        SystemReportView {
            platform: self.platform@,
            all_ready: self.all_ready,
            checks: self.checks@.map_values(|c: CheckResult| c@),
        }
    }
}

/// Readiness of the first `n` checks: every required one among them found
/// its tool installed.
pub open spec fn prefix_ready(checks: Seq<CheckResultView>, n: int) -> bool {
    forall|j: int| 0 <= j < n ==> ((#[trigger] checks[j]).required ==> checks[j].installed)
}

/// Overall readiness: every required check found its tool installed.
pub open spec fn all_ready_of(checks: Seq<CheckResultView>) -> bool {
    prefix_ready(checks, checks.len() as int)
}

/// Compute overall readiness over a list of checks.
pub fn all_required_installed(checks: &Vec<CheckResult>) -> (b: bool)
    ensures
        b == all_ready_of(checks@.map_values(|c: CheckResult| c@)),
{
    let ghost model = checks@.map_values(|c: CheckResult| c@);
    let mut i: usize = 0;
    let mut ok = true;
    while i < checks.len()
        invariant
            0 <= i <= checks.len(),
            model == checks@.map_values(|c: CheckResult| c@),
            ok == prefix_ready(model, i as int),
        decreases checks.len() - i,
    {
        proof {
            assert(model[i as int] == checks@[i as int]@);
        }
        let step_ok = !(checks[i].required && !checks[i].installed);
        proof {
            assert(step_ok == (model[i as int].required ==> model[i as int].installed));
            if ok && step_ok {
                assert forall|j: int| 0 <= j < i + 1 implies ((#[trigger] model[j]).required
                    ==> model[j].installed) by {
                    if j < i as int {
                        assert(model[j].required ==> model[j].installed);
                    }
                }
                assert(prefix_ready(model, i as int + 1));
            } else if !step_ok {
                assert(!(model[i as int].required ==> model[i as int].installed));
                assert(!prefix_ready(model, i as int + 1));
            } else {
                let j0 = choose|j: int|
                    0 <= j < i && !((#[trigger] model[j]).required ==> model[j].installed);
                assert(0 <= j0 < i as int + 1);
                assert(!prefix_ready(model, i as int + 1));
            }
        }
        if !step_ok {
            ok = false;
        }
        i += 1;
    }
    ok
}

/// The full readiness report, as a function of the platform and the
/// outcomes observed for the three probes, in the fixed order: container
/// runtime, compose extension, version-control client.
pub open spec fn report_view(
    p: Platform,
    docker: RunOutcomeView,
    compose_primary: RunOutcomeView,
    compose_fallback: Option<RunOutcomeView>,
    git: RunOutcomeView,
) -> SystemReportView {
    let checks = seq![
        check_view(Tool::Docker, p, docker, None),
        check_view(Tool::DockerCompose, p, compose_primary, compose_fallback),
        check_view(Tool::Git, p, git, None),
    ];
    SystemReportView { platform: platform_name_view(p), all_ready: all_ready_of(checks), checks }
}

/// Assemble the full readiness report from the observed probe outcomes.
/// The checks come in the fixed order [runtime, compose extension,
/// version control], and `all_ready` holds exactly when every required
/// check found its tool installed.
pub fn check_all_requirements(
    p: Platform,
    docker: &RunOutcome,
    compose_primary: &RunOutcome,
    compose_fallback: &Option<RunOutcome>,
    git: &RunOutcome,
) -> (r: SystemReport)
    ensures
        r@ == report_view(p, docker@, compose_primary@, opt_outcome_view(*compose_fallback), git@),
        r@.checks.len() == 3,
        r@.checks[0] == check_view(Tool::Docker, p, docker@, None),
        r@.checks[1] == check_view(
            Tool::DockerCompose,
            p,
            compose_primary@,
            opt_outcome_view(*compose_fallback),
        ),
        r@.checks[2] == check_view(Tool::Git, p, git@, None),
        r@.all_ready == all_ready_of(r@.checks),
{
    let d = check_docker(p, docker);
    let dc = check_docker_compose(p, compose_primary, compose_fallback);
    let g = check_git(p, git);
    let mut checks: Vec<CheckResult> = Vec::new();
    checks.push(d);
    checks.push(dc);
    checks.push(g);
    let ready = all_required_installed(&checks);
    let r = SystemReport { platform: p.name(), all_ready: ready, checks };
    proof {
        assert(r@.checks =~= report_view(
            p,
            docker@,
            compose_primary@,
            opt_outcome_view(*compose_fallback),
            git@,
        ).checks);
        assert(r@ =~~= report_view(
            p,
            docker@,
            compose_primary@,
            opt_outcome_view(*compose_fallback),
            git@,
        ));
    }
    r
}

/// Probing is idempotent: two aggregation calls that observe the same
/// command outcomes for an unchanged environment produce content-identical
/// reports.
pub proof fn lemma_probing_idempotent(
    p: Platform,
    docker: RunOutcomeView,
    compose_primary: RunOutcomeView,
    compose_fallback: Option<RunOutcomeView>,
    git: RunOutcomeView,
    r1: SystemReportView,
    r2: SystemReportView,
)
    requires
        r1 == report_view(p, docker, compose_primary, compose_fallback, git),
        r2 == report_view(p, docker, compose_primary, compose_fallback, git),
    ensures
        r1 == r2,
{
}

} // verus!
