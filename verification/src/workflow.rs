use vstd::prelude::*;

use crate::command::{outcome_ok, run_ok, CommandLine, CommandLineView, RunOutcome, RunOutcomeView};
use crate::platform::{download_url, download_url_view, tool_can_auto_install, CpuArch, Platform, Tool};

verus! {

/// Why a provisioning run failed.
#[derive(Clone, Copy, Debug, PartialEq, Eq, Structural)]
pub enum InstallFailure {
    AlreadyInProgress,
    PlatformUnsupported,
    NetworkFailure,
    PartialInstallFailure,
}

/// Terminal value of one provisioning run.
#[derive(Clone, Debug, PartialEq)]
pub struct InstallResult {
    pub success: bool,
    pub message: String,
}

/// Mathematical image of an [`InstallResult`].
#[verifier::ext_equal]
pub struct InstallResultView {
    pub success: bool,
    pub message: Seq<char>,
}

impl View for InstallResult {
    type V = InstallResultView;

    open spec fn view(&self) -> InstallResultView {
        InstallResultView { success: self.success, message: self.message@ }
    }
}

/// The message reported for each way a run can fail; the messages are
/// pairwise distinct, so the failure kind is visible in the result.
pub open spec fn failure_message_view(f: InstallFailure) -> Seq<char> {
    match f {
        InstallFailure::AlreadyInProgress => "An installation is already in progress"@,
        InstallFailure::PlatformUnsupported => "Automatic installation is only supported on macOS"@,
        InstallFailure::NetworkFailure => "Download failed, please check your network connection"@,
        InstallFailure::PartialInstallFailure => "Installation failed"@,
    }
}

/// The failed terminal result for a reason.
pub open spec fn failed_result_view(f: InstallFailure) -> InstallResultView {
    InstallResultView { success: false, message: failure_message_view(f) }
}

/// The successful terminal result. A launch failure never downgrades the
/// result — the install already completed — but is noted in the message.
pub open spec fn success_result_view(launched: bool) -> InstallResultView {
    InstallResultView {
        success: true,
        message: if launched {
            "Docker was installed successfully and is starting"@
        } else {
            "Docker was installed successfully, but could not be launched automatically"@
        },
    }
}

/// Build the failed terminal result for a reason.
pub fn failed_result(f: InstallFailure) -> (r: InstallResult)
    ensures
        r@ == failed_result_view(f),
{
    let message = match f {
        InstallFailure::AlreadyInProgress => "An installation is already in progress".to_string(),
        InstallFailure::PlatformUnsupported => "Automatic installation is only supported on macOS"
            .to_string(),
        InstallFailure::NetworkFailure => "Download failed, please check your network connection"
            .to_string(),
        InstallFailure::PartialInstallFailure => "Installation failed".to_string(),
    };
    InstallResult { success: false, message }
}

/// Build the successful terminal result.
pub fn success_result(launched: bool) -> (r: InstallResult)
    ensures
        r@ == success_result_view(launched),
{
    let message = if launched {
        "Docker was installed successfully and is starting".to_string()
    } else {
        "Docker was installed successfully, but could not be launched automatically".to_string()
    };
    InstallResult { success: true, message }
}

/// The sequential stages of one provisioning run. The cleanup stages carry
/// whether the install step had succeeded, because best-effort cleanup must
/// never override the failure that triggered it.
#[derive(Clone, Copy, Debug, PartialEq, Eq, Structural)]
pub enum Stage {
    Downloading,
    Mounting,
    Installing,
    Unmounting { install_ok: bool },
    RemovingArtifact { install_ok: bool },
    Launching,
}

/// What the embedding application is asked to do next: run a command to
/// completion and report its outcome, spawn a detached process and report
/// whether it could be started, or accept the terminal result.
#[derive(Clone, Debug)]
pub enum WorkflowStep {
    Run(CommandLine),
    Spawn(CommandLine),
    Done(InstallResult),
}

/// Mathematical image of a [`WorkflowStep`].
#[verifier::ext_equal]
pub enum WorkflowStepView {
    Run(CommandLineView),
    Spawn(CommandLineView),
    Done(InstallResultView),
}

impl View for WorkflowStep {
    type V = WorkflowStepView;

    open spec fn view(&self) -> WorkflowStepView {
        match self {
            WorkflowStep::Run(c) => WorkflowStepView::Run(c@),
            WorkflowStep::Spawn(c) => WorkflowStepView::Spawn(c@),
            WorkflowStep::Done(r) => WorkflowStepView::Done(r@),
        }
    }
}

/// Fetch the platform package artifact to the scratch location.
pub open spec fn download_command_view(a: CpuArch) -> CommandLineView {
    CommandLineView {
        program: "curl"@,
        args: seq!["-L"@, "-o"@, "/tmp/Docker.dmg"@, download_url_view(a)],
    }
}

/// Mount the downloaded disk image.
pub open spec fn mount_command_view() -> CommandLineView {
    CommandLineView {
        program: "hdiutil"@,
        args: seq!["attach"@, "/tmp/Docker.dmg"@, "-nobrowse"@, "-quiet"@],
    }
}

/// Copy the application bundle from the mounted volume into place.
pub open spec fn copy_command_view() -> CommandLineView {
    CommandLineView {
        program: "cp"@,
        args: seq!["-R"@, "/Volumes/Docker/Docker.app"@, "/Applications/"@],
    }
}

/// Unmount the volume (best-effort cleanup).
pub open spec fn unmount_command_view() -> CommandLineView {
    CommandLineView { program: "hdiutil"@, args: seq!["detach"@, "/Volumes/Docker"@, "-quiet"@] }
}

/// Delete the scratch artifact (best-effort cleanup).
pub open spec fn remove_artifact_command_view() -> CommandLineView {
    CommandLineView { program: "rm"@, args: seq!["-f"@, "/tmp/Docker.dmg"@] }
}

/// Start the freshly installed application, detached.
pub open spec fn launch_command_view() -> CommandLineView {
    CommandLineView { program: "open"@, args: seq!["-a"@, "/Applications/Docker.app"@] }
}

/// The first step of a requested run: a second concurrent request is
/// rejected outright; a tool that cannot be installed unattended, or a
/// platform other than macOS, is rejected before any command is issued;
/// otherwise the download begins.
pub open spec fn start_step_view(in_flight: bool, t: Tool, p: Platform, a: CpuArch) -> WorkflowStepView {
    if in_flight {
        WorkflowStepView::Done(failed_result_view(InstallFailure::AlreadyInProgress))
    } else if !(tool_can_auto_install(t) && p is MacOs) {
        WorkflowStepView::Done(failed_result_view(InstallFailure::PlatformUnsupported))
    } else {
        WorkflowStepView::Run(download_command_view(a))
    }
}

/// The machine's reaction to the outcome of the current stage's command:
/// the step handed back to the application, and the stage the machine moves
/// to (none when the run has ended).
///
/// A download failure fails fast — nothing was acquired, so nothing is
/// cleaned up. A mount or copy failure still walks through both cleanup
/// stages before the partial-install failure is reported. The cleanup
/// outcomes themselves are advisory and never change where the run settles.
pub open spec fn advance_view(s: Stage, o: RunOutcomeView) -> (WorkflowStepView, Option<Stage>) {
    match s {
        Stage::Downloading => if run_ok(o) {
            (WorkflowStepView::Run(mount_command_view()), Some(Stage::Mounting))
        } else {
            (
                WorkflowStepView::Done(failed_result_view(InstallFailure::NetworkFailure)),
                None,
            )
        },
        Stage::Mounting => if run_ok(o) {
            (WorkflowStepView::Run(copy_command_view()), Some(Stage::Installing))
        } else {
            (
                WorkflowStepView::Run(unmount_command_view()),
                Some(Stage::Unmounting { install_ok: false }),
            )
        },
        Stage::Installing => (
            WorkflowStepView::Run(unmount_command_view()),
            Some(Stage::Unmounting { install_ok: run_ok(o) }),
        ),
        Stage::Unmounting { install_ok } => (
            WorkflowStepView::Run(remove_artifact_command_view()),
            Some(Stage::RemovingArtifact { install_ok }),
        ),
        Stage::RemovingArtifact { install_ok } => if install_ok {
            (WorkflowStepView::Spawn(launch_command_view()), Some(Stage::Launching))
        } else {
            (
                WorkflowStepView::Done(failed_result_view(InstallFailure::PartialInstallFailure)),
                None,
            )
        },
        Stage::Launching => (
            WorkflowStepView::Done(success_result_view(!(o is NotStarted))),
            None,
        ),
    }
}

/// One provisioning workflow instance. At most one run is in flight at a
/// time; a request made while one is active is rejected, not interleaved.
#[derive(Debug)]
pub struct Installer {
    stage: Option<Stage>,
}

impl Installer {
    /// The stage the current run is at, if one is in flight.
    pub closed spec fn stage_spec(&self) -> Option<Stage> {
        self.stage
    }

    /// Whether a run is in flight.
    pub open spec fn in_flight(&self) -> bool {
        self.stage_spec() is Some
    }

    /// A fresh installer with no run in flight.
    pub fn new() -> (w: Installer)
        ensures
            !w.in_flight(),
    {
        Installer { stage: None }
    }

    /// Request an unattended installation of a tool. The first step is
    /// handed back; while it asks for a command, the run is in flight and a
    /// concurrent request leaves it untouched.
    pub fn start(&mut self, t: Tool, p: Platform, a: CpuArch) -> (step: WorkflowStep)
        ensures
            step@ == start_step_view(old(self).in_flight(), t, p, a),
            old(self).in_flight() ==> *final(self) == *old(self),
            !old(self).in_flight() && (step@ is Run) ==> final(self).stage_spec() == Some(
                Stage::Downloading,
            ),
            !old(self).in_flight() && (step@ is Done) ==> !final(self).in_flight(),
            !old(self).in_flight() ==> (final(self).in_flight() <==> !(step@ is Done)),
    {
        if self.stage.is_some() {
            WorkflowStep::Done(failed_result(InstallFailure::AlreadyInProgress))
        } else {
            let supported = match p {
                Platform::MacOs => t.auto_installable(),
                _ => false,
            };
            if !supported {
                WorkflowStep::Done(failed_result(InstallFailure::PlatformUnsupported))
            } else {
                self.stage = Some(Stage::Downloading);
                WorkflowStep::Run(download_command(a))
            }
        }
    }

    /// Feed back the outcome of the command the last step asked for, and
    /// receive the next step. The run stays in flight exactly until a
    /// terminal result is handed back.
    pub fn advance(&mut self, outcome: &RunOutcome) -> (step: WorkflowStep)
        requires
            old(self).in_flight(),
        ensures
            step@ == advance_view(old(self).stage_spec().unwrap(), outcome@).0,
            final(self).stage_spec() == advance_view(old(self).stage_spec().unwrap(), outcome@).1,
            final(self).in_flight() <==> !(step@ is Done),
    {
        let stage = self.stage.unwrap();
        match stage {
            Stage::Downloading => {
                if outcome_ok(outcome) {
                    self.stage = Some(Stage::Mounting);
                    WorkflowStep::Run(mount_command())
                } else {
                    self.stage = None;
                    WorkflowStep::Done(failed_result(InstallFailure::NetworkFailure))
                }
            }
            Stage::Mounting => {
                if outcome_ok(outcome) {
                    self.stage = Some(Stage::Installing);
                    WorkflowStep::Run(copy_command())
                } else {
                    self.stage = Some(Stage::Unmounting { install_ok: false });
                    WorkflowStep::Run(unmount_command())
                }
            }
            Stage::Installing => {
                let ok = outcome_ok(outcome);
                self.stage = Some(Stage::Unmounting { install_ok: ok });
                WorkflowStep::Run(unmount_command())
            }
            Stage::Unmounting { install_ok } => {
                self.stage = Some(Stage::RemovingArtifact { install_ok });
                WorkflowStep::Run(remove_artifact_command())
            }
            Stage::RemovingArtifact { install_ok } => {
                if install_ok {
                    self.stage = Some(Stage::Launching);
                    WorkflowStep::Spawn(launch_command())
                } else {
                    self.stage = None;
                    WorkflowStep::Done(failed_result(InstallFailure::PartialInstallFailure))
                }
            }
            Stage::Launching => {
                let launched = match outcome {
                    RunOutcome::NotStarted => false,
                    RunOutcome::Exited { .. } => true,
                };
                self.stage = None;
                WorkflowStep::Done(success_result(launched))
            }
        }
    }
}

/// Build the download command for an architecture.
fn download_command(a: CpuArch) -> (c: CommandLine)
    ensures
        c@ == download_command_view(a),
{
    let mut args: Vec<String> = Vec::new();
    args.push("-L".to_string());
    args.push("-o".to_string());
    args.push("/tmp/Docker.dmg".to_string());
    args.push(download_url(a));
    let c = CommandLine { program: "curl".to_string(), args };
    proof {
        assert(c@ =~~= download_command_view(a));
    }
    c
}

/// Build the mount command.
fn mount_command() -> (c: CommandLine)
    ensures
        c@ == mount_command_view(),
{
    let mut args: Vec<String> = Vec::new();
    args.push("attach".to_string());
    args.push("/tmp/Docker.dmg".to_string());
    args.push("-nobrowse".to_string());
    args.push("-quiet".to_string());
    let c = CommandLine { program: "hdiutil".to_string(), args };
    proof {
        assert(c@ =~~= mount_command_view());
    }
    c
}

/// Build the bundle-copy command.
fn copy_command() -> (c: CommandLine)
    ensures
        c@ == copy_command_view(),
{
    let mut args: Vec<String> = Vec::new();
    args.push("-R".to_string());
    args.push("/Volumes/Docker/Docker.app".to_string());
    args.push("/Applications/".to_string());
    let c = CommandLine { program: "cp".to_string(), args };
    proof {
        assert(c@ =~~= copy_command_view());
    }
    c
}

/// Build the unmount command.
fn unmount_command() -> (c: CommandLine)
    ensures
        c@ == unmount_command_view(),
{
    let mut args: Vec<String> = Vec::new();
    args.push("detach".to_string());
    args.push("/Volumes/Docker".to_string());
    args.push("-quiet".to_string());
    let c = CommandLine { program: "hdiutil".to_string(), args };
    proof {
        assert(c@ =~~= unmount_command_view());
    }
    c
}

/// Build the artifact-removal command.
fn remove_artifact_command() -> (c: CommandLine)
    ensures
        c@ == remove_artifact_command_view(),
{
    let mut args: Vec<String> = Vec::new();
    args.push("-f".to_string());
    args.push("/tmp/Docker.dmg".to_string());
    let c = CommandLine { program: "rm".to_string(), args };
    proof {
        assert(c@ =~~= remove_artifact_command_view());
    }
    c
}

/// Build the detached launch command.
fn launch_command() -> (c: CommandLine)
    ensures
        c@ == launch_command_view(),
{
    let mut args: Vec<String> = Vec::new();
    args.push("-a".to_string());
    args.push("/Applications/Docker.app".to_string());
    let c = CommandLine { program: "open".to_string(), args };
    proof {
        assert(c@ =~~= launch_command_view());
    }
    c
}

/// On a platform where unattended installation is unsupported, or for a
/// tool that cannot be auto-installed, a request is rejected with the
/// unsupported failure before any command is issued: the very first step is
/// already the terminal result.
pub proof fn lemma_unsupported_issues_no_command(t: Tool, p: Platform, a: CpuArch)
    requires
        !tool_can_auto_install(t) || !(p is MacOs),
    ensures
        start_step_view(false, t, p, a) == WorkflowStepView::Done(
            failed_result_view(InstallFailure::PlatformUnsupported),
        ),
{
}

/// A second request while a run is in flight is rejected with the distinct
/// already-in-progress outcome; `start`'s contract adds that the running
/// workflow is left untouched.
pub proof fn lemma_second_request_rejected(t: Tool, p: Platform, a: CpuArch)
    ensures
        start_step_view(true, t, p, a) == WorkflowStepView::Done(
            failed_result_view(InstallFailure::AlreadyInProgress),
        ),
{
}

/// A mount failure still drives both cleanup actions — unmount, then
/// artifact removal — whatever those report, before the run settles into
/// the partial-install failure.
pub proof fn lemma_mount_failure_still_cleans_up(
    mount: RunOutcomeView,
    unmount: RunOutcomeView,
    remove: RunOutcomeView,
)
    requires
        !run_ok(mount),
    ensures
        advance_view(Stage::Mounting, mount) == (
            WorkflowStepView::Run(unmount_command_view()),
            Some(Stage::Unmounting { install_ok: false }),
        ),
        advance_view(Stage::Unmounting { install_ok: false }, unmount) == (
            WorkflowStepView::Run(remove_artifact_command_view()),
            Some(Stage::RemovingArtifact { install_ok: false }),
        ),
        advance_view(Stage::RemovingArtifact { install_ok: false }, remove) == (
            WorkflowStepView::Done(failed_result_view(InstallFailure::PartialInstallFailure)),
            None::<Stage>,
        ),
{
}

/// Cleanup is advisory: the outcomes of the unmount and removal commands
/// never change what the machine does next, so a cleanup failure can never
/// override the failure that triggered the cleanup.
pub proof fn lemma_cleanup_never_overrides(install_ok: bool, o1: RunOutcomeView, o2: RunOutcomeView)
    ensures
        advance_view(Stage::Unmounting { install_ok }, o1) == advance_view(
            Stage::Unmounting { install_ok },
            o2,
        ),
        advance_view(Stage::RemovingArtifact { install_ok }, o1) == advance_view(
            Stage::RemovingArtifact { install_ok },
            o2,
        ),
{
}

} // verus!
