use envcheck::command::{CommandLine, RunOutcome};
use envcheck::platform::{CpuArch, Platform, Tool};
use envcheck::workflow::{Installer, WorkflowStep};

fn ok() -> RunOutcome {
    RunOutcome::Exited { ok: true, stdout: Vec::new(), stderr: Vec::new() }
}

fn failed() -> RunOutcome {
    RunOutcome::Exited { ok: false, stdout: Vec::new(), stderr: b"error\n".to_vec() }
}

fn expect_run(step: WorkflowStep) -> CommandLine {
    match step {
        WorkflowStep::Run(c) => c,
        other => panic!("expected a command to run, got {:?}", other),
    }
}

#[test]
fn unsupported_platform_fails_without_any_command() {
    let mut commands_issued: usize = 0;
    for p in [Platform::Windows, Platform::Linux] {
        let mut w = Installer::new();
        let step = w.start(Tool::Docker, p, CpuArch::Amd64);
        match step {
            WorkflowStep::Done(r) => {
                assert!(!r.success);
                assert_eq!(r.message, "Automatic installation is only supported on macOS");
            }
            WorkflowStep::Run(_) | WorkflowStep::Spawn(_) => commands_issued += 1,
        }
    }
    assert_eq!(commands_issued, 0);
}

#[test]
fn tool_that_cannot_auto_install_fails_without_any_command() {
    for t in [Tool::DockerCompose, Tool::Git] {
        let mut w = Installer::new();
        match w.start(t, Platform::MacOs, CpuArch::Arm64) {
            WorkflowStep::Done(r) => {
                assert!(!r.success);
                assert_eq!(r.message, "Automatic installation is only supported on macOS");
            }
            other => panic!("expected an immediate rejection, got {:?}", other),
        }
    }
}

#[test]
fn download_failure_fails_fast_without_cleanup() {
    let mut w = Installer::new();
    let c = expect_run(w.start(Tool::Docker, Platform::MacOs, CpuArch::Amd64));
    assert_eq!(c.program, "curl");
    assert_eq!(
        c.args,
        vec![
            "-L".to_string(),
            "-o".to_string(),
            "/tmp/Docker.dmg".to_string(),
            "https://desktop.docker.com/mac/main/amd64/Docker.dmg".to_string(),
        ]
    );
    match w.advance(&failed()) {
        WorkflowStep::Done(r) => {
            assert!(!r.success);
            assert_eq!(r.message, "Download failed, please check your network connection");
        }
        other => panic!("expected the run to end, got {:?}", other),
    }
    // The single-flight slot was released: a fresh request is accepted.
    let again = w.start(Tool::Docker, Platform::MacOs, CpuArch::Amd64);
    assert!(matches!(again, WorkflowStep::Run(_)));
}

#[test]
fn mount_failure_still_runs_both_cleanup_commands() {
    let mut w = Installer::new();
    let c = expect_run(w.start(Tool::Docker, Platform::MacOs, CpuArch::Arm64));
    assert_eq!(c.args[3], "https://desktop.docker.com/mac/main/arm64/Docker.dmg");
    let c = expect_run(w.advance(&ok()));
    assert_eq!(c.program, "hdiutil");
    assert_eq!(c.args[0], "attach");
    // The mount fails: cleanup must still be attempted, unmount then delete.
    let c = expect_run(w.advance(&failed()));
    assert_eq!(c.program, "hdiutil");
    assert_eq!(c.args, vec!["detach".to_string(), "/Volumes/Docker".to_string(), "-quiet".to_string()]);
    let c = expect_run(w.advance(&ok()));
    assert_eq!(c.program, "rm");
    assert_eq!(c.args, vec!["-f".to_string(), "/tmp/Docker.dmg".to_string()]);
    match w.advance(&ok()) {
        WorkflowStep::Done(r) => {
            assert!(!r.success);
            assert_eq!(r.message, "Installation failed");
        }
        other => panic!("expected the run to end, got {:?}", other),
    }
}

#[test]
fn cleanup_failures_never_override_the_install_failure() {
    let mut w = Installer::new();
    expect_run(w.start(Tool::Docker, Platform::MacOs, CpuArch::Amd64));
    expect_run(w.advance(&ok())); // downloaded; mount next
    expect_run(w.advance(&ok())); // mounted; copy next
    expect_run(w.advance(&failed())); // copy failed; unmount next
    expect_run(w.advance(&failed())); // unmount failed too; delete still attempted
    match w.advance(&failed()) {
        WorkflowStep::Done(r) => {
            assert!(!r.success);
            assert_eq!(r.message, "Installation failed");
        }
        other => panic!("expected the run to end, got {:?}", other),
    }
}

#[test]
fn successful_run_cleans_up_and_launches() {
    let mut w = Installer::new();
    expect_run(w.start(Tool::Docker, Platform::MacOs, CpuArch::Arm64));
    let c = expect_run(w.advance(&ok())); // mount
    assert_eq!(c.args[0], "attach");
    let c = expect_run(w.advance(&ok())); // copy
    assert_eq!(c.program, "cp");
    assert_eq!(c.args[1], "/Volumes/Docker/Docker.app");
    let c = expect_run(w.advance(&ok())); // unmount
    assert_eq!(c.args[0], "detach");
    let c = expect_run(w.advance(&ok())); // remove artifact
    assert_eq!(c.program, "rm");
    let c = match w.advance(&ok()) {
        WorkflowStep::Spawn(c) => c,
        other => panic!("expected a detached launch, got {:?}", other),
    };
    assert_eq!(c.program, "open");
    assert_eq!(c.args, vec!["-a".to_string(), "/Applications/Docker.app".to_string()]);
    match w.advance(&ok()) {
        WorkflowStep::Done(r) => {
            assert!(r.success);
            assert_eq!(r.message, "Docker was installed successfully and is starting");
        }
        other => panic!("expected the run to end, got {:?}", other),
    }
}

#[test]
fn launch_failure_does_not_downgrade_success() {
    let mut w = Installer::new();
    expect_run(w.start(Tool::Docker, Platform::MacOs, CpuArch::Amd64));
    expect_run(w.advance(&ok())); // mount
    expect_run(w.advance(&ok())); // copy
    expect_run(w.advance(&ok())); // unmount
    expect_run(w.advance(&ok())); // remove artifact
    match w.advance(&ok()) {
        WorkflowStep::Spawn(_) => {}
        other => panic!("expected a detached launch, got {:?}", other),
    }
    match w.advance(&RunOutcome::NotStarted) {
        WorkflowStep::Done(r) => {
            assert!(r.success);
            assert_eq!(
                r.message,
                "Docker was installed successfully, but could not be launched automatically"
            );
        }
        other => panic!("expected the run to end, got {:?}", other),
    }
}

#[test]
fn second_request_while_in_flight_is_rejected_and_leaves_the_run_intact() {
    let mut w = Installer::new();
    expect_run(w.start(Tool::Docker, Platform::MacOs, CpuArch::Amd64));
    // A concurrent request is rejected with the distinct outcome.
    match w.start(Tool::Docker, Platform::MacOs, CpuArch::Amd64) {
        WorkflowStep::Done(r) => {
            assert!(!r.success);
            assert_eq!(r.message, "An installation is already in progress");
        }
        other => panic!("expected a rejection, got {:?}", other),
    }
    // The first run continues where it was: the download outcome is next.
    let c = expect_run(w.advance(&ok()));
    assert_eq!(c.program, "hdiutil");
    assert_eq!(c.args[0], "attach");
}
