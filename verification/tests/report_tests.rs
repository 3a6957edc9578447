use envcheck::command::RunOutcome;
use envcheck::platform::{install_guide, Platform, Tool};
use envcheck::probe::{evaluate_probe, needs_fallback, probe_plan};
use envcheck::report::{check_all_requirements, check_docker, check_docker_compose};
use envcheck::text::version_text;

fn ok_with(stdout: &str) -> RunOutcome {
    RunOutcome::Exited { ok: true, stdout: stdout.as_bytes().to_vec(), stderr: Vec::new() }
}

fn failed() -> RunOutcome {
    RunOutcome::Exited { ok: false, stdout: Vec::new(), stderr: b"not found\n".to_vec() }
}

#[test]
fn report_has_three_checks_in_fixed_order() {
    let r = check_all_requirements(
        Platform::MacOs,
        &ok_with("Docker version 24.0.5\n"),
        &ok_with("Docker Compose version v2.20.2\n"),
        &None,
        &ok_with("git version 2.42.0\n"),
    );
    assert_eq!(r.platform, "macos");
    assert_eq!(r.checks.len(), 3);
    assert_eq!(r.checks[0].name, "Docker");
    assert_eq!(r.checks[1].name, "Docker Compose");
    assert_eq!(r.checks[2].name, "Git");
    assert!(r.checks[0].required);
    assert!(r.checks[1].required);
    assert!(!r.checks[2].required);
    assert!(r.checks[0].can_auto_install);
    assert!(!r.checks[1].can_auto_install);
    assert!(!r.checks[2].can_auto_install);
}

#[test]
fn all_ready_is_conjunction_over_required_checks() {
    // Git is optional: its absence does not block readiness.
    let r = check_all_requirements(
        Platform::MacOs,
        &ok_with("Docker version 24.0.5\n"),
        &ok_with("Docker Compose version v2.20.2\n"),
        &None,
        &RunOutcome::NotStarted,
    );
    assert!(r.all_ready);
    assert!(!r.checks[2].installed);

    // A missing required tool blocks readiness.
    let r = check_all_requirements(
        Platform::MacOs,
        &RunOutcome::NotStarted,
        &ok_with("Docker Compose version v2.20.2\n"),
        &None,
        &ok_with("git version 2.42.0\n"),
    );
    assert!(!r.all_ready);

    let r = check_all_requirements(
        Platform::MacOs,
        &ok_with("Docker version 24.0.5\n"),
        &failed(),
        &Some(failed()),
        &ok_with("git version 2.42.0\n"),
    );
    assert!(!r.all_ready);
}

#[test]
fn version_is_trimmed_output_and_present_iff_installed() {
    let c = check_docker(Platform::Linux, &ok_with("  Docker version 24.0.5, build ced0996\n"));
    assert!(c.installed);
    assert_eq!(c.version.as_deref(), Some("Docker version 24.0.5, build ced0996"));

    let c = check_docker(Platform::Linux, &failed());
    assert!(!c.installed);
    assert_eq!(c.version, None);
}

#[test]
fn compose_fallback_is_consulted_only_after_primary_fails() {
    let plan = probe_plan(Tool::DockerCompose);
    assert_eq!(plan.primary.program, "docker");
    assert_eq!(plan.primary.args, vec!["compose".to_string(), "version".to_string()]);
    let fb = plan.fallback.as_ref().expect("compose has a legacy fallback form");
    assert_eq!(fb.program, "docker-compose");
    assert_eq!(fb.args, vec!["--version".to_string()]);

    // Primary succeeded: no fallback run is asked for.
    assert!(!needs_fallback(&plan, &ok_with("Docker Compose version v2.20.2\n")));
    // Primary failed: the fallback must be attempted.
    assert!(needs_fallback(&plan, &failed()));
    assert!(needs_fallback(&plan, &RunOutcome::NotStarted));
    // Tools without a fallback never ask for one.
    assert!(!needs_fallback(&probe_plan(Tool::Docker), &failed()));
}

#[test]
fn compose_fallback_success_reports_installed_with_its_version() {
    let c = check_docker_compose(
        Platform::MacOs,
        &failed(),
        &Some(ok_with("docker-compose version 1.29.2\n")),
    );
    assert!(c.installed);
    assert_eq!(c.version.as_deref(), Some("docker-compose version 1.29.2"));
}

#[test]
fn compose_both_forms_failing_reports_not_installed_without_version() {
    let c = check_docker_compose(Platform::MacOs, &RunOutcome::NotStarted, &Some(failed()));
    assert!(!c.installed);
    assert_eq!(c.version, None);
}

#[test]
fn every_install_guide_is_non_empty() {
    let tools = [Tool::Docker, Tool::DockerCompose, Tool::Git];
    let platforms = [Platform::MacOs, Platform::Windows, Platform::Linux];
    for t in tools {
        for p in platforms {
            assert!(!install_guide(t, p).is_empty());
        }
    }
    let c = check_docker(Platform::Windows, &failed());
    assert!(!c.install_guide.is_empty());
}

#[test]
fn repeated_checks_with_unchanged_environment_are_identical() {
    let report = |()| {
        check_all_requirements(
            Platform::MacOs,
            &ok_with("Docker version 24.0.5\n"),
            &failed(),
            &Some(ok_with("docker-compose version 1.29.2\n")),
            &RunOutcome::NotStarted,
        )
    };
    let r1 = report(());
    let r2 = report(());
    assert_eq!(r1, r2);
}

#[test]
fn probe_spawn_failure_is_a_data_outcome_not_an_error() {
    let signal = evaluate_probe(&RunOutcome::NotStarted, &None);
    assert!(!signal.installed);
    assert_eq!(signal.version, None);
}

#[test]
fn invalid_output_bytes_are_replaced_not_fatal() {
    let mut bytes = vec![0xff, 0xfe];
    bytes.extend_from_slice(b"v1\n");
    let v = version_text(&bytes);
    assert_eq!(v, "\u{FFFD}\u{FFFD}v1");
}

#[test]
fn version_text_trims_surrounding_whitespace() {
    let v = version_text(&b"  git version 2.42.0 \t\n".to_vec());
    assert_eq!(v, "git version 2.42.0");
}
