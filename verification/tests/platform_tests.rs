use envcheck::platform::{download_url, install_url, CpuArch, Platform, Tool};
use envcheck::probe::probe_plan;

#[test]
fn os_names_map_to_platforms_with_linux_fallback() {
    assert_eq!(Platform::from_os_name(&"macos".to_string()), Platform::MacOs);
    assert_eq!(Platform::from_os_name(&"windows".to_string()), Platform::Windows);
    assert_eq!(Platform::from_os_name(&"linux".to_string()), Platform::Linux);
    assert_eq!(Platform::from_os_name(&"freebsd".to_string()), Platform::Linux);
    assert_eq!(Platform::MacOs.name(), "macos");
    assert_eq!(Platform::Windows.name(), "windows");
    assert_eq!(Platform::Linux.name(), "linux");
}

#[test]
fn arch_names_map_with_amd64_fallback() {
    assert_eq!(CpuArch::from_os_name(&"aarch64".to_string()), CpuArch::Arm64);
    assert_eq!(CpuArch::from_os_name(&"arm64".to_string()), CpuArch::Arm64);
    assert_eq!(CpuArch::from_os_name(&"x86_64".to_string()), CpuArch::Amd64);
}

#[test]
fn install_urls_depend_on_tool_and_platform() {
    assert_eq!(
        install_url(Tool::Docker, Platform::MacOs),
        "https://docs.docker.com/desktop/install/mac-install/"
    );
    assert_eq!(
        install_url(Tool::Docker, Platform::Windows),
        "https://www.docker.com/products/docker-desktop"
    );
    assert_eq!(
        install_url(Tool::DockerCompose, Platform::MacOs),
        "https://docs.docker.com/desktop/install/mac-install/"
    );
    assert_eq!(install_url(Tool::Git, Platform::MacOs), "https://git-scm.com/download/mac");
    assert_eq!(install_url(Tool::Git, Platform::Linux), "https://git-scm.com/download/win");
}

#[test]
fn download_artifact_matches_the_architecture() {
    assert_eq!(
        download_url(CpuArch::Arm64),
        "https://desktop.docker.com/mac/main/arm64/Docker.dmg"
    );
    assert_eq!(
        download_url(CpuArch::Amd64),
        "https://desktop.docker.com/mac/main/amd64/Docker.dmg"
    );
}

#[test]
fn probe_commands_ask_each_tool_for_its_version() {
    let docker = probe_plan(Tool::Docker);
    assert_eq!(docker.primary.program, "docker");
    assert_eq!(docker.primary.args, vec!["--version".to_string()]);
    assert!(docker.fallback.is_none());

    let git = probe_plan(Tool::Git);
    assert_eq!(git.primary.program, "git");
    assert_eq!(git.primary.args, vec!["--version".to_string()]);
    assert!(git.fallback.is_none());
}
