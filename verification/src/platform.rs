use vstd::prelude::*;

verus! {

/// The operating systems the companion distinguishes. Everything that is
/// neither macOS nor Windows is treated as Linux.
#[derive(Clone, Copy, Debug, PartialEq, Eq, Structural)]
pub enum Platform {
    MacOs,
    Windows,
    Linux,
}

/// The CPU architectures that matter for picking a download artifact.
#[derive(Clone, Copy, Debug, PartialEq, Eq, Structural)]
pub enum CpuArch {
    Arm64,
    Amd64,
}

/// The developer tools whose presence the companion checks, in the fixed
/// order they are reported in.
#[derive(Clone, Copy, Debug, PartialEq, Eq, Structural)]
pub enum Tool {
    Docker,
    DockerCompose,
    Git,
}

/// The platform an operating-system name denotes; unknown names fall back
/// to Linux.
pub open spec fn platform_of_name(s: Seq<char>) -> Platform {
    if s == "macos"@ {
        Platform::MacOs
    } else if s == "windows"@ {
        Platform::Windows
    } else {
        Platform::Linux
    }
}

/// The architecture an architecture name denotes; unknown names fall back
/// to Amd64.
pub open spec fn arch_of_name(s: Seq<char>) -> CpuArch {
    if s == "aarch64"@ || s == "arm64"@ {
        CpuArch::Arm64
    } else {
        CpuArch::Amd64
    }
}

/// The identifier reported for a platform.
pub open spec fn platform_name_view(p: Platform) -> Seq<char> {
    match p {
        Platform::MacOs => "macos"@,
        Platform::Windows => "windows"@,
        Platform::Linux => "linux"@,
    }
}

/// Whether the tool must be present for the system to count as ready.
pub open spec fn tool_required(t: Tool) -> bool {
    match t {
        Tool::Docker => true,
        Tool::DockerCompose => true,
        Tool::Git => false,
    }
}

/// Whether the companion can install the tool unattended. Only the container
/// runtime can; its compose extension ships with it, and the version-control
/// client is left to the user.
pub open spec fn tool_can_auto_install(t: Tool) -> bool {
    t is Docker
}

/// The display name of a tool.
pub open spec fn tool_name_view(t: Tool) -> Seq<char> {
    match t {
        Tool::Docker => "Docker"@,
        Tool::DockerCompose => "Docker Compose"@,
        Tool::Git => "Git"@,
    }
}

/// The download page pointed to when a tool is missing.
pub open spec fn install_url_view(t: Tool, p: Platform) -> Seq<char> {
    match t {
        Tool::Docker | Tool::DockerCompose => if p is MacOs {
            "https://docs.docker.com/desktop/install/mac-install/"@
        } else {
            "https://www.docker.com/products/docker-desktop"@
        },
        Tool::Git => if p is MacOs {
            "https://git-scm.com/download/mac"@
        } else {
            "https://git-scm.com/download/win"@
        },
    }
}

/// The manual installation instructions shown for a tool; never empty.
pub open spec fn install_guide_view(t: Tool, p: Platform) -> Seq<Seq<char>> {
    match t {
        Tool::Docker => if p is MacOs {
            seq![
                "1. Download Docker Desktop for Mac"@,
                "2. Open the .dmg file"@,
                "3. Drag Docker into the Applications folder"@,
                "4. Launch Docker Desktop and wait for it to initialize"@,
            ]
        } else {
            seq![
                "1. Download Docker Desktop for Windows"@,
                "2. Run the installer"@,
                "3. Follow the prompts to finish the installation"@,
                "4. Launch Docker Desktop"@,
            ]
        },
        Tool::DockerCompose => seq![
            "Docker Compose is installed together with Docker Desktop"@,
            "Install Docker Desktop first"@,
        ],
        Tool::Git => if p is MacOs {
            seq![
                "Option 1: brew install git"@,
                "Option 2: download the installer from the official site"@,
            ]
        } else {
            seq![
                "1. Download the installer from the official site"@,
                "2. Run the installer"@,
            ]
        },
    }
}

/// The platform- and architecture-specific package artifact fetched when the
/// container runtime is installed unattended.
pub open spec fn download_url_view(a: CpuArch) -> Seq<char> {
    match a {
        CpuArch::Arm64 => "https://desktop.docker.com/mac/main/arm64/Docker.dmg"@,
        CpuArch::Amd64 => "https://desktop.docker.com/mac/main/amd64/Docker.dmg"@,
    }
}

impl Platform {
    /// Classify an operating-system name such as `"macos"`.
    pub fn from_os_name(name: &String) -> (p: Platform)
        ensures
            p == platform_of_name(name@),
    {
        let mac = "macos".to_string();
        let win = "windows".to_string();
        if *name == mac {
            Platform::MacOs
        } else if *name == win {
            Platform::Windows
        } else {
            Platform::Linux
        }
    }

    /// The identifier this platform is reported as.
    pub fn name(self) -> (r: String)
        ensures
            r@ == platform_name_view(self),
    {
        match self {
            Platform::MacOs => "macos".to_string(),
            Platform::Windows => "windows".to_string(),
            Platform::Linux => "linux".to_string(),
        }
    }
}

impl CpuArch {
    /// Classify an architecture name such as `"aarch64"`.
    pub fn from_os_name(name: &String) -> (a: CpuArch)
        ensures
            a == arch_of_name(name@),
    {
        let a64 = "aarch64".to_string();
        let arm = "arm64".to_string();
        if *name == a64 || *name == arm {
            CpuArch::Arm64
        } else {
            CpuArch::Amd64
        }
    }
}

impl Tool {
    /// The tool's display name.
    pub fn name(self) -> (r: String)
        ensures
            r@ == tool_name_view(self),
    {
        match self {
            Tool::Docker => "Docker".to_string(),
            Tool::DockerCompose => "Docker Compose".to_string(),
            Tool::Git => "Git".to_string(),
        }
    }

    /// Whether the tool is required for readiness.
    pub fn is_required(self) -> (b: bool)
        ensures
            b == tool_required(self),
    {
        match self {
            Tool::Docker => true,
            Tool::DockerCompose => true,
            Tool::Git => false,
        }
    }

    /// Whether the tool can be installed unattended.
    pub fn auto_installable(self) -> (b: bool)
        ensures
            b == tool_can_auto_install(self),
    {
        match self {
            Tool::Docker => true,
            Tool::DockerCompose => false,
            Tool::Git => false,
        }
    }
}

/// The download page for a missing tool on the given platform.
pub fn install_url(t: Tool, p: Platform) -> (r: String)
    ensures
        r@ == install_url_view(t, p),
{
    match t {
        Tool::Docker | Tool::DockerCompose => match p {
            Platform::MacOs => "https://docs.docker.com/desktop/install/mac-install/".to_string(),
            _ => "https://www.docker.com/products/docker-desktop".to_string(),
        },
        Tool::Git => match p {
            Platform::MacOs => "https://git-scm.com/download/mac".to_string(),
            _ => "https://git-scm.com/download/win".to_string(),
        },
    }
}

/// The manual installation instructions for a tool on the given platform.
pub fn install_guide(t: Tool, p: Platform) -> (r: Vec<String>)
    ensures
        r.deep_view() == install_guide_view(t, p),
        r.deep_view().len() > 0,
{
    let mut g: Vec<String> = Vec::new();
    match t {
        Tool::Docker => match p {
            Platform::MacOs => {
                g.push("1. Download Docker Desktop for Mac".to_string());
                g.push("2. Open the .dmg file".to_string());
                g.push("3. Drag Docker into the Applications folder".to_string());
                g.push("4. Launch Docker Desktop and wait for it to initialize".to_string());
            }
            _ => {
                g.push("1. Download Docker Desktop for Windows".to_string());
                g.push("2. Run the installer".to_string());
                g.push("3. Follow the prompts to finish the installation".to_string());
                g.push("4. Launch Docker Desktop".to_string());
            }
        },
        Tool::DockerCompose => {
            g.push("Docker Compose is installed together with Docker Desktop".to_string());
            g.push("Install Docker Desktop first".to_string());
        }
        Tool::Git => match p {
            Platform::MacOs => {
                g.push("Option 1: brew install git".to_string());
                g.push("Option 2: download the installer from the official site".to_string());
            }
            _ => {
                g.push("1. Download the installer from the official site".to_string());
                g.push("2. Run the installer".to_string());
            }
        },
    }
    proof {
        assert(g.deep_view() =~= install_guide_view(t, p));
    }
    g
}

/// The package artifact URL for unattended installation of the container
/// runtime on the given architecture.
pub fn download_url(a: CpuArch) -> (r: String)
    ensures
        r@ == download_url_view(a),
{
    match a {
        CpuArch::Arm64 => "https://desktop.docker.com/mac/main/arm64/Docker.dmg".to_string(),
        CpuArch::Amd64 => "https://desktop.docker.com/mac/main/amd64/Docker.dmg".to_string(),
    }
}

} // verus!
