//! Install orchestration: pure planning over injected platform facts.
//!
//! The orchestrator never launches a process itself. The embedding
//! binary runs the detection probes, hands their results in as a
//! [`Probes`] value, receives back a plan — per requested tool either
//! `AlreadyPresent` or the ordered platform-specific steps — executes
//! the `RunCommand` steps, prints the `PrintGuidance` steps, and
//! reports each step's outcome. Planning is therefore verified for
//! every combination of platform and probe results.

use vstd::prelude::*;
use vstd::string::*;

verus! {

/// The operating system an install request targets.
#[derive(Debug, Clone, Copy, PartialEq, Eq, Structural)]
pub enum PlatformId {
    Windows,
    Linux,
    Macos,
}

/// A Linux distribution family, identified by its package manager.
#[derive(Debug, Clone, Copy, PartialEq, Eq, Structural)]
pub enum LinuxDistro {
    Apt,
    Dnf,
    Pacman,
}

/// Results of the detection probes: for each probed command, whether
/// running its version query succeeded. A probe error is reported as
/// `false` — "not installed" — never as a failure of the orchestrator.
#[derive(Debug, Clone, Copy, PartialEq, Eq, Structural)]
pub struct Probes {
    pub apt: bool,
    pub dnf: bool,
    pub pacman: bool,
    pub brew: bool,
    pub gcc: bool,
    pub rustc: bool,
    pub cmake: bool,
    pub git: bool,
    pub ninja: bool,
    pub python3: bool,
}

/// One install step: either a command to launch, or guidance text to
/// print for actions that require manual intervention.
#[derive(Debug, Clone, PartialEq)]
pub enum InstallStep {
    RunCommand { program: String, args: Vec<String> },
    PrintGuidance { text: String },
}

/// Mathematical model of an install step.
pub ghost enum StepModel {
    Run { program: Seq<char>, args: Seq<Seq<char>> },
    Guidance { text: Seq<char> },
}

impl View for InstallStep {
    type V = StepModel;

    open spec fn view(&self) -> StepModel {
        match self {
            InstallStep::RunCommand { program, args } => StepModel::Run {
                program: program@,
                args: args@.map_values(|a: String| a@),
            },
            InstallStep::PrintGuidance { text } => StepModel::Guidance { text: text@ },
        }
    }
}

/// The models of a sequence of steps.
pub open spec fn steps_view(s: Seq<InstallStep>) -> Seq<StepModel> {
    s.map_values(|st: InstallStep| st@)
}

fn guidance(text: &str) -> (r: InstallStep)
    ensures
        r@ == (StepModel::Guidance { text: text@ }),
{
    InstallStep::PrintGuidance { text: text.to_owned() }
}

fn run2(program: &str, a0: &str, a1: &str) -> (r: InstallStep)
    ensures
        r@ == (StepModel::Run { program: program@, args: seq![a0@, a1@] }),
{
    let args = vec![a0.to_owned(), a1.to_owned()];
    proof {
        assert(args@.map_values(|a: String| a@) =~= seq![a0@, a1@]);
    }
    InstallStep::RunCommand { program: program.to_owned(), args }
}

fn run3(program: &str, a0: &str, a1: &str, a2: &str) -> (r: InstallStep)
    ensures
        r@ == (StepModel::Run { program: program@, args: seq![a0@, a1@, a2@] }),
{
    let args = vec![a0.to_owned(), a1.to_owned(), a2.to_owned()];
    proof {
        assert(args@.map_values(|a: String| a@) =~= seq![a0@, a1@, a2@]);
    }
    InstallStep::RunCommand { program: program.to_owned(), args }
}

fn run4(program: &str, a0: &str, a1: &str, a2: &str, a3: &str) -> (r: InstallStep)
    ensures
        r@ == (StepModel::Run { program: program@, args: seq![a0@, a1@, a2@, a3@] }),
{
    let args = vec![a0.to_owned(), a1.to_owned(), a2.to_owned(), a3.to_owned()];
    proof {
        assert(args@.map_values(|a: String| a@) =~= seq![a0@, a1@, a2@, a3@]);
    }
    InstallStep::RunCommand { program: program.to_owned(), args }
}

/// Linux distribution sub-detection: first match wins, in the fixed
/// priority order apt, dnf, pacman; `None` when none of them answered.
pub open spec fn spec_select_distro(pr: Probes) -> Option<LinuxDistro> {
    if pr.apt {
        Some(LinuxDistro::Apt)
    } else if pr.dnf {
        Some(LinuxDistro::Dnf)
    } else if pr.pacman {
        Some(LinuxDistro::Pacman)
    } else {
        None
    }
}

/// Pick the package manager to use on Linux.
pub fn select_linux_distro(pr: &Probes) -> (r: Option<LinuxDistro>)
    ensures
        r == spec_select_distro(*pr),
{
    if pr.apt {
        Some(LinuxDistro::Apt)
    } else if pr.dnf {
        Some(LinuxDistro::Dnf)
    } else if pr.pacman {
        Some(LinuxDistro::Pacman)
    } else {
        None
    }
}

/// Distro priority: whenever the apt probe succeeds, apt is selected,
/// whatever the dnf and pacman probes said — so the apt-based action
/// group is chosen even when pacman (or dnf) also answered.
pub proof fn lemma_distro_priority(pr: Probes)
    requires
        pr.apt,
    ensures
        spec_select_distro(pr) == Some(LinuxDistro::Apt),
        spec_select_distro(pr) == spec_select_distro(
            (Probes { dnf: false, pacman: false, ..pr }),
        ),
{
}

/// Action group for the C/C++ toolchain.
pub open spec fn c_steps(platform: PlatformId, pr: Probes) -> Seq<StepModel> {
    match platform {
        PlatformId::Windows => seq![
            StepModel::Guidance {
                text: "For Windows, please install one of the following:\n  1. Visual Studio Build Tools\n  2. MinGW-w64 (recommended for lightweight installation)\n  3. MSYS2 with GCC\nRecommended installation command (using winget):\n  winget install -e --id MSYS2.MSYS2\nAfter installing MSYS2, run:\n  pacman -S mingw-w64-x86_64-gcc mingw-w64-x86_64-cmake mingw-w64-x86_64-make"@,
            },
        ],
        PlatformId::Linux => match spec_select_distro(pr) {
            Some(LinuxDistro::Apt) => seq![
                StepModel::Guidance {
                    text: "Ubuntu/Debian detected. Run:\n  sudo apt update\n  sudo apt install build-essential cmake git"@,
                },
            ],
            Some(LinuxDistro::Dnf) => seq![
                StepModel::Guidance {
                    text: "Fedora/RHEL detected. Run:\n  sudo dnf groupinstall 'Development Tools'\n  sudo dnf install cmake git"@,
                },
            ],
            Some(LinuxDistro::Pacman) => seq![
                StepModel::Guidance {
                    text: "Arch Linux detected. Run:\n  sudo pacman -S base-devel cmake git"@,
                },
            ],
            None => seq![
                StepModel::Guidance {
                    text: "No supported package manager found (looked for apt, dnf, pacman)."@,
                },
            ],
        },
        PlatformId::Macos => if pr.brew {
            seq![StepModel::Run { program: "brew"@, args: seq!["install"@, "gcc"@, "cmake"@] }]
        } else {
            seq![
                StepModel::Guidance {
                    text: "Please install Homebrew first:\n  /bin/bash -c \"$(curl -fsSL https://raw.githubusercontent.com/Homebrew/install/HEAD/install.sh)\"\nThen run: towa install c"@,
                },
            ]
        },
    }
}

/// Plan the C/C++ toolchain installation for one platform.
pub fn install_c_toolchain(platform: PlatformId, probes: &Probes) -> (r: Vec<InstallStep>)
    ensures
        steps_view(r@) == c_steps(platform, *probes),
{
    let mut steps: Vec<InstallStep> = Vec::new();
    match platform {
        PlatformId::Windows => {
            steps.push(
                guidance(
                    "For Windows, please install one of the following:\n  1. Visual Studio Build Tools\n  2. MinGW-w64 (recommended for lightweight installation)\n  3. MSYS2 with GCC\nRecommended installation command (using winget):\n  winget install -e --id MSYS2.MSYS2\nAfter installing MSYS2, run:\n  pacman -S mingw-w64-x86_64-gcc mingw-w64-x86_64-cmake mingw-w64-x86_64-make",
                ),
            );
        },
        PlatformId::Linux => {
            match select_linux_distro(probes) {
                Some(LinuxDistro::Apt) => {
                    steps.push(
                        guidance(
                            "Ubuntu/Debian detected. Run:\n  sudo apt update\n  sudo apt install build-essential cmake git",
                        ),
                    );
                },
                Some(LinuxDistro::Dnf) => {
                    steps.push(
                        guidance(
                            "Fedora/RHEL detected. Run:\n  sudo dnf groupinstall 'Development Tools'\n  sudo dnf install cmake git",
                        ),
                    );
                },
                Some(LinuxDistro::Pacman) => {
                    steps.push(
                        guidance("Arch Linux detected. Run:\n  sudo pacman -S base-devel cmake git"),
                    );
                },
                None => {
                    steps.push(
                        guidance("No supported package manager found (looked for apt, dnf, pacman)."),
                    );
                },
            }
        },
        PlatformId::Macos => {
            if probes.brew {
                steps.push(run3("brew", "install", "gcc", "cmake"));
            } else {
                steps.push(
                    guidance(
                        "Please install Homebrew first:\n  /bin/bash -c \"$(curl -fsSL https://raw.githubusercontent.com/Homebrew/install/HEAD/install.sh)\"\nThen run: towa install c",
                    ),
                );
            }
        },
    }
    proof {
        assert(steps_view(steps@) =~= c_steps(platform, *probes));
    }
    steps
}

/// Action group for the Rust toolchain.
pub open spec fn rust_steps(platform: PlatformId) -> Seq<StepModel> {
    match platform {
        PlatformId::Windows => seq![
            StepModel::Guidance {
                text: "Please download and run rustup-init.exe from:\n  https://rustup.rs/\nOr use winget:\n  winget install -e --id Rustlang.Rustup"@,
            },
        ],
        _ => seq![
            StepModel::Run {
                program: "sh"@,
                args: seq![
                    "-c"@,
                    "curl --proto '=https' --tlsv1.2 -sSf https://sh.rustup.rs | sh -s -- -y"@,
                ],
            },
            StepModel::Guidance {
                text: "Please restart your terminal or run:\n  source $HOME/.cargo/env"@,
            },
        ],
    }
}

/// Plan the Rust toolchain installation for one platform.
pub fn install_rust_toolchain(platform: PlatformId) -> (r: Vec<InstallStep>)
    ensures
        steps_view(r@) == rust_steps(platform),
{
    let mut steps: Vec<InstallStep> = Vec::new();
    match platform {
        PlatformId::Windows => {
            steps.push(
                guidance(
                    "Please download and run rustup-init.exe from:\n  https://rustup.rs/\nOr use winget:\n  winget install -e --id Rustlang.Rustup",
                ),
            );
        },
        _ => {
            steps.push(
                run2(
                    "sh",
                    "-c",
                    "curl --proto '=https' --tlsv1.2 -sSf https://sh.rustup.rs | sh -s -- -y",
                ),
            );
            steps.push(guidance("Please restart your terminal or run:\n  source $HOME/.cargo/env"));
        },
    }
    proof {
        assert(steps_view(steps@) =~= rust_steps(platform));
    }
    steps
}

/// Action group for the general build tools (CMake, Git).
pub open spec fn build_tools_steps(platform: PlatformId, pr: Probes) -> Seq<StepModel> {
    match platform {
        PlatformId::Windows => (if !pr.cmake {
            seq![
                StepModel::Run {
                    program: "winget"@,
                    args: seq!["install"@, "-e"@, "--id"@, "Kitware.CMake"@],
                },
            ]
        } else {
            Seq::<StepModel>::empty()
        }) + (if !pr.git {
            seq![
                StepModel::Run {
                    program: "winget"@,
                    args: seq!["install"@, "-e"@, "--id"@, "Git.Git"@],
                },
            ]
        } else {
            Seq::<StepModel>::empty()
        }),
        PlatformId::Linux => seq![
            StepModel::Guidance {
                text: "Build tools installation is included in C toolchain installation.\nRun: towa install c"@,
            },
        ],
        PlatformId::Macos => if pr.brew {
            seq![StepModel::Run { program: "brew"@, args: seq!["install"@, "cmake"@, "git"@] }]
        } else {
            Seq::<StepModel>::empty()
        },
    }
}

/// Plan the build-tools installation for one platform.
pub fn install_build_tools(platform: PlatformId, probes: &Probes) -> (r: Vec<InstallStep>)
    ensures
        steps_view(r@) == build_tools_steps(platform, *probes),
{
    let mut steps: Vec<InstallStep> = Vec::new();
    match platform {
        PlatformId::Windows => {
            if !probes.cmake {
                steps.push(run4("winget", "install", "-e", "--id", "Kitware.CMake"));
            }
            if !probes.git {
                steps.push(run4("winget", "install", "-e", "--id", "Git.Git"));
            }
        },
        PlatformId::Linux => {
            steps.push(
                guidance(
                    "Build tools installation is included in C toolchain installation.\nRun: towa install c",
                ),
            );
        },
        PlatformId::Macos => {
            if probes.brew {
                steps.push(run3("brew", "install", "cmake", "git"));
            }
        },
    }
    proof {
        assert(steps_view(steps@) =~= build_tools_steps(platform, *probes));
    }
    steps
}

/// The SDK path an install request resolves to: the explicit path when
/// one was given, otherwise the platform's default location.
pub open spec fn spec_resolve_sdk_path(explicit: Option<Seq<char>>, platform: PlatformId) -> Seq<
    char,
> {
    match explicit {
        Some(p) => p,
        None => if platform is Windows {
            "C:\\Program Files\\CeptonSDK"@
        } else {
            "/opt/cepton_sdk"@
        },
    }
}

/// Resolve the SDK install path for the Cepton SDK.
pub fn resolve_sdk_path(explicit: Option<String>, platform: PlatformId) -> (r: String)
    ensures
        r@ == spec_resolve_sdk_path(
            match explicit {
                Some(p) => Some(p@),
                None => None,
            },
            platform,
        ),
{
    match explicit {
        Some(p) => p,
        None => {
            if matches!(platform, PlatformId::Windows) {
                "C:\\Program Files\\CeptonSDK".to_owned()
            } else {
                "/opt/cepton_sdk".to_owned()
            }
        },
    }
}

/// Action group for the Cepton SDK: manual guidance only, built around
/// the resolved SDK path.
pub open spec fn cepton_steps(sdk: Seq<char>) -> Seq<StepModel> {
    seq![
        StepModel::Guidance {
            text: "Important Notes:\n1. Download Cepton SDK from the official website:\n   https://www.cepton.com/downloads\n2. Extract the SDK to: "@
                + sdk
                + "\n3. Set the CEPTON_SDK_PATH environment variable to that path\n   and add its bin directory to PATH.\n4. Verify installation:\n   towa check"@,
        },
    ]
}

fn cepton_steps_for(sdk: &String) -> (r: Vec<InstallStep>)
    ensures
        steps_view(r@) == cepton_steps(sdk@),
{
    let mut text = String::new();
    text.append(
        "Important Notes:\n1. Download Cepton SDK from the official website:\n   https://www.cepton.com/downloads\n2. Extract the SDK to: ",
    );
    text.append(sdk.as_str());
    text.append(
        "\n3. Set the CEPTON_SDK_PATH environment variable to that path\n   and add its bin directory to PATH.\n4. Verify installation:\n   towa check",
    );
    let mut steps: Vec<InstallStep> = Vec::new();
    steps.push(InstallStep::PrintGuidance { text });
    proof {
        assert(steps_view(steps@) =~= cepton_steps(sdk@));
    }
    steps
}

/// Plan the Cepton SDK setup: resolve the path, emit the guidance, and
/// hand back the resolved path so the caller records it in the
/// configuration — recording the intent is deliberately independent of
/// whether the manual steps were carried out.
pub fn install_cepton_sdk(path: Option<String>, platform: PlatformId) -> (r: (
    Vec<InstallStep>,
    String,
))
    ensures
        r.1@ == spec_resolve_sdk_path(
            match path {
                Some(p) => Some(p@),
                None => None,
            },
            platform,
        ),
        steps_view(r.0@) == cepton_steps(r.1@),
{
    let sdk = resolve_sdk_path(path, platform);
    let steps = cepton_steps_for(&sdk);
    (steps, sdk)
}

/// Action group for the Cepton Unified Firmware build dependencies.
pub open spec fn ufb_steps(platform: PlatformId, pr: Probes) -> Seq<StepModel> {
    (match platform {
        PlatformId::Windows => (if !pr.cmake {
            seq![
                StepModel::Run {
                    program: "winget"@,
                    args: seq!["install"@, "-e"@, "--id"@, "Kitware.CMake"@],
                },
            ]
        } else {
            Seq::<StepModel>::empty()
        }) + (if !pr.ninja {
            seq![
                StepModel::Run {
                    program: "winget"@,
                    args: seq!["install"@, "-e"@, "--id"@, "Ninja-build.Ninja"@],
                },
            ]
        } else {
            Seq::<StepModel>::empty()
        }) + (if !pr.python3 {
            seq![
                StepModel::Run {
                    program: "winget"@,
                    args: seq!["install"@, "-e"@, "--id"@, "Python.Python.3.10"@],
                },
            ]
        } else {
            Seq::<StepModel>::empty()
        }) + (if !pr.rustc {
            seq![
                StepModel::Guidance {
                    text: "Installing Rust:\n  Please visit: https://rustup.rs/\n  Or run: winget install -e --id Rustlang.Rustup"@,
                },
            ]
        } else {
            Seq::<StepModel>::empty()
        }) + seq![
            StepModel::Guidance {
                text: "Important Git Configuration:\n  1. Enable Developer Mode in Windows Settings\n  2. Run: git config --global core.symlinks true\n  3. Run: git config --global core.autocrlf false"@,
            },
        ],
        PlatformId::Linux => (match spec_select_distro(pr) {
            Some(LinuxDistro::Apt) => seq![
                StepModel::Guidance {
                    text: "Ubuntu/Debian detected. Run:\n  sudo apt update && sudo apt install -y cmake ninja-build libpcap-dev python3 python3-pip"@,
                },
            ],
            Some(LinuxDistro::Dnf) => seq![
                StepModel::Guidance {
                    text: "Fedora/RHEL detected. Run:\n  sudo dnf install -y cmake ninja-build libpcap-devel python3 python3-pip"@,
                },
            ],
            Some(LinuxDistro::Pacman) => seq![
                StepModel::Guidance {
                    text: "Arch Linux detected. Run:\n  sudo pacman -S --noconfirm cmake ninja libpcap python python-pip"@,
                },
            ],
            None => seq![
                StepModel::Guidance {
                    text: "No supported package manager found (looked for apt, dnf, pacman)."@,
                },
            ],
        }) + (if !pr.rustc {
            seq![
                StepModel::Guidance {
                    text: "Installing Rust:\n  curl --proto '=https' --tlsv1.2 -sSf https://sh.rustup.rs | sh"@,
                },
            ]
        } else {
            Seq::<StepModel>::empty()
        }),
        PlatformId::Macos => if pr.brew {
            seq![
                StepModel::Run {
                    program: "brew"@,
                    args: seq!["install"@, "cmake"@, "ninja"@, "python3"@],
                },
            ] + (if !pr.rustc {
                seq![
                    StepModel::Run {
                        program: "sh"@,
                        args: seq![
                            "-c"@,
                            "curl --proto '=https' --tlsv1.2 -sSf https://sh.rustup.rs | sh -s -- -y"@,
                        ],
                    },
                ]
            } else {
                Seq::<StepModel>::empty()
            })
        } else {
            seq![
                StepModel::Guidance {
                    text: "Homebrew not found. Please install it first:\n  /bin/bash -c \"$(curl -fsSL https://raw.githubusercontent.com/Homebrew/install/HEAD/install.sh)\""@,
                },
            ]
        },
    }) + seq![
        StepModel::Guidance {
            text: "Additional Steps for UFB Development:\n1. Install the ARM LLVM Toolchain (ATfE-20.1.0) from:\n   https://github.com/ARM-software/LLVM-embedded-toolchain-for-Arm/releases\n   and place it under the opt/arm directory for your platform.\n2. Install pre-commit tools (optional):\n   pip3 install pre-commit pylint\n   cargo install typos-cli\n3. Configure Git:\n   git config --global pull.rebase true\n   git config --global core.symlinks true\n   git config --global core.autocrlf false\n4. For detailed setup instructions, see:\n   docs/CEPTON_UFB_SETUP.md"@,
        },
    ]
}

/// Plan the UFB build-dependencies installation for one platform.
pub fn install_ufb_dependencies(platform: PlatformId, probes: &Probes) -> (r: Vec<InstallStep>)
    ensures
        steps_view(r@) == ufb_steps(platform, *probes),
{
    let mut steps: Vec<InstallStep> = Vec::new();
    match platform {
        PlatformId::Windows => {
            if !probes.cmake {
                steps.push(run4("winget", "install", "-e", "--id", "Kitware.CMake"));
            }
            if !probes.ninja {
                steps.push(run4("winget", "install", "-e", "--id", "Ninja-build.Ninja"));
            }
            if !probes.python3 {
                steps.push(run4("winget", "install", "-e", "--id", "Python.Python.3.10"));
            }
            if !probes.rustc {
                steps.push(
                    guidance(
                        "Installing Rust:\n  Please visit: https://rustup.rs/\n  Or run: winget install -e --id Rustlang.Rustup",
                    ),
                );
            }
            steps.push(
                guidance(
                    "Important Git Configuration:\n  1. Enable Developer Mode in Windows Settings\n  2. Run: git config --global core.symlinks true\n  3. Run: git config --global core.autocrlf false",
                ),
            );
        },
        PlatformId::Linux => {
            match select_linux_distro(probes) {
                Some(LinuxDistro::Apt) => {
                    steps.push(
                        guidance(
                            "Ubuntu/Debian detected. Run:\n  sudo apt update && sudo apt install -y cmake ninja-build libpcap-dev python3 python3-pip",
                        ),
                    );
                },
                Some(LinuxDistro::Dnf) => {
                    steps.push(
                        guidance(
                            "Fedora/RHEL detected. Run:\n  sudo dnf install -y cmake ninja-build libpcap-devel python3 python3-pip",
                        ),
                    );
                },
                Some(LinuxDistro::Pacman) => {
                    steps.push(
                        guidance(
                            "Arch Linux detected. Run:\n  sudo pacman -S --noconfirm cmake ninja libpcap python python-pip",
                        ),
                    );
                },
                None => {
                    steps.push(
                        guidance("No supported package manager found (looked for apt, dnf, pacman)."),
                    );
                },
            }
            if !probes.rustc {
                steps.push(
                    guidance(
                        "Installing Rust:\n  curl --proto '=https' --tlsv1.2 -sSf https://sh.rustup.rs | sh",
                    ),
                );
            }
        },
        PlatformId::Macos => {
            if probes.brew {
                steps.push(run4("brew", "install", "cmake", "ninja", "python3"));
                if !probes.rustc {
                    steps.push(
                        run2(
                            "sh",
                            "-c",
                            "curl --proto '=https' --tlsv1.2 -sSf https://sh.rustup.rs | sh -s -- -y",
                        ),
                    );
                }
            } else {
                steps.push(
                    guidance(
                        "Homebrew not found. Please install it first:\n  /bin/bash -c \"$(curl -fsSL https://raw.githubusercontent.com/Homebrew/install/HEAD/install.sh)\"",
                    ),
                );
            }
        },
    }
    steps.push(
        guidance(
            "Additional Steps for UFB Development:\n1. Install the ARM LLVM Toolchain (ATfE-20.1.0) from:\n   https://github.com/ARM-software/LLVM-embedded-toolchain-for-Arm/releases\n   and place it under the opt/arm directory for your platform.\n2. Install pre-commit tools (optional):\n   pip3 install pre-commit pylint\n   cargo install typos-cli\n3. Configure Git:\n   git config --global pull.rebase true\n   git config --global core.symlinks true\n   git config --global core.autocrlf false\n4. For detailed setup instructions, see:\n   docs/CEPTON_UFB_SETUP.md",
        ),
    );
    proof {
        assert(steps_view(steps@) =~= ufb_steps(platform, *probes));
    }
    steps
}

/// One installable unit.
#[derive(Debug, Clone, Copy, PartialEq, Eq, Structural)]
pub enum ToolId {
    CToolchain,
    RustToolchain,
    BuildTools,
    CeptonSdk,
    UfbDependencies,
}

/// Character-for-character string equality.
fn str_eq(a: &str, b: &str) -> (r: bool)
    ensures
        r == (a@ == b@),
{
    let n = a.unicode_len();
    if n != b.unicode_len() {
        return false;
    }
    let mut i: usize = 0;
    while i < n
        invariant
            0 <= i <= n,
            n == a@.len(),
            n == b@.len(),
            forall|j: int| 0 <= j < i ==> a@[j] == b@[j],
        decreases n - i,
    {
        if a.get_char(i) != b.get_char(i) {
            return false;
        }
        i += 1;
    }
    proof {
        assert(a@ =~= b@);
    }
    true
}

/// Which tools a request name stands for: `all` expands to the fixed
/// sequence C toolchain, Rust toolchain, build tools, in that order;
/// any other known name stands for itself; anything else is unknown.
pub open spec fn spec_resolve(name: Seq<char>) -> Option<Seq<ToolId>> {
    if name == "all"@ {
        Some(seq![ToolId::CToolchain, ToolId::RustToolchain, ToolId::BuildTools])
    } else if name == "c"@ {
        Some(seq![ToolId::CToolchain])
    } else if name == "rust"@ {
        Some(seq![ToolId::RustToolchain])
    } else if name == "buildTools"@ {
        Some(seq![ToolId::BuildTools])
    } else if name == "cepton"@ {
        Some(seq![ToolId::CeptonSdk])
    } else if name == "ufbDependencies"@ {
        Some(seq![ToolId::UfbDependencies])
    } else {
        None
    }
}

/// Resolve a request name to the tools it stands for.
pub fn resolve_tool(name: &str) -> (r: Option<Vec<ToolId>>)
    ensures
        match spec_resolve(name@) {
            Some(ts) => r matches Some(v) && v@ == ts,
            None => r is None,
        },
{
    let r: Option<Vec<ToolId>> = if str_eq(name, "all") {
        Some(vec![ToolId::CToolchain, ToolId::RustToolchain, ToolId::BuildTools])
    } else if str_eq(name, "c") {
        Some(vec![ToolId::CToolchain])
    } else if str_eq(name, "rust") {
        Some(vec![ToolId::RustToolchain])
    } else if str_eq(name, "buildTools") {
        Some(vec![ToolId::BuildTools])
    } else if str_eq(name, "cepton") {
        Some(vec![ToolId::CeptonSdk])
    } else if str_eq(name, "ufbDependencies") {
        Some(vec![ToolId::UfbDependencies])
    } else {
        None
    };
    proof {
        match spec_resolve(name@) {
            Some(ts) => {
                assert(r matches Some(v) && v@ =~= ts);
            },
            None => {},
        }
    }
    r
}

/// The set of request names `resolve_tool` accepts. An unknown-tool
/// report deliberately lists all six of them — `buildTools` and
/// `ufbDependencies` included — so that every name the resolver takes
/// is also the one the report advertises.
pub open spec fn spec_valid_names() -> Seq<Seq<char>> {
    seq!["all"@, "c"@, "rust"@, "buildTools"@, "cepton"@, "ufbDependencies"@]
}

/// The valid request names, for reporting an unknown one.
pub fn valid_tool_names() -> (r: Vec<String>)
    ensures
        r@.map_values(|v: String| v@) == spec_valid_names(),
{
    let r = vec![
        "all".to_owned(),
        "c".to_owned(),
        "rust".to_owned(),
        "buildTools".to_owned(),
        "cepton".to_owned(),
        "ufbDependencies".to_owned(),
    ];
    proof {
        assert(r@.map_values(|v: String| v@) =~= spec_valid_names());
    }
    r
}

/// The detection probe of a tool: its success means "already
/// installed". The build tools, the Cepton SDK and the UFB
/// dependencies have no single detecting command — their action groups
/// check per component instead — so they are never reported as present
/// as a whole.
pub open spec fn spec_probe_ok(t: ToolId, pr: Probes) -> bool {
    match t {
        ToolId::CToolchain => pr.gcc,
        ToolId::RustToolchain => pr.rustc,
        ToolId::BuildTools => false,
        ToolId::CeptonSdk => false,
        ToolId::UfbDependencies => false,
    }
}

/// Whether the detection probe reported the tool as already installed.
pub fn probe_detects(t: ToolId, pr: &Probes) -> (r: bool)
    ensures
        r == spec_probe_ok(t, *pr),
{
    match t {
        ToolId::CToolchain => pr.gcc,
        ToolId::RustToolchain => pr.rustc,
        ToolId::BuildTools => false,
        ToolId::CeptonSdk => false,
        ToolId::UfbDependencies => false,
    }
}

/// The plan for one tool: skip it because the probe already found it,
/// or run the given steps in order.
#[derive(Debug, Clone, PartialEq)]
pub enum ToolPlan {
    AlreadyPresent,
    Steps(Vec<InstallStep>),
}

/// Mathematical model of a per-tool plan.
pub ghost enum ToolPlanModel {
    AlreadyPresent,
    Steps(Seq<StepModel>),
}

impl View for ToolPlan {
    type V = ToolPlanModel;

    open spec fn view(&self) -> ToolPlanModel {
        match self {
            ToolPlan::AlreadyPresent => ToolPlanModel::AlreadyPresent,
            ToolPlan::Steps(steps) => ToolPlanModel::Steps(steps_view(steps@)),
        }
    }
}

/// One requested tool together with its plan.
#[derive(Debug, Clone, PartialEq)]
pub struct ToolAction {
    pub tool: ToolId,
    pub plan: ToolPlan,
}

/// The whole answer to an install request: the per-tool actions in
/// request order, and, for an SDK request, the path to record in the
/// configuration.
#[derive(Debug, Clone, PartialEq)]
pub struct InstallPlan {
    pub actions: Vec<ToolAction>,
    pub sdk_update: Option<String>,
}

/// Answer to an install request: either the name was unknown — with
/// the valid names to report, and nothing to execute or write — or a
/// plan.
#[derive(Debug, Clone, PartialEq)]
pub enum InstallResponse {
    UnknownTool { valid: Vec<String> },
    Plan(InstallPlan),
}

/// The action group of one tool, as planned for one platform.
pub open spec fn spec_tool_steps(
    t: ToolId,
    platform: PlatformId,
    pr: Probes,
    sdk: Seq<char>,
) -> Seq<StepModel> {
    match t {
        ToolId::CToolchain => c_steps(platform, pr),
        ToolId::RustToolchain => rust_steps(platform),
        ToolId::BuildTools => build_tools_steps(platform, pr),
        ToolId::CeptonSdk => cepton_steps(sdk),
        ToolId::UfbDependencies => ufb_steps(platform, pr),
    }
}

/// The plan for one tool: already present when its probe succeeded,
/// otherwise its action group.
pub open spec fn spec_plan_for(
    t: ToolId,
    platform: PlatformId,
    pr: Probes,
    sdk: Seq<char>,
) -> ToolPlanModel {
    if spec_probe_ok(t, pr) {
        ToolPlanModel::AlreadyPresent
    } else {
        ToolPlanModel::Steps(spec_tool_steps(t, platform, pr, sdk))
    }
}

/// Idempotence: a tool whose detection probe succeeds is planned as
/// already present — zero steps to execute — on every call.
pub proof fn lemma_install_idempotent(t: ToolId, platform: PlatformId, pr: Probes, sdk: Seq<char>)
    requires
        spec_probe_ok(t, pr),
    ensures
        spec_plan_for(t, platform, pr, sdk) == ToolPlanModel::AlreadyPresent,
{
}

fn tool_steps(t: ToolId, platform: PlatformId, probes: &Probes, sdk: &String) -> (r: Vec<
    InstallStep,
>)
    ensures
        steps_view(r@) == spec_tool_steps(t, platform, *probes, sdk@),
{
    match t {
        ToolId::CToolchain => install_c_toolchain(platform, probes),
        ToolId::RustToolchain => install_rust_toolchain(platform),
        ToolId::BuildTools => install_build_tools(platform, probes),
        ToolId::CeptonSdk => cepton_steps_for(sdk),
        ToolId::UfbDependencies => install_ufb_dependencies(platform, probes),
    }
}

/// Plan an install request: resolve the tool name, decide per tool
/// from the probes whether anything needs doing, and select the
/// platform-specific steps. An unknown name yields the valid names and
/// nothing to execute; a `cepton` request also yields the SDK path to
/// record in the configuration.
pub fn install(
    tool_name: &str,
    platform: PlatformId,
    probes: &Probes,
    explicit_path: Option<String>,
) -> (r: InstallResponse)
    ensures
        ({
            let sdk = spec_resolve_sdk_path(
                match explicit_path {
                    Some(p) => Some(p@),
                    None => None,
                },
                platform,
            );
            match spec_resolve(tool_name@) {
                None => r matches InstallResponse::UnknownTool { valid } && valid@.map_values(
                    |v: String| v@,
                ) == spec_valid_names(),
                Some(ts) => r matches InstallResponse::Plan(pl) && {
                    &&& pl.actions@.len() == ts.len()
                    &&& forall|i: int|
                        0 <= i < ts.len() ==> (#[trigger] pl.actions@[i]).tool == ts[i]
                            && pl.actions@[i].plan@ == spec_plan_for(ts[i], platform, *probes, sdk)
                    &&& ts.contains(ToolId::CeptonSdk) ==> (pl.sdk_update matches Some(p) && p@
                        == sdk)
                    &&& !ts.contains(ToolId::CeptonSdk) ==> pl.sdk_update is None
                },
            }
        }),
{
    let ids = match resolve_tool(tool_name) {
        Some(ids) => ids,
        None => {
            return InstallResponse::UnknownTool { valid: valid_tool_names() };
        },
    };
    let sdk = resolve_sdk_path(explicit_path, platform);
    let ghost sdk_model = sdk@;
    let mut actions: Vec<ToolAction> = Vec::new();
    let mut has_cepton = false;
    let mut i: usize = 0;
    while i < ids.len()
        invariant
            0 <= i <= ids.len(),
            sdk@ == sdk_model,
            actions@.len() == i,
            forall|j: int|
                0 <= j < i ==> (#[trigger] actions@[j]).tool == ids@[j] && actions@[j].plan@
                    == spec_plan_for(ids@[j], platform, *probes, sdk_model),
            has_cepton == ids@.subrange(0, i as int).contains(ToolId::CeptonSdk),
        decreases ids.len() - i,
    {
        let t = ids[i];
        let plan = if probe_detects(t, probes) {
            ToolPlan::AlreadyPresent
        } else {
            ToolPlan::Steps(tool_steps(t, platform, probes, &sdk))
        };
        actions.push(ToolAction { tool: t, plan });
        if matches!(t, ToolId::CeptonSdk) {
            has_cepton = true;
        }
        proof {
            let pre = ids@.subrange(0, i as int);
            let ext = ids@.subrange(0, i + 1);
            assert(ext =~= pre.push(ids@[i as int]));
            if ids@[i as int] == ToolId::CeptonSdk {
                assert(ext[i as int] == ToolId::CeptonSdk);
                assert(ext.contains(ToolId::CeptonSdk));
            } else if ext.contains(ToolId::CeptonSdk) {
                let k = choose|k: int| 0 <= k < ext.len() && ext[k] == ToolId::CeptonSdk;
                assert(pre[k] == ToolId::CeptonSdk);
                assert(pre.contains(ToolId::CeptonSdk));
            }
        }
        i += 1;
    }
    proof {
        assert(ids@.subrange(0, ids@.len() as int) =~= ids@);
    }
    let sdk_update: Option<String> = if has_cepton {
        Some(sdk)
    } else {
        None
    };
    InstallResponse::Plan(InstallPlan { actions, sdk_update })
}

/// Outcome of one executed step, as reported by the embedding binary.
#[derive(Debug, Clone, Copy, PartialEq, Eq, Structural)]
pub enum StepOutcome {
    Success,
    ExitFailure,
    LaunchFailure,
    Printed,
}

/// Aggregated outcome of an executed action group.
#[derive(Debug, Clone, Copy, PartialEq, Eq, Structural)]
pub enum CompletionStatus {
    AllOk,
    PartialFailure,
}

/// A step outcome that is no failure: the command exited successfully,
/// or the step was guidance and was printed.
pub open spec fn outcome_ok(o: StepOutcome) -> bool {
    o == StepOutcome::Success || o == StepOutcome::Printed
}

/// One attempted step together with what became of it.
#[derive(Debug, Clone, PartialEq)]
pub struct StepResult {
    pub step: InstallStep,
    pub outcome: StepOutcome,
}

/// The aggregated outcome of all steps attempted during one install
/// call. Execution is best-effort — a failed step never aborts its
/// siblings — so every step appears here and the summary is computed
/// after the fact.
#[derive(Debug, Clone, PartialEq)]
pub struct InstallReport {
    pub results: Vec<StepResult>,
}

impl InstallReport {
    /// Aggregate the step results: all-ok exactly when no step failed.
    pub fn status(&self) -> (r: CompletionStatus)
        ensures
            r == CompletionStatus::AllOk <==> (forall|i: int|
                0 <= i < self.results@.len() ==> outcome_ok(self.results@[i].outcome)),
    {
        let mut i: usize = 0;
        while i < self.results.len()
            invariant
                0 <= i <= self.results@.len(),
                forall|j: int| 0 <= j < i ==> outcome_ok(self.results@[j].outcome),
            decreases self.results@.len() - i,
        {
            let o = self.results[i].outcome;
            if !(matches!(o, StepOutcome::Success) || matches!(o, StepOutcome::Printed)) {
                return CompletionStatus::PartialFailure;
            }
            i += 1;
        }
        CompletionStatus::AllOk
    }
}

/// The fixed list of commands the fallback environment check probes,
/// each with its display name.
pub open spec fn spec_basic_check() -> Seq<(Seq<char>, Seq<char>)> {
    seq![
        ("gcc"@, "GCC"@),
        ("clang"@, "Clang"@),
        ("rustc"@, "Rust"@),
        ("cargo"@, "Cargo"@),
        ("cmake"@, "CMake"@),
        ("git"@, "Git"@),
    ]
}

/// The commands the fallback environment check probes with a version
/// query, used when the external environment checker is absent.
pub fn basic_check_commands() -> (r: Vec<(String, String)>)
    ensures
        r@.map_values(|p: (String, String)| (p.0@, p.1@)) == spec_basic_check(),
{
    let r = vec![
        ("gcc".to_owned(), "GCC".to_owned()),
        ("clang".to_owned(), "Clang".to_owned()),
        ("rustc".to_owned(), "Rust".to_owned()),
        ("cargo".to_owned(), "Cargo".to_owned()),
        ("cmake".to_owned(), "CMake".to_owned()),
        ("git".to_owned(), "Git".to_owned()),
    ];
    proof {
        assert(r@.map_values(|p: (String, String)| (p.0@, p.1@)) =~= spec_basic_check());
    }
    r
}

} // verus!
