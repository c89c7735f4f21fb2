use towa::installer::{
    basic_check_commands, install, install_build_tools, install_c_toolchain, install_cepton_sdk,
    install_rust_toolchain, install_ufb_dependencies, resolve_tool, select_linux_distro,
};
use towa::installer::{
    CompletionStatus, InstallReport, InstallResponse, InstallStep, LinuxDistro, PlatformId, Probes,
    StepOutcome, StepResult, ToolId, ToolPlan,
};

fn no_probes() -> Probes {
    Probes {
        apt: false,
        dnf: false,
        pacman: false,
        brew: false,
        gcc: false,
        rustc: false,
        cmake: false,
        git: false,
        ninja: false,
        python3: false,
    }
}

fn plan_of(r: InstallResponse) -> towa::installer::InstallPlan {
    match r {
        InstallResponse::Plan(p) => p,
        InstallResponse::UnknownTool { .. } => panic!("expected a plan"),
    }
}

#[test]
fn install_is_idempotent_once_detected() {
    let mut probes = no_probes();
    probes.rustc = true;
    for _ in 0..3 {
        let plan = plan_of(install("rust", PlatformId::Linux, &probes, None));
        assert_eq!(plan.actions.len(), 1);
        assert_eq!(plan.actions[0].tool, ToolId::RustToolchain);
        assert_eq!(plan.actions[0].plan, ToolPlan::AlreadyPresent);
        assert_eq!(plan.sdk_update, None);
    }
}

#[test]
fn unknown_tool_reports_valid_names_and_plans_nothing() {
    let probes = no_probes();
    match install("bogus", PlatformId::Linux, &probes, None) {
        InstallResponse::UnknownTool { valid } => {
            assert_eq!(
                valid,
                vec!["all", "c", "rust", "buildTools", "cepton", "ufbDependencies"]
            );
        }
        InstallResponse::Plan(_) => panic!("an unknown tool must not be planned"),
    }
}

#[test]
fn apt_wins_over_pacman() {
    let mut probes = no_probes();
    probes.apt = true;
    probes.pacman = true;
    assert_eq!(select_linux_distro(&probes), Some(LinuxDistro::Apt));
    let steps = install_c_toolchain(PlatformId::Linux, &probes);
    assert_eq!(steps.len(), 1);
    match &steps[0] {
        InstallStep::PrintGuidance { text } => assert!(text.starts_with("Ubuntu/Debian")),
        InstallStep::RunCommand { .. } => panic!("the apt group prints guidance"),
    }
}

#[test]
fn distro_priority_order_is_apt_dnf_pacman() {
    let mut probes = no_probes();
    probes.dnf = true;
    probes.pacman = true;
    assert_eq!(select_linux_distro(&probes), Some(LinuxDistro::Dnf));
    probes.dnf = false;
    assert_eq!(select_linux_distro(&probes), Some(LinuxDistro::Pacman));
    probes.pacman = false;
    assert_eq!(select_linux_distro(&probes), None);
}

#[test]
fn all_expands_in_order() {
    let probes = no_probes();
    let plan = plan_of(install("all", PlatformId::Linux, &probes, None));
    let tools: Vec<ToolId> = plan.actions.iter().map(|a| a.tool).collect();
    assert_eq!(
        tools,
        vec![ToolId::CToolchain, ToolId::RustToolchain, ToolId::BuildTools]
    );
    assert_eq!(plan.sdk_update, None);
}

#[test]
fn resolve_tool_names() {
    assert_eq!(resolve_tool("c"), Some(vec![ToolId::CToolchain]));
    assert_eq!(resolve_tool("cepton"), Some(vec![ToolId::CeptonSdk]));
    assert_eq!(
        resolve_tool("ufbDependencies"),
        Some(vec![ToolId::UfbDependencies])
    );
    assert_eq!(resolve_tool("Cepton"), None);
    assert_eq!(resolve_tool(""), None);
}

#[test]
fn cepton_records_default_path_per_platform() {
    let probes = no_probes();
    let plan = plan_of(install("cepton", PlatformId::Linux, &probes, None));
    assert_eq!(plan.sdk_update.as_deref(), Some("/opt/cepton_sdk"));
    let plan = plan_of(install("cepton", PlatformId::Windows, &probes, None));
    assert_eq!(plan.sdk_update.as_deref(), Some("C:\\Program Files\\CeptonSDK"));
}

#[test]
fn cepton_records_explicit_path() {
    let probes = no_probes();
    let plan = plan_of(install(
        "cepton",
        PlatformId::Linux,
        &probes,
        Some("/custom/sdk".to_string()),
    ));
    assert_eq!(plan.sdk_update.as_deref(), Some("/custom/sdk"));
}

#[test]
fn cepton_guidance_mentions_the_resolved_path() {
    let (steps, path) = install_cepton_sdk(Some("/custom/sdk".to_string()), PlatformId::Macos);
    assert_eq!(path, "/custom/sdk");
    assert_eq!(steps.len(), 1);
    match &steps[0] {
        InstallStep::PrintGuidance { text } => {
            assert!(text.contains("Extract the SDK to: /custom/sdk"))
        }
        InstallStep::RunCommand { .. } => panic!("the Cepton SDK setup is manual"),
    }
}

#[test]
fn build_tools_windows_installs_only_whats_missing() {
    let mut probes = no_probes();
    probes.cmake = true;
    let steps = install_build_tools(PlatformId::Windows, &probes);
    assert_eq!(
        steps,
        vec![InstallStep::RunCommand {
            program: "winget".to_string(),
            args: vec![
                "install".to_string(),
                "-e".to_string(),
                "--id".to_string(),
                "Git.Git".to_string(),
            ],
        }]
    );
    probes.git = true;
    assert_eq!(install_build_tools(PlatformId::Windows, &probes), vec![]);
}

#[test]
fn build_tools_are_never_skipped_by_the_orchestrator() {
    let mut probes = no_probes();
    probes.cmake = true;
    let plan = plan_of(install("buildTools", PlatformId::Windows, &probes, None));
    assert_eq!(plan.actions.len(), 1);
    match &plan.actions[0].plan {
        ToolPlan::Steps(steps) => {
            assert_eq!(steps.len(), 1);
            match &steps[0] {
                InstallStep::RunCommand { args, .. } => {
                    assert_eq!(args.last().map(|a| a.as_str()), Some("Git.Git"))
                }
                InstallStep::PrintGuidance { .. } => panic!("the missing git is installed"),
            }
        }
        ToolPlan::AlreadyPresent => {
            panic!("build tools have no single probe and must not be skipped")
        }
    }
}

#[test]
fn macos_c_toolchain_uses_brew_when_present() {
    let mut probes = no_probes();
    probes.brew = true;
    let steps = install_c_toolchain(PlatformId::Macos, &probes);
    assert_eq!(
        steps,
        vec![InstallStep::RunCommand {
            program: "brew".to_string(),
            args: vec!["install".to_string(), "gcc".to_string(), "cmake".to_string()],
        }]
    );
}

#[test]
fn linux_without_package_manager_gets_guidance_only() {
    let probes = no_probes();
    let steps = install_c_toolchain(PlatformId::Linux, &probes);
    assert_eq!(steps.len(), 1);
    assert!(matches!(&steps[0], InstallStep::PrintGuidance { .. }));
}

#[test]
fn rust_steps_on_posix_run_the_installer_script() {
    let steps = install_rust_toolchain(PlatformId::Linux);
    assert_eq!(steps.len(), 2);
    match &steps[0] {
        InstallStep::RunCommand { program, args } => {
            assert_eq!(program, "sh");
            assert_eq!(args[0], "-c");
            assert!(args[1].contains("sh.rustup.rs"));
        }
        InstallStep::PrintGuidance { .. } => panic!("the posix rust install runs a command"),
    }
    assert!(matches!(&steps[1], InstallStep::PrintGuidance { .. }));
}

#[test]
fn ufb_windows_with_everything_present_only_prints_guidance() {
    let mut probes = no_probes();
    probes.cmake = true;
    probes.ninja = true;
    probes.python3 = true;
    probes.rustc = true;
    let steps = install_ufb_dependencies(PlatformId::Windows, &probes);
    assert_eq!(steps.len(), 2);
    assert!(steps
        .iter()
        .all(|s| matches!(s, InstallStep::PrintGuidance { .. })));
}

#[test]
fn ufb_macos_with_brew_runs_commands() {
    let mut probes = no_probes();
    probes.brew = true;
    let steps = install_ufb_dependencies(PlatformId::Macos, &probes);
    assert_eq!(steps.len(), 3);
    assert!(matches!(&steps[0], InstallStep::RunCommand { .. }));
    assert!(matches!(&steps[1], InstallStep::RunCommand { .. }));
    assert!(matches!(&steps[2], InstallStep::PrintGuidance { .. }));
}

fn report_of(outcomes: Vec<StepOutcome>) -> InstallReport {
    InstallReport {
        results: outcomes
            .into_iter()
            .map(|outcome| StepResult {
                step: InstallStep::PrintGuidance {
                    text: "step".to_string(),
                },
                outcome,
            })
            .collect(),
    }
}

#[test]
fn empty_report_is_all_ok() {
    assert_eq!(report_of(vec![]).status(), CompletionStatus::AllOk);
}

#[test]
fn report_of_successes_and_prints_is_all_ok() {
    let report = report_of(vec![StepOutcome::Success, StepOutcome::Printed, StepOutcome::Success]);
    assert_eq!(report.status(), CompletionStatus::AllOk);
}

#[test]
fn report_with_any_failure_is_partial() {
    let report = report_of(vec![StepOutcome::Success, StepOutcome::ExitFailure]);
    assert_eq!(report.status(), CompletionStatus::PartialFailure);
    let report = report_of(vec![StepOutcome::LaunchFailure]);
    assert_eq!(report.status(), CompletionStatus::PartialFailure);
}

#[test]
fn basic_check_probes_the_fixed_tool_list() {
    let cmds = basic_check_commands();
    let pairs: Vec<(&str, &str)> = cmds
        .iter()
        .map(|(c, n)| (c.as_str(), n.as_str()))
        .collect();
    assert_eq!(
        pairs,
        vec![
            ("gcc", "GCC"),
            ("clang", "Clang"),
            ("rustc", "Rust"),
            ("cargo", "Cargo"),
            ("cmake", "CMake"),
            ("git", "Git"),
        ]
    );
}
