use ngseed::domain::project::ArchitectureProfile;
use ngseed::domain::project::PackageManager;
use ngseed::domain::project::ResolvedOptions;
use ngseed::domain::project::UiChoice;
use ngseed::domain::styles_choice::StylesChoice;
use ngseed::error::SeedError;
use ngseed::infrastructure::system_seeder::ensure_required_tools;
use ngseed::infrastructure::system_seeder::format_command;
use ngseed::infrastructure::system_seeder::package_manager_cli_name;
use ngseed::infrastructure::system_seeder::package_manager_install_command;
use ngseed::infrastructure::system_seeder::scaffold_angular_project;
use ngseed::infrastructure::system_seeder::scaffold_command;
use ngseed::infrastructure::system_seeder::scaffold_command_args;
use ngseed::infrastructure::system_seeder::tool_probes;
use ngseed::infrastructure::system_seeder::tool_check_failure;
use ngseed::infrastructure::system_seeder::version_probe_args;
use ngseed::infrastructure::system_seeder::ui_integration_plan;
use ngseed::infrastructure::system_seeder::run_ui_integration;
use ngseed::infrastructure::system_seeder::CommandRunner;
use ngseed::infrastructure::system_seeder::Recorded;

#[derive(Default)]
struct FakeRunner {
    calls: Vec<(String, Vec<String>, Option<String>)>,
    missing: Option<&'static str>,
}

impl CommandRunner for FakeRunner {
    fn run(&mut self, program: &str, args: &[String], cwd: Option<&str>) -> Result<(), SeedError> {
        self.calls.push((program.to_string(), args.to_vec(), cwd.map(str::to_string)));
        if self.missing == Some(program) {
            Err(SeedError::Failure { message: format!("failed to start command `{program}`") })
        } else {
            Ok(())
        }
    }
}

fn strings(items: &[&str]) -> Vec<String> {
    items.iter().map(|s| s.to_string()).collect()
}

#[test]
fn scaffold_calls_ng_new_with_expected_flags() {
    let mut runner = Recorded::new(FakeRunner::default());

    scaffold_angular_project(
        &mut runner,
        "demo-app",
        ResolvedOptions {
            ui: UiChoice::NoUi,
            styles: StylesChoice::NoStyles,
            package_manager: PackageManager::Pnpm,
            architecture: ArchitectureProfile::Clean,
            skip_install: true,
        },
    )
    .unwrap();

    let runner = runner.inner();
    assert_eq!(runner.calls.len(), 1);
    let (program, args, _) = &runner.calls[0];
    assert_eq!(program, "ng");
    assert!(args.contains(&"new".to_string()));
    assert!(args.contains(&"demo-app".to_string()));
    assert!(args.contains(&"--standalone".to_string()));
    assert!(args.contains(&"--routing".to_string()));
    assert!(args.contains(&"--style=scss".to_string()));
    assert!(args.contains(&"--ssr=false".to_string()));
    assert!(args.contains(&"--package-manager=pnpm".to_string()));
    assert!(args.contains(&"--skip-install".to_string()));
}

#[test]
fn package_manager_install_command_matches_manager() {
    let (program, args) = package_manager_install_command(PackageManager::Bun, &["primeng"]);
    assert_eq!(program, "bun");
    assert_eq!(args, vec!["add".to_string(), "primeng".to_string()]);
}

#[test]
fn npm_installs_with_install_verb() {
    let (program, args) = package_manager_install_command(PackageManager::Npm, &["a", "b"]);
    assert_eq!(program, "npm");
    assert_eq!(args, strings(&["install", "a", "b"]));
}

#[test]
fn scaffold_args_are_exact_and_in_order() {
    let options = ResolvedOptions {
        ui: UiChoice::Material,
        styles: StylesChoice::NoStyles,
        package_manager: PackageManager::Yarn,
        architecture: ArchitectureProfile::Cdp,
        skip_install: false,
    };
    assert_eq!(
        scaffold_command_args("shop", options),
        strings(&[
            "new",
            "shop",
            "--defaults",
            "--standalone",
            "--routing",
            "--style=scss",
            "--ssr=false",
            "--package-manager=yarn",
        ])
    );
}

#[test]
fn required_tools_are_checked_in_order() {
    let mut runner = Recorded::new(FakeRunner::default());
    ensure_required_tools(&mut runner, PackageManager::Pnpm).unwrap();
    let runner = runner.inner();
    let programs: Vec<&str> = runner.calls.iter().map(|(p, _, _)| p.as_str()).collect();
    assert_eq!(programs, vec!["node", "ng", "pnpm"]);
    assert!(runner.calls.iter().all(|(_, args, cwd)| args == &strings(&["--version"]) && cwd.is_none()));
}

#[test]
fn missing_tool_stops_the_check_and_is_named() {
    let mut runner = Recorded::new(FakeRunner { missing: Some("ng"), ..FakeRunner::default() });
    let error = ensure_required_tools(&mut runner, PackageManager::Npm).unwrap_err();
    let runner = runner.inner();
    assert_eq!(runner.calls.len(), 2);
    assert!(matches!(&error, SeedError::ToolRequired { tool, .. } if tool == "ng"));
    assert_eq!(
        error.message(),
        "`ng` is required. Install it and retry.: failed to start command `ng`"
    );
}

#[test]
fn format_command_joins_program_and_args() {
    assert_eq!(format_command("ng", &strings(&["new", "demo"])), "ng new demo");
    assert_eq!(format_command("node", &[]), "node");
}

#[test]
fn cli_names_of_package_managers() {
    assert_eq!(package_manager_cli_name(PackageManager::Npm), "npm");
    assert_eq!(package_manager_cli_name(PackageManager::Pnpm), "pnpm");
    assert_eq!(package_manager_cli_name(PackageManager::Yarn), "yarn");
    assert_eq!(package_manager_cli_name(PackageManager::Bun), "bun");
}

#[test]
fn ui_integration_plans() {
    let none = ui_integration_plan(UiChoice::NoUi, PackageManager::Npm, "/p");
    assert!(none.command.is_none());
    assert!(none.styles.is_empty());

    let material = ui_integration_plan(UiChoice::Material, PackageManager::Pnpm, "/p");
    let command = material.command.unwrap();
    assert_eq!(command.program, "ng");
    assert_eq!(command.args, strings(&["add", "@angular/material", "--defaults", "--skip-confirmation"]));
    assert_eq!(command.cwd.as_deref(), Some("/p"));
    assert!(material.styles.is_empty());

    let primeng = ui_integration_plan(UiChoice::Primeng, PackageManager::Npm, "/p");
    let command = primeng.command.unwrap();
    assert_eq!(command.program, "npm");
    assert_eq!(command.args, strings(&["install", "primeng", "primeicons", "@primeng/themes"]));
    assert_eq!(
        primeng.styles,
        strings(&[
            "node_modules/@primeng/themes/aura/theme.css",
            "node_modules/primeicons/primeicons.css",
        ])
    );
}

#[test]
fn tool_check_failure_names_the_tool_and_keeps_the_cause() {
    assert!(tool_check_failure("node", Ok(())).is_none());
    let failure = tool_check_failure("bun", Err(SeedError::Failure { message: "not found".to_string() })).unwrap();
    assert!(matches!(&failure, SeedError::ToolRequired { tool, .. } if tool == "bun"));
    assert_eq!(failure.message(), "`bun` is required. Install it and retry.: not found");
    assert_eq!(version_probe_args(), strings(&["--version"]));
}

#[test]
fn scaffold_and_probe_command_lines() {
    let options = ResolvedOptions {
        ui: UiChoice::NoUi,
        styles: StylesChoice::NoStyles,
        package_manager: PackageManager::Npm,
        architecture: ArchitectureProfile::Clean,
        skip_install: false,
    };
    let line = scaffold_command("app", options);
    assert_eq!(line.program, "ng");
    assert_eq!(line.args, scaffold_command_args("app", options));
    assert!(line.cwd.is_none());

    let probes = tool_probes(PackageManager::Yarn);
    let programs: Vec<&str> = probes.iter().map(|p| p.program.as_str()).collect();
    assert_eq!(programs, vec!["node", "ng", "yarn"]);
    assert!(probes.iter().all(|p| p.args == strings(&["--version"]) && p.cwd.is_none()));
}

#[test]
fn ensure_required_tools_runs_the_probes_for_yarn() {
    let mut runner = Recorded::new(FakeRunner::default());
    ensure_required_tools(&mut runner, PackageManager::Yarn).unwrap();
    let runner = runner.inner();
    assert_eq!(
        runner.calls,
        vec![
            ("node".to_string(), strings(&["--version"]), None),
            ("ng".to_string(), strings(&["--version"]), None),
            ("yarn".to_string(), strings(&["--version"]), None),
        ]
    );
}

#[test]
fn primeng_integration_installs_then_hands_back_its_styles() {
    let mut runner = Recorded::new(FakeRunner::default());
    let styles = run_ui_integration(&mut runner, UiChoice::Primeng, PackageManager::Bun, "/work/demo").unwrap();
    assert_eq!(
        runner.inner().calls,
        vec![(
            "bun".to_string(),
            strings(&["add", "primeng", "primeicons", "@primeng/themes"]),
            Some("/work/demo".to_string()),
        )]
    );
    assert_eq!(
        styles,
        strings(&[
            "node_modules/@primeng/themes/aura/theme.css",
            "node_modules/primeicons/primeicons.css",
        ])
    );
}

#[test]
fn failed_ui_install_stops_before_the_styles() {
    let mut runner = Recorded::new(FakeRunner { missing: Some("npm"), ..FakeRunner::default() });
    let error = run_ui_integration(&mut runner, UiChoice::Primeng, PackageManager::Npm, "/work/demo").unwrap_err();
    assert_eq!(runner.inner().calls.len(), 1);
    assert_eq!(error.message(), "failed to start command `npm`");
}

#[test]
fn material_integration_runs_ng_add_and_adds_no_styles() {
    let mut runner = Recorded::new(FakeRunner::default());
    let styles = run_ui_integration(&mut runner, UiChoice::Material, PackageManager::Pnpm, "/p").unwrap();
    assert!(styles.is_empty());
    assert_eq!(
        runner.inner().calls,
        vec![(
            "ng".to_string(),
            strings(&["add", "@angular/material", "--defaults", "--skip-confirmation"]),
            Some("/p".to_string()),
        )]
    );
}

#[test]
fn no_ui_library_runs_nothing() {
    let mut runner = Recorded::new(FakeRunner::default());
    let styles = run_ui_integration(&mut runner, UiChoice::NoUi, PackageManager::Npm, "/p").unwrap();
    assert!(styles.is_empty());
    assert!(runner.inner().calls.is_empty());
}
