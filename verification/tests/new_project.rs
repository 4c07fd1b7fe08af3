use std::cell::RefCell;

use ngseed::application::ports::Environment;
use ngseed::application::ports::ProgressReporter;
use ngseed::application::ports::Seeder;
use ngseed::application::ports::UiSelector;
use ngseed::application::use_cases::new_project::NewProjectUseCase;
use ngseed::domain::project::ArchitectureProfile;
use ngseed::domain::project::NewProjectRequest;
use ngseed::domain::project::PackageManager;
use ngseed::domain::project::ResolvedOptions;
use ngseed::domain::project::UiChoice;
use ngseed::domain::styles_choice::StylesChoice;
use ngseed::error::SeedError;

struct FakeUiSelector {
    ui: UiChoice,
    styles: StylesChoice,
    asked: RefCell<Vec<String>>,
}

impl FakeUiSelector {
    fn new(ui: UiChoice, styles: StylesChoice) -> Self {
        FakeUiSelector { ui, styles, asked: RefCell::new(Vec::new()) }
    }
}

impl UiSelector for FakeUiSelector {
    fn select_ui(&self) -> Result<UiChoice, SeedError> {
        self.asked.borrow_mut().push("ui".to_string());
        Ok(self.ui)
    }

    fn select_styles(&self) -> Result<StylesChoice, SeedError> {
        self.asked.borrow_mut().push("styles".to_string());
        Ok(self.styles)
    }

    fn select_package_manager(&self) -> Result<PackageManager, SeedError> {
        self.asked.borrow_mut().push("package manager".to_string());
        Ok(PackageManager::Npm)
    }

    fn select_architecture(&self) -> Result<ArchitectureProfile, SeedError> {
        self.asked.borrow_mut().push("architecture".to_string());
        Ok(ArchitectureProfile::Clean)
    }
}

struct FakeEnvironment {
    exists: bool,
    cwd: String,
    interactive: bool,
}

impl Environment for FakeEnvironment {
    fn project_exists(&self, _project_name: &str) -> bool {
        self.exists
    }

    fn current_dir(&self) -> Result<String, SeedError> {
        Ok(self.cwd.clone())
    }

    fn is_ci(&self) -> bool {
        false
    }

    fn is_interactive_terminal(&self) -> bool {
        self.interactive
    }
}

#[derive(Default)]
struct FakeSeeder {
    calls: RefCell<Vec<String>>,
    failing: Option<&'static str>,
    dirs: RefCell<Vec<String>>,
}

impl FakeSeeder {
    fn record(&self, call: &str) -> Result<(), SeedError> {
        self.calls.borrow_mut().push(call.to_string());
        if self.failing == Some(call) {
            Err(SeedError::Failure { message: format!("{call} broke") })
        } else {
            Ok(())
        }
    }
}

impl Seeder for FakeSeeder {
    fn ensure_required_tools(&self, _package_manager: PackageManager) -> Result<(), SeedError> {
        self.record("ensure_required_tools")
    }

    fn scaffold_angular_project(&self, _project_name: &str, _options: ResolvedOptions) -> Result<(), SeedError> {
        self.record("scaffold_angular_project")
    }

    fn apply_architecture_template(&self, project_dir: &str, _architecture: ArchitectureProfile) -> Result<(), SeedError> {
        self.dirs.borrow_mut().push(project_dir.to_string());
        self.record("apply_architecture_template")
    }

    fn apply_ui_integration(&self, _project_dir: &str, _ui: UiChoice, _package_manager: PackageManager) -> Result<(), SeedError> {
        self.record("apply_ui_integration")
    }

    fn apply_styles(&self, _project_dir: &str, _styles: StylesChoice, _package_manager: PackageManager) -> Result<(), SeedError> {
        self.record("apply_styles")
    }
}

#[derive(Default)]
struct FakeReporter {
    shown: RefCell<Vec<String>>,
}

impl ProgressReporter for FakeReporter {
    fn show_banner(&self) {
        self.shown.borrow_mut().push("banner".to_string());
    }

    fn stage_start(&self, stage: &str, message: &str) {
        self.shown.borrow_mut().push(format!("start {stage}: {message}"));
    }

    fn stage_ok(&self, stage: &str, message: &str) {
        self.shown.borrow_mut().push(format!("ok {stage}: {message}"));
    }

    fn stage_error(&self, stage: &str, message: &str) {
        self.shown.borrow_mut().push(format!("error {stage}: {message}"));
    }

    fn summary(&self, project_name: &str, project_dir: &str, options: ResolvedOptions) {
        self.shown
            .borrow_mut()
            .push(format!("summary {project_name} {project_dir} {:?}", options.package_manager));
    }
}

fn confirmed_request() -> NewProjectRequest {
    NewProjectRequest {
        project_name: "demo-app".to_string(),
        ui: None,
        styles: None,
        package_manager: Some(PackageManager::Npm),
        architecture: Some(ArchitectureProfile::Clean),
        skip_install: true,
        yes: true,
    }
}

#[test]
fn execute_runs_expected_flow() {
    let env = FakeEnvironment { exists: false, cwd: "/tmp".to_string(), interactive: true };
    let ui_selector = FakeUiSelector::new(UiChoice::NoUi, StylesChoice::NoStyles);
    let seeder = FakeSeeder::default();
    let reporter = FakeReporter::default();
    let use_case = NewProjectUseCase::new(&env, &ui_selector, &seeder, &reporter);

    use_case.execute(confirmed_request()).unwrap();

    assert_eq!(
        seeder.calls.borrow().clone(),
        vec![
            "ensure_required_tools",
            "scaffold_angular_project",
            "apply_architecture_template",
            "apply_ui_integration"
        ]
    );
}

#[test]
fn confirmed_run_reports_every_stage_and_the_summary() {
    let env = FakeEnvironment { exists: false, cwd: "/tmp".to_string(), interactive: true };
    let ui_selector = FakeUiSelector::new(UiChoice::NoUi, StylesChoice::NoStyles);
    let seeder = FakeSeeder::default();
    let reporter = FakeReporter::default();
    let use_case = NewProjectUseCase::new(&env, &ui_selector, &seeder, &reporter);

    use_case.execute(confirmed_request()).unwrap();

    assert!(ui_selector.asked.borrow().is_empty());
    assert_eq!(
        reporter.shown.borrow().clone(),
        vec![
            "start preflight: checking required tools",
            "ok preflight: required tools look good",
            "start scaffold: creating Angular project",
            "ok scaffold: Angular project created",
            "start template: applying architecture template",
            "ok template: architecture template applied",
            "start ui setup: applying selected UI integration",
            "ok ui setup: UI integration completed",
            "summary demo-app /tmp/demo-app Npm",
        ]
    );
    assert_eq!(seeder.dirs.borrow().clone(), vec!["/tmp/demo-app"]);
}

#[test]
fn existing_project_is_refused_before_scaffolding() {
    let env = FakeEnvironment { exists: true, cwd: "/tmp".to_string(), interactive: false };
    let ui_selector = FakeUiSelector::new(UiChoice::NoUi, StylesChoice::NoStyles);
    let seeder = FakeSeeder::default();
    let reporter = FakeReporter::default();
    let use_case = NewProjectUseCase::new(&env, &ui_selector, &seeder, &reporter);

    let error = use_case.execute(confirmed_request()).unwrap_err();

    assert!(matches!(&error, SeedError::ProjectExists { project_name } if project_name == "demo-app"));
    assert_eq!(
        error.message(),
        "project directory `demo-app` already exists. Choose a different project name."
    );
    assert_eq!(seeder.calls.borrow().clone(), vec!["ensure_required_tools"]);
}

#[test]
fn failing_template_stage_is_reported_and_stops_the_run() {
    let env = FakeEnvironment { exists: false, cwd: "/work".to_string(), interactive: false };
    let ui_selector = FakeUiSelector::new(UiChoice::NoUi, StylesChoice::NoStyles);
    let seeder = FakeSeeder { failing: Some("apply_architecture_template"), ..FakeSeeder::default() };
    let reporter = FakeReporter::default();
    let use_case = NewProjectUseCase::new(&env, &ui_selector, &seeder, &reporter);

    let error = use_case.execute(confirmed_request()).unwrap_err();

    assert_eq!(error.message(), "apply_architecture_template broke");
    assert_eq!(
        seeder.calls.borrow().clone(),
        vec!["ensure_required_tools", "scaffold_angular_project", "apply_architecture_template"]
    );
    assert_eq!(
        reporter.shown.borrow().last().unwrap().as_str(),
        "error template: template setup failed"
    );
}

#[test]
fn failing_tool_check_is_reported_as_preflight_error() {
    let env = FakeEnvironment { exists: false, cwd: "/work".to_string(), interactive: false };
    let ui_selector = FakeUiSelector::new(UiChoice::NoUi, StylesChoice::NoStyles);
    let seeder = FakeSeeder { failing: Some("ensure_required_tools"), ..FakeSeeder::default() };
    let reporter = FakeReporter::default();
    let use_case = NewProjectUseCase::new(&env, &ui_selector, &seeder, &reporter);

    assert!(use_case.execute(confirmed_request()).is_err());
    assert_eq!(
        reporter.shown.borrow().clone(),
        vec![
            "start preflight: checking required tools",
            "error preflight: required tool check failed",
        ]
    );
}

#[test]
fn unconfirmed_request_prompts_for_open_options_and_shows_banner() {
    let env = FakeEnvironment { exists: false, cwd: "/work".to_string(), interactive: true };
    let ui_selector = FakeUiSelector::new(UiChoice::Primeng, StylesChoice::NoStyles);
    let seeder = FakeSeeder::default();
    let reporter = FakeReporter::default();
    let use_case = NewProjectUseCase::new(&env, &ui_selector, &seeder, &reporter);

    let request = NewProjectRequest {
        project_name: "shop".to_string(),
        ui: None,
        styles: None,
        package_manager: Some(PackageManager::Yarn),
        architecture: None,
        skip_install: false,
        yes: false,
    };
    use_case.execute(request).unwrap();

    assert_eq!(ui_selector.asked.borrow().clone(), vec!["architecture", "ui", "styles"]);
    assert_eq!(reporter.shown.borrow()[0].as_str(), "banner");
    assert_eq!(
        reporter.shown.borrow().last().unwrap().as_str(),
        "summary shop /work/shop Yarn"
    );
}

#[test]
fn non_interactive_terminal_gets_no_banner() {
    let env = FakeEnvironment { exists: false, cwd: "/work".to_string(), interactive: false };
    let ui_selector = FakeUiSelector::new(UiChoice::Material, StylesChoice::NoStyles);
    let seeder = FakeSeeder::default();
    let reporter = FakeReporter::default();
    let use_case = NewProjectUseCase::new(&env, &ui_selector, &seeder, &reporter);

    let request = NewProjectRequest {
        project_name: "shop".to_string(),
        ui: Some(UiChoice::Material),
        styles: Some(StylesChoice::NoStyles),
        package_manager: Some(PackageManager::Pnpm),
        architecture: Some(ArchitectureProfile::Cdp),
        skip_install: false,
        yes: false,
    };
    use_case.execute(request).unwrap();

    assert!(ui_selector.asked.borrow().is_empty());
    assert!(!reporter.shown.borrow().iter().any(|line| line == "banner"));
}
