use ngseed::domain::project::ArchitectureProfile;
use ngseed::domain::project::NewProjectRequest;
use ngseed::domain::project::PackageManager;
use ngseed::domain::project::ResolvedOptions;
use ngseed::domain::project::UiChoice;
use ngseed::domain::styles_choice::StylesChoice;
use ngseed::domain::tui_input::TuiInput;
use ngseed::error::SeedError;
use ngseed::infrastructure::console_progress_reporter::architecture_label;
use ngseed::infrastructure::console_progress_reporter::package_manager_label;
use ngseed::infrastructure::console_progress_reporter::summary_of;
use ngseed::infrastructure::console_progress_reporter::ui_label;
use ngseed::infrastructure::dialoguer_ui_selector::architecture_choice_at;
use ngseed::infrastructure::dialoguer_ui_selector::architecture_selection_items;
use ngseed::infrastructure::dialoguer_ui_selector::package_manager_choice_at;
use ngseed::infrastructure::dialoguer_ui_selector::package_manager_selection_items;
use ngseed::infrastructure::dialoguer_ui_selector::ui_choice_at;
use ngseed::infrastructure::dialoguer_ui_selector::ui_selection_items;
use ngseed::interfaces::cli::map_cli_to_command;
use ngseed::interfaces::cli::AppCommand;
use ngseed::interfaces::cli::Cli;
use ngseed::interfaces::cli::Commands;
use ngseed::interfaces::cli::NewCommand;

#[test]
fn labels_name_each_choice() {
    assert_eq!(ui_label(UiChoice::Material), "material");
    assert_eq!(ui_label(UiChoice::Primeng), "primeng");
    assert_eq!(ui_label(UiChoice::NoUi), "none");
    assert_eq!(package_manager_label(PackageManager::Bun), "bun");
    assert_eq!(architecture_label(ArchitectureProfile::Clean), "clean");
    assert_eq!(architecture_label(ArchitectureProfile::Cdp), "cdp");
}

#[test]
fn summary_lists_options_and_next_steps() {
    let summary = summary_of(
        "shop",
        "/work/shop",
        ResolvedOptions {
            ui: UiChoice::Primeng,
            styles: StylesChoice::NoStyles,
            package_manager: PackageManager::Pnpm,
            architecture: ArchitectureProfile::Cdp,
            skip_install: true,
        },
    );
    assert_eq!(summary.project, "shop");
    assert_eq!(summary.path, "/work/shop");
    assert_eq!(summary.ui, "primeng");
    assert_eq!(summary.package_manager, "pnpm");
    assert_eq!(summary.architecture, "cdp");
    assert_eq!(summary.skip_install, "yes");
    assert_eq!(summary.next_steps, vec!["  cd shop".to_string(), "  pnpm start".to_string()]);
}

#[test]
fn selection_positions_map_to_choices() {
    assert_eq!(ui_selection_items(), vec!["None", "Angular Material", "PrimeNG"]);
    assert_eq!(ui_choice_at(0), UiChoice::NoUi);
    assert_eq!(ui_choice_at(1), UiChoice::Material);
    assert_eq!(ui_choice_at(2), UiChoice::Primeng);
    assert_eq!(ui_choice_at(7), UiChoice::NoUi);
    assert_eq!(package_manager_selection_items(), vec!["npm", "pnpm", "yarn", "bun"]);
    assert_eq!(package_manager_choice_at(2), PackageManager::Yarn);
    assert_eq!(package_manager_choice_at(3), PackageManager::Bun);
    assert_eq!(package_manager_choice_at(9), PackageManager::Npm);
    assert_eq!(architecture_selection_items(), vec!["clean", "cdp"]);
    assert_eq!(architecture_choice_at(1), ArchitectureProfile::Cdp);
    assert_eq!(architecture_choice_at(5), ArchitectureProfile::Clean);
}

#[test]
fn map_cli_to_command_keeps_all_flags() {
    let cli = Cli {
        command: Commands::New(NewCommand {
            project_name: "demo".to_string(),
            ui: Some(UiChoice::Primeng),
            package_manager: Some(PackageManager::Pnpm),
            skip_install: true,
            yes: true,
        }),
    };
    let AppCommand::New(request) = map_cli_to_command(cli);
    assert_eq!(request.project_name, "demo");
    assert_eq!(request.ui, Some(UiChoice::Primeng));
    assert_eq!(request.package_manager, Some(PackageManager::Pnpm));
    assert_eq!(request.styles, None);
    assert_eq!(request.architecture, None);
    assert!(request.skip_install);
    assert!(request.yes);
}

#[test]
fn tui_input_builders_set_one_field_each() {
    let input = TuiInput::new()
        .with_project_name("demo".to_string())
        .with_package_manager(PackageManager::Bun)
        .with_ui_choice(UiChoice::Material)
        .with_styles_choice(StylesChoice::NoStyles)
        .with_skip_install(true);
    assert_eq!(input.project_name.as_deref(), Some("demo"));
    assert_eq!(input.package_manager, Some(PackageManager::Bun));
    assert_eq!(input.ui_choice, Some(UiChoice::Material));
    assert_eq!(input.styles_choice, Some(StylesChoice::NoStyles));
    assert!(input.skip_install);

    let blank = TuiInput::default();
    assert!(blank.project_name.is_none());
    assert!(blank.package_manager.is_none());
    assert!(blank.ui_choice.is_none());
    assert!(blank.styles_choice.is_none());
    assert!(!blank.skip_install);

    let renamed = TuiInput::new().with_project_name("a".to_string()).with_project_name("b".to_string());
    assert_eq!(renamed.project_name.as_deref(), Some("b"));
}

#[test]
fn error_messages_chain_their_causes() {
    let error = SeedError::ToolRequired {
        tool: "node".to_string(),
        source: Box::new(SeedError::Failure { message: "command failed: node --version".to_string() }),
    };
    assert_eq!(
        error.message(),
        "`node` is required. Install it and retry.: command failed: node --version"
    );
}

#[test]
fn request_fields_are_plain_data() {
    let request = NewProjectRequest {
        project_name: "x".to_string(),
        ui: None,
        styles: None,
        package_manager: None,
        architecture: None,
        skip_install: false,
        yes: false,
    };
    let copy = request.clone();
    assert_eq!(copy.project_name, "x");
}
