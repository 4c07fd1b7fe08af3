use vstd::prelude::*;

use crate::domain::project::ArchitectureProfile;
use crate::domain::project::PackageManager;
use crate::domain::project::ResolvedOptions;
use crate::domain::project::UiChoice;
use crate::domain::styles_choice::StylesChoice;
use crate::error::SeedError;

verus! {

/// Interactive choice of the options a request leaves open.
pub trait UiSelector {
    fn select_ui(&self) -> Result<UiChoice, SeedError>;

    fn select_styles(&self) -> Result<StylesChoice, SeedError>;

    fn select_package_manager(&self) -> Result<PackageManager, SeedError>;

    fn select_architecture(&self) -> Result<ArchitectureProfile, SeedError>;
}

/// Facts about the machine the tool runs on.
pub trait Environment {
    /// Whether something already exists at the project's path.
    fn project_exists(&self, project_name: &str) -> bool;

    /// The working directory, as text.
    fn current_dir(&self) -> Result<String, SeedError>;

    /// Whether the tool runs under continuous integration.
    fn is_ci(&self) -> bool;

    /// Whether standard output is an interactive terminal.
    fn is_interactive_terminal(&self) -> bool;
}

/// The work that creates and shapes a project on disk.
pub trait Seeder {
    fn ensure_required_tools(&self, package_manager: PackageManager) -> Result<(), SeedError>;

    fn scaffold_angular_project(&self, project_name: &str, options: ResolvedOptions) -> Result<(), SeedError>;

    fn apply_architecture_template(
        &self,
        project_dir: &str,
        architecture: ArchitectureProfile,
    ) -> Result<(), SeedError>;

    fn apply_ui_integration(
        &self,
        project_dir: &str,
        ui: UiChoice,
        package_manager: PackageManager,
    ) -> Result<(), SeedError>;

    fn apply_styles(
        &self,
        project_dir: &str,
        styles: StylesChoice,
        package_manager: PackageManager,
    ) -> Result<(), SeedError>;
}

/// Where the progress of a run is shown.
pub trait ProgressReporter {
    fn show_banner(&self);

    fn stage_start(&self, stage: &str, message: &str);

    fn stage_ok(&self, stage: &str, message: &str);

    fn stage_error(&self, stage: &str, message: &str);

    fn summary(&self, project_name: &str, project_dir: &str, options: ResolvedOptions);
}

} // verus!
