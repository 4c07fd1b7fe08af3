use vstd::prelude::*;

use crate::domain::styles_choice::StylesChoice;

verus! {

/// UI component library integrated into the new project.
#[derive(Debug, Clone, Copy, PartialEq, Eq, Structural)]
pub enum UiChoice {
    Material,
    Primeng,
    /// No UI library.
    NoUi,
}

/// Package manager used to install dependencies and run the project.
#[derive(Debug, Clone, Copy, PartialEq, Eq, Structural)]
pub enum PackageManager {
    Npm,
    Pnpm,
    Yarn,
    Bun,
}

/// Layering applied to the generated `src/app` directory.
#[derive(Debug, Clone, Copy, PartialEq, Eq, Structural)]
pub enum ArchitectureProfile {
    /// domain / application / infrastructure / presentation
    Clean,
    /// core / data / presentation
    Cdp,
}

/// Every option of a new project, once command line, defaults and prompts
/// have all been taken into account.
#[derive(Debug, Clone, Copy, PartialEq, Eq, Structural)]
pub struct ResolvedOptions {
    pub ui: UiChoice,
    pub styles: StylesChoice,
    pub package_manager: PackageManager,
    pub architecture: ArchitectureProfile,
    pub skip_install: bool,
}

/// What the user asked for on the command line; `None` means "not given".
#[derive(Debug, Clone)]
pub struct NewProjectRequest {
    pub project_name: String,
    pub ui: Option<UiChoice>,
    pub styles: Option<StylesChoice>,
    pub package_manager: Option<PackageManager>,
    pub architecture: Option<ArchitectureProfile>,
    pub skip_install: bool,
    pub yes: bool,
}

} // verus!
