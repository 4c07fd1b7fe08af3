use vstd::prelude::*;

use crate::domain::project::PackageManager;
use crate::domain::project::UiChoice;
use crate::domain::styles_choice::StylesChoice;

verus! {

/// Answers collected by an interactive front end, filled in one by one.
pub struct TuiInput {
    pub project_name: Option<String>,
    pub package_manager: Option<PackageManager>,
    pub ui_choice: Option<UiChoice>,
    pub styles_choice: Option<StylesChoice>,
    pub skip_install: bool,
}

impl TuiInput {
    /// Nothing answered yet, and dependencies are installed.
    pub open spec fn blank() -> TuiInput {
        TuiInput {
            project_name: None,
            package_manager: None,
            ui_choice: None,
            styles_choice: None,
            skip_install: false,
        }
    }

    pub fn new() -> (input: Self)
        ensures
            input == Self::blank(),
    {
        Self {
            project_name: None,
            package_manager: None,
            ui_choice: None,
            styles_choice: None,
            skip_install: false,
        }
    }

    pub fn with_project_name(self, name: String) -> (input: Self)
        ensures
            input == (TuiInput { project_name: Some(name), ..self }),
    {
        TuiInput { project_name: Some(name), ..self }
    }

    pub fn with_package_manager(self, pm: PackageManager) -> (input: Self)
        ensures
            input == (TuiInput { package_manager: Some(pm), ..self }),
    {
        TuiInput { package_manager: Some(pm), ..self }
    }

    pub fn with_ui_choice(self, ui: UiChoice) -> (input: Self)
        ensures
            input == (TuiInput { ui_choice: Some(ui), ..self }),
    {
        TuiInput { ui_choice: Some(ui), ..self }
    }

    pub fn with_styles_choice(self, styles: StylesChoice) -> (input: Self)
        ensures
            input == (TuiInput { styles_choice: Some(styles), ..self }),
    {
        TuiInput { styles_choice: Some(styles), ..self }
    }

    pub fn with_skip_install(self, skip: bool) -> (input: Self)
        ensures
            input == (TuiInput { skip_install: skip, ..self }),
    {
        TuiInput { skip_install: skip, ..self }
    }
}

impl Default for TuiInput {
    fn default() -> (input: Self)
        ensures
            input == TuiInput::blank(),
    {
        Self::new()
    }
}

} // verus!
