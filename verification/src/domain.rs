pub mod project;
pub mod styles_choice;
pub mod tui_input;
