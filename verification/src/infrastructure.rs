pub mod system_seeder;
pub mod templates;
pub mod angular_json;
pub mod console_progress_reporter;
pub mod dialoguer_ui_selector;
pub mod template_laws;
pub mod seeder_laws;
