pub mod new_project;
pub mod new_project_laws;
