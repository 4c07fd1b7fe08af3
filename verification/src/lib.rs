//! Verified core of `ngseed`, a scaffolder for Angular projects laid out in
//! layers (domain, application, infrastructure, presentation).

pub mod application;
pub mod domain;
pub mod error;
pub mod text;
pub mod infrastructure;
pub mod interfaces;
