pub mod ports;
pub mod use_cases;
