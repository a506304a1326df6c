pub mod constants;
pub mod general_config;
