pub mod configuration;
pub mod decimal;
pub mod industruino;
pub mod json;
pub mod messages;
pub mod temperature;
pub mod text;
