pub mod api;
pub mod config;
pub mod errors;
pub mod json;
pub mod wire;
