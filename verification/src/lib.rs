//! Configuration resolution for a service: selecting the active deployment
//! environment, locating a configuration file by walking upward from a
//! starting directory, building per-environment defaults, and parsing the
//! on-disk table format into typed settings.

pub mod conf;
pub mod env;
pub mod text;

pub use conf::config::Config;
pub use conf::config::Database;
pub use conf::error::ConfigError;
pub use conf::global_config::GlobalConfig;
pub use env::Env;
