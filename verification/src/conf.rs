//! Configuration records, their defaults, the error taxonomy, the file
//! locator, and the table parser.

pub mod config;
pub mod global_config;
pub mod error;
pub mod paths;
pub mod table;
