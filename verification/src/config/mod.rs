//! The settings of a run, resolved from the command line, the settings
//! file and the surroundings.

pub mod loader;
pub mod toml;

pub use loader::Config;
pub use toml::TomlConfig;
