//! Configuration resolution and per-language format dispatch for a plugin
//! that drives the Biome formatting engine.

pub mod config_map;
pub mod configuration;
pub mod engine;
pub mod format_text;
pub mod laws;
pub mod plugin;
pub mod resolve_config;
pub mod text;
pub mod values;

pub use config_map::{
    ConfigKeyMap, ConfigKeyValue, ConfigurationDiagnostic, GlobalConfiguration, NewLineKind,
};
pub use configuration::Configuration;
pub use format_text::{format_text, FormatError};
pub use plugin::BiomePluginHandler;
pub use resolve_config::ResolveConfigurationResult;
