pub mod path;
pub mod pattern;
pub mod termsfx_config;
pub mod termsfx_config_loader;
pub mod termsfx_config_source;
