pub mod configuration;
pub mod disks;
pub mod dotnet;
pub mod music;
pub mod open_app;
pub mod plugin_config;
pub mod plugin_system;
pub mod shared_plugin_system;
pub mod shell;
pub mod str_map;
pub mod text;
pub mod usecases;
