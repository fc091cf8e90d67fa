pub mod commands;
pub mod config;
pub mod config_laws;
pub mod laws;
pub mod origin;
pub mod page_laws;
pub mod path;
pub mod state;
pub mod state_laws;
pub mod string_map;
pub mod tab_controller;
pub mod tab_manager;
pub mod text;
pub mod vault;
pub mod vault_laws;
pub mod window_controller;
