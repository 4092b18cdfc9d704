pub mod cli_interface;
pub mod config;
pub mod node;
pub mod services;
