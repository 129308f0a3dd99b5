pub mod config_file;
pub mod payload;
pub mod state;
