pub mod binder;
pub mod commands;
pub mod decimal;
pub mod dispatcher;
pub mod hex;
pub mod models;
pub mod packer;
pub mod report;
pub mod runner;
pub mod selector;
pub mod services;
pub mod table;
pub mod text;
