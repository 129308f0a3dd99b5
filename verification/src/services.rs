pub mod file_service;
