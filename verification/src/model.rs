pub mod config_model;
pub mod context;
pub mod file_model;
pub mod watched_var;
pub mod resource_cache;
pub mod save_file_model;
