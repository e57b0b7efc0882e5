pub mod cli;
pub mod config;
pub mod exec;
pub mod forms;
pub mod fs;
pub mod log;
pub mod logger;
pub mod path;
pub mod projects;
pub mod state;
pub mod text;
pub mod tui;
