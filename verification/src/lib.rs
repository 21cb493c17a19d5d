//! Pipeline core for recording directories: the stage of a recording is
//! inferred from what its directory holds, and advanced one step at a time.

pub mod commands;
pub mod config;
pub mod file_scanner;
pub mod file_sizes;
pub mod models;
pub mod operations;
pub mod paths;
pub mod process_runner;
pub mod rename;
pub mod snapshot;
pub mod status_detector;
pub mod text;
pub mod video;
