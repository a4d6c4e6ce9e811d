//! Per-application profiles for a peripheral-configuration tool, and keyboard
//! remapping that follows the foreground application.

pub mod callbacks;
pub mod config;
pub mod extract;
pub mod interface;
pub mod objects;
pub mod processes;
pub mod remapper;
pub mod seqs;
pub mod settings;
pub mod text;
pub mod types;
pub mod ui;
pub mod utils;
