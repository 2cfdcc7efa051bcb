//! Scan engine of a disk clean-up tool: findings and reports, safety
//! classification, scanner rules, the directory-usage explorer and the
//! execution of clean-ups, each with a machine-checked contract.

pub mod cleaner;
pub mod cli;
pub mod collections;
pub mod config;
pub mod decimal;
pub mod digest;
pub mod history;
pub mod mcp;
pub mod metadata;
pub mod output;
pub mod paths;
pub mod plists;
pub mod plugin;
pub mod safety;
pub mod scanner;
pub mod search;
pub mod sorting;
pub mod split;
pub mod text;
pub mod time;
pub mod trim;
pub mod tui;
pub mod uninstaller;
pub mod utils;
