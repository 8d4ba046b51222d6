//! Scaffolding of on-chain program projects and upkeep of the program
//! identity that their generated source declares.

pub mod clean;
pub mod commands;
pub mod content;
pub mod deploy;
pub mod error;
pub mod init;
pub mod keys;
pub mod project;
pub mod render;
pub mod scaffold;
pub mod search;
pub mod templates;
pub mod text;
pub mod tool;
