//! Lifecycle management for the Codex command-line tool: which release to
//! install, for which platform, how the downloaded archive is unpacked, and
//! what the staged installation reports while it runs.

pub mod archive;
pub mod config;
pub mod error;
pub mod install;
pub mod platform;
pub mod release;
pub mod status;
pub mod text;
pub mod version;
