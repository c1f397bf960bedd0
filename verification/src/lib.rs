//! Resolution of release assets and the decisions of an atomic install.
//!
//! The library holds the rules by which a tool's latest release is turned
//! into one installed executable: version parsing and ordering, path
//! matchers, the synthesis of matchers for the current platform, the choice
//! of one asset and one binary, the classification of a download by its
//! name, and the install and upgrade decisions. Everything that touches the
//! network, the file system or a child process is left to the caller, which
//! hands in plain values and performs the actions that come back.

pub mod text;
pub mod util;
pub mod version;
pub mod matcher;
pub mod project;
pub mod release;
pub mod download;
pub mod tool;
pub mod install;
pub mod github;
pub mod list;
pub mod config;
pub mod uninstall;
pub mod file_types;
pub mod cli;
