//! A local game-library manager: a registry of installed games kept as one
//! record file per game, and the install, launch and uninstall steps that
//! keep the registry consistent with the install directories.
pub mod codec;
pub mod config;
pub mod error;
pub mod manager;
pub mod record;
pub mod store;
