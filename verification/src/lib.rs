//! Linux workspace management for Soter: Soterspace names and paths, the
//! session a namespace runtime starts, integrity checks, the tool installer
//! and the command line, each with its contract; and the boundaries of the
//! subsystems that hosts implement.

pub mod text;
pub mod paths;

pub mod browser;
pub mod discovery;
pub mod hardening;
pub mod network;
pub mod packages;
pub mod recovery;
pub mod services;
pub mod verification;
pub mod vpn;

pub mod cli;
pub mod integrity;
pub mod session;
pub mod listing;
pub mod soterspace;
pub mod tooling;
