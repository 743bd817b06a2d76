//! GitSync: the configuration, state and synchronisation rules of a daemon
//! that mirrors every repository of a GitHub or GitLab account to local disk.

pub mod text;
pub mod config;
pub mod paths;
pub mod state;
pub mod sync;
pub mod daemon;
pub mod laws;
