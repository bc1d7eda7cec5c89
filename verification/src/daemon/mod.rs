//! The node daemon: settings, tunnel sessions, message routing and SFTP transfers.
pub mod env;
pub mod error;
pub mod sessions;
pub mod routing;
pub mod sftp;
pub mod frames;
pub mod ssh;
pub mod ws;
