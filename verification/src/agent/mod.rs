//! The login agent: its stored credentials and SSH settings.
pub mod auth;
pub mod creds;
pub mod login;
