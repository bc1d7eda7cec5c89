//! Verified core of a reverse-tunnelling gateway: wire framing, control
//! messages, credentials, session bookkeeping and SFTP transfer rules.
#![allow(unused_imports)]

pub mod wire;
pub mod text;
pub mod token;
pub mod stats;
pub mod protocol;
pub mod control;
pub mod channel;
pub mod ids;
pub mod env;
pub mod table;
pub mod daemon;
pub mod agent;
pub mod relay;
pub mod ip;
pub mod console;
