//! Errors of the daemon's tunnels.
use vstd::prelude::*;

verus! {

/// An error of the daemon. The errors of outside libraries are held as the text they
/// display.
#[derive(Clone, Debug, PartialEq, Eq)]
pub enum DaemonError {
    /// An SSH protocol error.
    Russh(String),
    /// An SFTP protocol error.
    RusshSFTP(String),
    /// Any other error with a message.
    Anyhow(String),
    /// An error that is only a fixed message.
    Other(&'static str),
}

/// Fails with the fixed message `msg`.
pub fn message_error<T>(msg: &'static str) -> (r: Result<T, DaemonError>)
    ensures
        r matches Err(DaemonError::Other(m)) && m@ == msg@,
{
    Err(DaemonError::Other(msg))
}

} // verus!
