//! Frames sent between the web client and the server.
use crate::protocol::common::FrameError;
use vstd::prelude::*;

verus! {

/// A message between the web client and the server.
#[derive(Clone, Debug, PartialEq, Eq)]
pub enum WebFrameData {
    /// Sent by the web client to keep the connection alive.
    Heartbeat,
    /// Asks to open a tunnel of `protocol` to the node named `target`.
    OpenTunnel {
        protocol: u8,
        target: String,
        msg_id: Option<u64>,
        username: Option<String>,
        password: Option<String>,
    },
    /// Tells the web client that tunnel `sid` is open.
    TunnelOpened { protocol: u8, sid: u64, msg_id: Option<u64> },
    /// Tunnel bytes, in either direction.
    TunnelData { target: String, sid: u64, data: Vec<u8>, msg_id: Option<u64> },
    /// Tells the web client that tunnel `sid` is closed.
    TunnelClosed { sid: u64, msg_id: Option<u64> },
    /// Asks to resize the terminal of SSH tunnel `sid`.
    SSHWindowResize { target: String, sid: u64, cols: u32, rows: u32, msg_id: Option<u64> },
    /// Reports an error.
    Error { kind: FrameError, message: String, msg_id: Option<u64> },
}

/// The frame code of each kind of web message.
pub open spec fn spec_web_code(d: WebFrameData) -> u8 {
    match d {
        WebFrameData::Heartbeat => 10,
        WebFrameData::OpenTunnel { .. } => 20,
        WebFrameData::TunnelOpened { .. } => 21,
        WebFrameData::TunnelData { .. } => 22,
        WebFrameData::TunnelClosed { .. } => 23,
        WebFrameData::SSHWindowResize { .. } => 30,
        WebFrameData::Error { .. } => 50,
    }
}

impl WebFrameData {
    /// The frame code that says what kind of message this is.
    pub fn code(&self) -> (r: u8)
        ensures
            r == spec_web_code(*self),
    {
        match self {
            WebFrameData::Heartbeat => 10,
            WebFrameData::OpenTunnel { .. } => 20,
            WebFrameData::TunnelOpened { .. } => 21,
            WebFrameData::TunnelData { .. } => 22,
            WebFrameData::TunnelClosed { .. } => 23,
            WebFrameData::SSHWindowResize { .. } => 30,
            WebFrameData::Error { .. } => 50,
        }
    }
}

} // verus!
