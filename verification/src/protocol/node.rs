//! Frames sent between the server and a node.
use crate::protocol::sftp::{
    SFTPDelete, SFTPDownloadChunk, SFTPDownloadStart, SFTPUploadChunk, SFTPUploadStart,
};
use crate::protocol::web::WebFrameData;
use crate::stats::Stats;
use vstd::prelude::*;

verus! {

/// Whom a web frame relayed by a node is for: a tunnel session, or a web connection
/// (its ULID, as the 128-bit number it stands for).
#[derive(Clone, Copy, Debug, PartialEq, Eq, Structural)]
pub enum WebFrameId {
    SessionId(u32),
    ConnectionId(u128),
}

/// A message between the server and a node. Connection ids (`cid`) and node ids are ULIDs,
/// held as the 128-bit numbers they stand for.
#[derive(Clone, Debug, PartialEq, Eq)]
#[allow(inconsistent_fields)]
pub enum NodeFrameData {
    Heartbeat { stats: Stats },
    Auth { token: String, node_id: Option<u128>, version: String },
    AuthResponse { node_id: u128, success: bool, version: String },
    OpenTunnel {
        protocol: u8,
        cid: u128,
        username: Option<String>,
        password: Option<String>,
        msg_id: Option<u32>,
    },
    TunnelOpened { protocol: u8, cid: u128, sid: u32, msg_id: Option<u32> },
    TunnelData { protocol: u8, cid: u128, sid: u32, data: Vec<u8> },
    TunnelClosed { protocol: u8, cid: u128, sid: u32, msg_id: Option<u32> },
    SSHWindowResize { cid: u128, sid: u32, cols: u32, rows: u32 },
    SFTPList { cid: u128, path: String, sid: u32, msg_id: Option<u32> },
    SFTPDownloadStart { cid: u128, sid: u32, msg_id: Option<u32>, download: SFTPDownloadStart },
    SFTPDownloadChunkRequest {
        cid: u128,
        sid: u32,
        msg_id: Option<u32>,
        download_id: u32,
        chunk_index: u32,
    },
    SFTPDownloadChunk { cid: u128, sid: u32, msg_id: Option<u32>, chunk: SFTPDownloadChunk },
    SFTPUploadStart { cid: u128, sid: u32, msg_id: Option<u32>, upload: SFTPUploadStart },
    SFTPUpload { cid: u128, sid: u32, msg_id: Option<u32>, chunk: SFTPUploadChunk },
    SFTPDelete { cid: u128, sid: u32, msg_id: Option<u32>, data: SFTPDelete },
    Ping { sent_at: u64 },
    Pong { sent_at: u64 },
    WebFrame { frame: WebFrameData, id: WebFrameId },
    ConnectionDisconnect { cid: u128 },
}

/// The frame code of each kind of node message.
pub open spec fn spec_node_code(d: NodeFrameData) -> u8 {
    match d {
        NodeFrameData::Heartbeat { .. } => 1,
        NodeFrameData::Auth { .. } => 10,
        NodeFrameData::AuthResponse { .. } => 11,
        NodeFrameData::OpenTunnel { .. } => 20,
        NodeFrameData::TunnelOpened { .. } => 21,
        NodeFrameData::TunnelData { .. } => 22,
        NodeFrameData::TunnelClosed { .. } => 23,
        NodeFrameData::SSHWindowResize { .. } => 30,
        NodeFrameData::SFTPList { .. } => 31,
        NodeFrameData::SFTPDownloadStart { .. } => 32,
        NodeFrameData::SFTPDownloadChunkRequest { .. } => 33,
        NodeFrameData::SFTPDownloadChunk { .. } => 34,
        NodeFrameData::SFTPUploadStart { .. } => 35,
        NodeFrameData::SFTPUpload { .. } => 36,
        NodeFrameData::SFTPDelete { .. } => 37,
        NodeFrameData::Ping { .. } => 40,
        NodeFrameData::Pong { .. } => 41,
        NodeFrameData::WebFrame { .. } => 50,
        NodeFrameData::ConnectionDisconnect { .. } => 60,
    }
}

impl NodeFrameData {
    /// The frame code that says what kind of message this is.
    pub fn code(&self) -> (r: u8)
        ensures
            r == spec_node_code(*self),
    {
        match self {
            NodeFrameData::Heartbeat { .. } => 1,
            NodeFrameData::Auth { .. } => 10,
            NodeFrameData::AuthResponse { .. } => 11,
            NodeFrameData::OpenTunnel { .. } => 20,
            NodeFrameData::TunnelOpened { .. } => 21,
            NodeFrameData::TunnelData { .. } => 22,
            NodeFrameData::TunnelClosed { .. } => 23,
            NodeFrameData::SSHWindowResize { .. } => 30,
            NodeFrameData::SFTPList { .. } => 31,
            NodeFrameData::SFTPDownloadStart { .. } => 32,
            NodeFrameData::SFTPDownloadChunkRequest { .. } => 33,
            NodeFrameData::SFTPDownloadChunk { .. } => 34,
            NodeFrameData::SFTPUploadStart { .. } => 35,
            NodeFrameData::SFTPUpload { .. } => 36,
            NodeFrameData::SFTPDelete { .. } => 37,
            NodeFrameData::Ping { .. } => 40,
            NodeFrameData::Pong { .. } => 41,
            NodeFrameData::WebFrame { .. } => 50,
            NodeFrameData::ConnectionDisconnect { .. } => 60,
        }
    }
}

/// Different kinds of node message carry different frame codes.
pub proof fn lemma_node_codes_distinguish_kinds(a: NodeFrameData, b: NodeFrameData)
    requires
        spec_node_code(a) == spec_node_code(b),
    ensures
        same_node_kind(a, b),
{
}

/// Whether two node messages are of the same kind.
pub open spec fn same_node_kind(a: NodeFrameData, b: NodeFrameData) -> bool {
    match (a, b) {
        (NodeFrameData::Heartbeat { .. }, NodeFrameData::Heartbeat { .. }) => true,
        (NodeFrameData::Auth { .. }, NodeFrameData::Auth { .. }) => true,
        (NodeFrameData::AuthResponse { .. }, NodeFrameData::AuthResponse { .. }) => true,
        (NodeFrameData::OpenTunnel { .. }, NodeFrameData::OpenTunnel { .. }) => true,
        (NodeFrameData::TunnelOpened { .. }, NodeFrameData::TunnelOpened { .. }) => true,
        (NodeFrameData::TunnelData { .. }, NodeFrameData::TunnelData { .. }) => true,
        (NodeFrameData::TunnelClosed { .. }, NodeFrameData::TunnelClosed { .. }) => true,
        (NodeFrameData::SSHWindowResize { .. }, NodeFrameData::SSHWindowResize { .. }) => true,
        (NodeFrameData::SFTPList { .. }, NodeFrameData::SFTPList { .. }) => true,
        (NodeFrameData::SFTPDownloadStart { .. }, NodeFrameData::SFTPDownloadStart { .. }) => true,
        (
            NodeFrameData::SFTPDownloadChunkRequest { .. },
            NodeFrameData::SFTPDownloadChunkRequest { .. },
        ) => true,
        (NodeFrameData::SFTPDownloadChunk { .. }, NodeFrameData::SFTPDownloadChunk { .. }) => true,
        (NodeFrameData::SFTPUploadStart { .. }, NodeFrameData::SFTPUploadStart { .. }) => true,
        (NodeFrameData::SFTPUpload { .. }, NodeFrameData::SFTPUpload { .. }) => true,
        (NodeFrameData::SFTPDelete { .. }, NodeFrameData::SFTPDelete { .. }) => true,
        (NodeFrameData::Ping { .. }, NodeFrameData::Ping { .. }) => true,
        (NodeFrameData::Pong { .. }, NodeFrameData::Pong { .. }) => true,
        (NodeFrameData::WebFrame { .. }, NodeFrameData::WebFrame { .. }) => true,
        (
            NodeFrameData::ConnectionDisconnect { .. },
            NodeFrameData::ConnectionDisconnect { .. },
        ) => true,
        _ => false,
    }
}

} // verus!
