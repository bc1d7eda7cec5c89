//! What the daemon does with each node frame it receives from the server.
use crate::daemon::sessions::{SFTPCommand, SSHCommand};
use crate::protocol::node::NodeFrameData;
use crate::protocol::sftp::SFTPDownloadChunk;
use vstd::prelude::*;

verus! {

/// What the daemon does in answer to a node frame.
#[derive(Clone, Debug, PartialEq, Eq)]
pub enum NodeAction {
    /// Open an SSH tunnel for connection `cid` with the given credentials.
    StartSsh { cid: u128, username: Option<String>, password: Option<String>, msg_id: Option<u32> },
    /// Open an SFTP tunnel for connection `cid` with the given credentials.
    StartSftp { cid: u128, username: Option<String>, password: Option<String>, msg_id: Option<u32> },
    /// Record the round trip of a ping, in milliseconds.
    RoundTrip { rtt: u64, sent_at: u64 },
    /// Close every tunnel and upload of connection `cid`.
    CloseConnection { cid: u128 },
    /// Send a command to the SSH session `(cid, sid)`.
    ToSsh { cid: u128, sid: u32, command: SSHCommand },
    /// Send a command to the SFTP session `(cid, sid)`.
    ToSftp { cid: u128, sid: u32, command: SFTPCommand },
    /// Tunnel data for a protocol that carries none; it is dropped.
    UnsupportedTunnelData { protocol: u8, sid: u32 },
    /// A frame the daemon does not handle; it is dropped.
    Ignore,
}

/// Whether the daemon can route `data`: an open-tunnel request must name protocol 0 (SSH)
/// or 1 (SFTP).
pub open spec fn routable(data: NodeFrameData) -> bool {
    match data {
        NodeFrameData::OpenTunnel { protocol, .. } => protocol <= 1,
        _ => true,
    }
}

/// What the daemon does in answer to `data`, received at `now` (milliseconds).
pub open spec fn routes_to(data: NodeFrameData, now: u64, r: NodeAction) -> bool {
    match data {
        NodeFrameData::SFTPDownloadChunkRequest { cid, sid, msg_id, download_id, chunk_index } => {
            r matches NodeAction::ToSftp { cid: c, sid: s, command: SFTPCommand::DownloadChunk { chunk, msg_id: m } }
                && c == cid && s == sid && m == msg_id && chunk.download_id == download_id
                && chunk.chunk_index == chunk_index && chunk.chunk_size == 0 && chunk.data@.len() == 0
        },
        _ => r == spec_route(data, now),
    }
}

/// What the daemon does in answer to `data`, for every frame but a chunk request.
pub open spec fn spec_route(data: NodeFrameData, now: u64) -> NodeAction {
    match data {
        NodeFrameData::OpenTunnel { protocol, cid, username, password, msg_id } => if protocol == 1 {
            NodeAction::StartSftp { cid, username, password, msg_id }
        } else {
            NodeAction::StartSsh { cid, username, password, msg_id }
        },
        NodeFrameData::Pong { sent_at } => NodeAction::RoundTrip {
            rtt: if now >= sent_at {
                (now - sent_at) as u64
            } else {
                0
            },
            sent_at,
        },
        NodeFrameData::ConnectionDisconnect { cid } => NodeAction::CloseConnection { cid },
        NodeFrameData::SSHWindowResize { cid, sid, cols, rows } => NodeAction::ToSsh {
            cid,
            sid,
            command: SSHCommand::Resize { cols, rows },
        },
        NodeFrameData::TunnelData { protocol, cid, sid, data } => if protocol == 0 {
            NodeAction::ToSsh { cid, sid, command: SSHCommand::Data(data) }
        } else {
            NodeAction::UnsupportedTunnelData { protocol, sid }
        },
        NodeFrameData::SFTPList { cid, path, sid, msg_id } => NodeAction::ToSftp {
            cid,
            sid,
            command: SFTPCommand::List(path, msg_id),
        },
        NodeFrameData::SFTPUploadStart { cid, sid, msg_id, upload } => NodeAction::ToSftp {
            cid,
            sid,
            command: SFTPCommand::UploadStart { upload, msg_id },
        },
        NodeFrameData::SFTPUpload { cid, sid, msg_id, chunk } => NodeAction::ToSftp {
            cid,
            sid,
            command: SFTPCommand::Upload { chunk, msg_id },
        },
        NodeFrameData::SFTPDownloadStart { cid, sid, msg_id, download } => NodeAction::ToSftp {
            cid,
            sid,
            command: SFTPCommand::DownloadStart { download, msg_id },
        },
        NodeFrameData::SFTPDownloadChunk { cid, sid, msg_id, chunk } => NodeAction::ToSftp {
            cid,
            sid,
            command: SFTPCommand::DownloadChunk { chunk, msg_id },
        },
        NodeFrameData::SFTPDelete { cid, sid, msg_id, data } => NodeAction::ToSftp {
            cid,
            sid,
            command: SFTPCommand::Delete { data, msg_id },
        },
        _ => NodeAction::Ignore,
    }
}

/// Decides what the daemon does in answer to a node frame received at `now` (milliseconds).
pub fn route_node_frame(data: NodeFrameData, now: u64) -> (r: NodeAction)
    requires
        routable(data),
    ensures
        routes_to(data, now, r),
        data matches NodeFrameData::OpenTunnel { protocol, cid, username, password, msg_id }
            ==> r == (if protocol == 0 {
            NodeAction::StartSsh { cid, username, password, msg_id }
        } else {
            NodeAction::StartSftp { cid, username, password, msg_id }
        }),
        data matches NodeFrameData::Pong { sent_at } ==> r matches NodeAction::RoundTrip {
            rtt,
            sent_at: s,
        } && s == sent_at && (now >= sent_at ==> rtt == now - sent_at) && (now < sent_at ==> rtt
            == 0),
        data matches NodeFrameData::ConnectionDisconnect { cid } ==> r == (NodeAction::CloseConnection {
            cid,
        }),
        data matches NodeFrameData::SSHWindowResize { cid, sid, cols, rows } ==> r == (NodeAction::ToSsh {
            cid,
            sid,
            command: SSHCommand::Resize { cols, rows },
        }),
        data matches NodeFrameData::TunnelData { protocol, cid, sid, data: d } ==> r == (if protocol
            == 0 {
            NodeAction::ToSsh { cid, sid, command: SSHCommand::Data(d) }
        } else {
            NodeAction::UnsupportedTunnelData { protocol, sid }
        }),
        data matches NodeFrameData::SFTPList { cid, path, sid, msg_id } ==> r == (NodeAction::ToSftp {
            cid,
            sid,
            command: SFTPCommand::List(path, msg_id),
        }),
        data matches NodeFrameData::SFTPUploadStart { cid, sid, msg_id, upload } ==> r == (NodeAction::ToSftp {
            cid,
            sid,
            command: SFTPCommand::UploadStart { upload, msg_id },
        }),
        data matches NodeFrameData::SFTPUpload { cid, sid, msg_id, chunk } ==> r == (NodeAction::ToSftp {
            cid,
            sid,
            command: SFTPCommand::Upload { chunk, msg_id },
        }),
        data matches NodeFrameData::SFTPDownloadStart { cid, sid, msg_id, download } ==> r == (NodeAction::ToSftp {
            cid,
            sid,
            command: SFTPCommand::DownloadStart { download, msg_id },
        }),
        data matches NodeFrameData::SFTPDownloadChunk { cid, sid, msg_id, chunk } ==> r == (NodeAction::ToSftp {
            cid,
            sid,
            command: SFTPCommand::DownloadChunk { chunk, msg_id },
        }),
        data matches NodeFrameData::SFTPDownloadChunkRequest { cid, sid, msg_id, download_id, chunk_index }
            ==> r matches NodeAction::ToSftp {
            cid: c,
            sid: s,
            command: SFTPCommand::DownloadChunk { chunk, msg_id: m },
        } && c == cid && s == sid && m == msg_id && chunk.download_id == download_id && chunk.chunk_index
            == chunk_index && chunk.chunk_size == 0 && chunk.data@.len() == 0,
        data matches NodeFrameData::SFTPDelete { cid, sid, msg_id, data: d } ==> r == (NodeAction::ToSftp {
            cid,
            sid,
            command: SFTPCommand::Delete { data: d, msg_id },
        }),
        (data is Heartbeat || data is Auth || data is AuthResponse || data is TunnelOpened
            || data is TunnelClosed || data is Ping || data is WebFrame) ==> r == NodeAction::Ignore,
{
    match data {
        NodeFrameData::OpenTunnel { protocol, cid, username, password, msg_id } => {
            if protocol == 1 {
                NodeAction::StartSftp { cid, username, password, msg_id }
            } else {
                NodeAction::StartSsh { cid, username, password, msg_id }
            }
        },
        NodeFrameData::Pong { sent_at } => NodeAction::RoundTrip { rtt: now.saturating_sub(sent_at), sent_at },
        NodeFrameData::ConnectionDisconnect { cid } => NodeAction::CloseConnection { cid },
        NodeFrameData::SSHWindowResize { cid, sid, cols, rows } => NodeAction::ToSsh {
            cid,
            sid,
            command: SSHCommand::Resize { cols, rows },
        },
        NodeFrameData::TunnelData { protocol, cid, sid, data } => {
            if protocol == 0 {
                NodeAction::ToSsh { cid, sid, command: SSHCommand::Data(data) }
            } else {
                NodeAction::UnsupportedTunnelData { protocol, sid }
            }
        },
        NodeFrameData::SFTPList { cid, path, sid, msg_id } => NodeAction::ToSftp {
            cid,
            sid,
            command: SFTPCommand::List(path, msg_id),
        },
        NodeFrameData::SFTPUploadStart { cid, sid, msg_id, upload } => NodeAction::ToSftp {
            cid,
            sid,
            command: SFTPCommand::UploadStart { upload, msg_id },
        },
        NodeFrameData::SFTPUpload { cid, sid, msg_id, chunk } => NodeAction::ToSftp {
            cid,
            sid,
            command: SFTPCommand::Upload { chunk, msg_id },
        },
        NodeFrameData::SFTPDownloadStart { cid, sid, msg_id, download } => NodeAction::ToSftp {
            cid,
            sid,
            command: SFTPCommand::DownloadStart { download, msg_id },
        },
        NodeFrameData::SFTPDownloadChunkRequest { cid, sid, msg_id, download_id, chunk_index } => {
            let chunk = SFTPDownloadChunk { download_id, chunk_index, chunk_size: 0, data: Vec::new() };
            NodeAction::ToSftp { cid, sid, command: SFTPCommand::DownloadChunk { chunk, msg_id } }
        },
        NodeFrameData::SFTPDownloadChunk { cid, sid, msg_id, chunk } => NodeAction::ToSftp {
            cid,
            sid,
            command: SFTPCommand::DownloadChunk { chunk, msg_id },
        },
        NodeFrameData::SFTPDelete { cid, sid, msg_id, data } => NodeAction::ToSftp {
            cid,
            sid,
            command: SFTPCommand::Delete { data, msg_id },
        },
        _ => NodeAction::Ignore,
    }
}

/// What the daemon does with each node frame, stated on the frame's own fields: an open
/// request starts a tunnel of its protocol with its credentials; a pong gives the time since
/// its stamp; a disconnect closes the connection; a resize goes to the SSH session as the
/// same columns and rows; SSH tunnel data goes to the SSH session; each SFTP request goes to
/// the SFTP session with its own fields; the other frames are ignored.
pub proof fn lemma_route_actions(data: NodeFrameData, now: u64, r: NodeAction)
    requires
        routable(data),
        routes_to(data, now, r),
    ensures
        data matches NodeFrameData::OpenTunnel { protocol, cid, username, password, msg_id }
            ==> r == (if protocol == 0 {
            NodeAction::StartSsh { cid, username, password, msg_id }
        } else {
            NodeAction::StartSftp { cid, username, password, msg_id }
        }),
        data matches NodeFrameData::Pong { sent_at } ==> r matches NodeAction::RoundTrip {
            rtt,
            sent_at: s,
        } && s == sent_at && (now >= sent_at ==> rtt == now - sent_at) && (now < sent_at ==> rtt
            == 0),
        data matches NodeFrameData::ConnectionDisconnect { cid } ==> r == (NodeAction::CloseConnection {
            cid,
        }),
        data matches NodeFrameData::SSHWindowResize { cid, sid, cols, rows } ==> r == (NodeAction::ToSsh {
            cid,
            sid,
            command: SSHCommand::Resize { cols, rows },
        }),
        data matches NodeFrameData::TunnelData { protocol, cid, sid, data: d } ==> r == (if protocol
            == 0 {
            NodeAction::ToSsh { cid, sid, command: SSHCommand::Data(d) }
        } else {
            NodeAction::UnsupportedTunnelData { protocol, sid }
        }),
        data matches NodeFrameData::SFTPList { cid, path, sid, msg_id } ==> r == (NodeAction::ToSftp {
            cid,
            sid,
            command: SFTPCommand::List(path, msg_id),
        }),
        data matches NodeFrameData::SFTPUploadStart { cid, sid, msg_id, upload } ==> r == (NodeAction::ToSftp {
            cid,
            sid,
            command: SFTPCommand::UploadStart { upload, msg_id },
        }),
        data matches NodeFrameData::SFTPUpload { cid, sid, msg_id, chunk } ==> r == (NodeAction::ToSftp {
            cid,
            sid,
            command: SFTPCommand::Upload { chunk, msg_id },
        }),
        data matches NodeFrameData::SFTPDownloadStart { cid, sid, msg_id, download } ==> r == (NodeAction::ToSftp {
            cid,
            sid,
            command: SFTPCommand::DownloadStart { download, msg_id },
        }),
        data matches NodeFrameData::SFTPDownloadChunk { cid, sid, msg_id, chunk } ==> r == (NodeAction::ToSftp {
            cid,
            sid,
            command: SFTPCommand::DownloadChunk { chunk, msg_id },
        }),
        data matches NodeFrameData::SFTPDownloadChunkRequest { cid, sid, msg_id, download_id, chunk_index }
            ==> r matches NodeAction::ToSftp {
            cid: c,
            sid: s,
            command: SFTPCommand::DownloadChunk { chunk, msg_id: m },
        } && c == cid && s == sid && m == msg_id && chunk.download_id == download_id && chunk.chunk_index
            == chunk_index && chunk.chunk_size == 0 && chunk.data@.len() == 0,
        data matches NodeFrameData::SFTPDelete { cid, sid, msg_id, data: d } ==> r == (NodeAction::ToSftp {
            cid,
            sid,
            command: SFTPCommand::Delete { data: d, msg_id },
        }),
        (data is Heartbeat || data is Auth || data is AuthResponse || data is TunnelOpened
            || data is TunnelClosed || data is Ping || data is WebFrame) ==> r == NodeAction::Ignore,
{
}

} // verus!
