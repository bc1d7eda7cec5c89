//! The daemon's connection to the server: authentication, keep-alive frames and the
//! frames that report how a tunnel ended.
use crate::daemon::frames::{session_error_frame, tunnel_closed_frame, widen_msg_id};
use crate::protocol::common::{Frame, FrameData, FrameEncoding, FrameError, FRAME_VERSION};
use crate::protocol::node::{NodeFrameData, WebFrameId};
use crate::protocol::web::WebFrameData;
use crate::protocol::{spec_protocol_code, Protocol};
use crate::stats::Stats;
use vstd::prelude::*;

verus! {

/// Why the server did not accept the daemon.
#[derive(Clone, Debug, PartialEq, Eq)]
pub enum AuthError {
    /// No node frame came back.
    NoResponse,
    /// The frame that came back is not an authentication response.
    WrongFrame(NodeFrameData),
    /// The server refused the daemon.
    Rejected,
}

/// The frame the daemon authenticates with.
pub fn auth_frame(token: String, node_id: Option<u128>, version: String) -> (r: Frame)
    ensures
        r == Frame::spec_node(NodeFrameData::Auth { token, node_id, version }),
{
    Frame::from_node(NodeFrameData::Auth { token, node_id, version })
}

/// The node id and server version the server's answer to authentication gives, or why the
/// daemon is not accepted.
pub fn check_auth_response(frame: Option<NodeFrameData>) -> (r: Result<(u128, String), AuthError>)
    ensures
        match frame {
            None => r == Err::<(u128, String), AuthError>(AuthError::NoResponse),
            Some(NodeFrameData::AuthResponse { node_id, success, version }) => if success {
                r == Ok::<(u128, String), AuthError>((node_id, version))
            } else {
                r == Err::<(u128, String), AuthError>(AuthError::Rejected)
            },
            Some(other) => r == Err::<(u128, String), AuthError>(AuthError::WrongFrame(other)),
        },
{
    match frame {
        None => Err(AuthError::NoResponse),
        Some(NodeFrameData::AuthResponse { node_id, success, version }) => {
            if success {
                Ok((node_id, version))
            } else {
                Err(AuthError::Rejected)
            }
        },
        Some(other) => Err(AuthError::WrongFrame(other)),
    }
}

/// The node message a frame from the server carries; a web message there is refused.
pub fn node_data(data: FrameData) -> (r: Option<NodeFrameData>)
    ensures
        r == (match data {
            FrameData::Node(n) => Some(n),
            FrameData::Web(_) => None,
        }),
{
    match data {
        FrameData::Node(n) => Some(n),
        FrameData::Web(_) => None,
    }
}

/// The keep-alive ping, stamped with the time it is sent (milliseconds).
pub fn ping_frame(sent_at: u64) -> (r: Frame)
    ensures
        r == Frame::spec_node(NodeFrameData::Ping { sent_at }),
{
    Frame::from_node(NodeFrameData::Ping { sent_at })
}

/// The heartbeat carrying the daemon's statistics.
pub fn heartbeat_frame(stats: Stats) -> (r: Frame)
    ensures
        r == Frame::spec_node(NodeFrameData::Heartbeat { stats }),
{
    Frame::from_node(NodeFrameData::Heartbeat { stats })
}

/// The frame reporting how tunnel `sid` of connection `cid` ended: closed when its
/// connection ended normally, an error for the web client otherwise.
pub fn tunnel_outcome_frame(
    protocol: Protocol,
    cid: u128,
    sid: u32,
    msg_id: Option<u32>,
    outcome: Result<(), String>,
) -> (r: Frame)
    ensures
        match outcome {
            Ok(()) => r == Frame::spec_node(
                NodeFrameData::TunnelClosed { protocol: spec_protocol_code(protocol), cid, sid, msg_id },
            ),
            Err(message) => r.version == FRAME_VERSION && r.encoding == FrameEncoding::MessagePack
                && match r.data {
                FrameData::Node(
                    NodeFrameData::WebFrame {
                        frame: WebFrameData::Error { kind, message: msg, msg_id: m },
                        id,
                    },
                ) => id == WebFrameId::SessionId(sid) && kind == FrameError::Generic && msg@
                    == message@ && m == widen_msg_id(msg_id),
                _ => false,
            },
        },
{
    match outcome {
        Ok(()) => tunnel_closed_frame(protocol, cid, sid, msg_id),
        Err(message) => session_error_frame(sid, message, msg_id),
    }
}

} // verus!
