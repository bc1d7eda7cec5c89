//! The node frames the daemon sends about its tunnels.
use crate::protocol::common::{Frame, FrameData, FrameEncoding, FrameError, FRAME_VERSION};
use crate::protocol::node::{NodeFrameData, WebFrameId};
use crate::protocol::web::WebFrameData;
use crate::protocol::{spec_protocol_code, Protocol};
use vstd::prelude::*;

verus! {

/// A request id widened to the width web frames carry.
pub open spec fn widen_msg_id(msg_id: Option<u32>) -> Option<u64> {
    match msg_id {
        Some(m) => Some(m as u64),
        None => None,
    }
}

/// A request id widened to the width web frames carry.
pub fn widen(msg_id: Option<u32>) -> (r: Option<u64>)
    ensures
        r == widen_msg_id(msg_id),
{
    match msg_id {
        Some(m) => Some(m as u64),
        None => None,
    }
}

/// The frame relaying bytes of SSH session `sid` of node `node_id` to the web client.
pub fn tunnel_data_frame(sid: u32, node_id: String, data: Vec<u8>) -> (r: Frame)
    ensures
        r.version == FRAME_VERSION,
        r.encoding == FrameEncoding::MessagePack,
        match r.data {
            FrameData::Node(
                NodeFrameData::WebFrame {
                    frame: WebFrameData::TunnelData { target, sid: s, data: d, msg_id },
                    id,
                },
            ) => id == WebFrameId::SessionId(sid) && target@ == node_id@ && s == sid as u64 && d@
                == data@ && msg_id is None,
            _ => false,
        },
{
    Frame::from_node(
        NodeFrameData::WebFrame {
            id: WebFrameId::SessionId(sid),
            frame: WebFrameData::TunnelData { target: node_id, sid: sid as u64, data, msg_id: None },
        },
    )
}

/// The frame telling web connection `cid` that the request `msg_id` lacks a username.
pub fn requires_username_error_frame(cid: u128, msg_id: Option<u32>) -> (r: Frame)
    ensures
        r.version == FRAME_VERSION,
        r.encoding == FrameEncoding::MessagePack,
        match r.data {
            FrameData::Node(
                NodeFrameData::WebFrame { frame: WebFrameData::Error { kind, message, msg_id: m }, id },
            ) => id == WebFrameId::ConnectionId(cid) && kind == FrameError::RequiresUsername && message@ == "Username is missing"@ && m
                == widen_msg_id(msg_id),
            _ => false,
        },
{
    Frame::from_node(
        NodeFrameData::WebFrame {
            id: WebFrameId::ConnectionId(cid),
            frame: WebFrameData::Error {
                kind: FrameError::RequiresUsername,
                message: String::from_str("Username is missing"),
                msg_id: widen(msg_id),
            },
        },
    )
}

/// The frame telling web connection `cid` that the request `msg_id` lacks a password.
pub fn requires_password_error_frame(cid: u128, msg_id: Option<u32>) -> (r: Frame)
    ensures
        r.version == FRAME_VERSION,
        r.encoding == FrameEncoding::MessagePack,
        match r.data {
            FrameData::Node(
                NodeFrameData::WebFrame { frame: WebFrameData::Error { kind, message, msg_id: m }, id },
            ) => id == WebFrameId::ConnectionId(cid) && kind == FrameError::RequiresPassword && message@ == "Password is missing"@ && m
                == widen_msg_id(msg_id),
            _ => false,
        },
{
    Frame::from_node(
        NodeFrameData::WebFrame {
            id: WebFrameId::ConnectionId(cid),
            frame: WebFrameData::Error {
                kind: FrameError::RequiresPassword,
                message: String::from_str("Password is missing"),
                msg_id: widen(msg_id),
            },
        },
    )
}

/// The frame telling the web client of session `sid` that its request `msg_id` failed
/// with `message`.
pub fn session_error_frame(sid: u32, message: String, msg_id: Option<u32>) -> (r: Frame)
    ensures
        r.version == FRAME_VERSION,
        r.encoding == FrameEncoding::MessagePack,
        match r.data {
            FrameData::Node(
                NodeFrameData::WebFrame { frame: WebFrameData::Error { kind, message: msg, msg_id: m }, id },
            ) => id == WebFrameId::SessionId(sid) && kind == FrameError::Generic && msg@ == message@
                && m == widen_msg_id(msg_id),
            _ => false,
        },
{
    Frame::from_node(
        NodeFrameData::WebFrame {
            id: WebFrameId::SessionId(sid),
            frame: WebFrameData::Error { kind: FrameError::Generic, message, msg_id: widen(msg_id) },
        },
    )
}

/// The frame telling the server that tunnel `sid` of `protocol` is open for connection `cid`.
pub fn tunnel_opened_frame(protocol: Protocol, cid: u128, sid: u32, msg_id: Option<u32>) -> (r: Frame)
    ensures
        r == Frame::spec_node(
            NodeFrameData::TunnelOpened { protocol: spec_protocol_code(protocol), cid, sid, msg_id },
        ),
{
    Frame::from_node(NodeFrameData::TunnelOpened { protocol: protocol.code(), cid, sid, msg_id })
}

/// The frame telling the server that tunnel `sid` of `protocol` is closed for connection `cid`.
pub fn tunnel_closed_frame(protocol: Protocol, cid: u128, sid: u32, msg_id: Option<u32>) -> (r: Frame)
    ensures
        r == Frame::spec_node(
            NodeFrameData::TunnelClosed { protocol: spec_protocol_code(protocol), cid, sid, msg_id },
        ),
{
    Frame::from_node(NodeFrameData::TunnelClosed { protocol: protocol.code(), cid, sid, msg_id })
}

} // verus!
