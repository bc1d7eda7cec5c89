//! Control messages of the web and node channels, and the control frame that carries a
//! web message:
//!
//! ```text
//! [version: u8][encoding: u8][code: u8][reserved: u8 = 0][payload length: u32 BE][payload]
//! ```
use crate::stats::Stats;
use crate::wire::{append_bytes, be32, be32_bytes, len_field, length_field};
use vstd::prelude::*;

verus! {

/// Why a web control request failed.
#[derive(Clone, Copy, Debug, PartialEq, Eq, Structural)]
pub enum WebControlErrorType {
    Generic,
    RequiresPassword,
    RequiresUsernamePassword,
}

/// The wire number of a control error kind.
pub open spec fn spec_control_error_code(e: WebControlErrorType) -> u8 {
    match e {
        WebControlErrorType::Generic => 0,
        WebControlErrorType::RequiresPassword => 100,
        WebControlErrorType::RequiresUsernamePassword => 110,
    }
}

/// The control error kind a wire number stands for; numbers that name none stand for
/// `Generic`.
pub open spec fn spec_control_error_from(value: u8) -> WebControlErrorType {
    if value == 100 {
        WebControlErrorType::RequiresPassword
    } else if value == 110 {
        WebControlErrorType::RequiresUsernamePassword
    } else {
        WebControlErrorType::Generic
    }
}

impl WebControlErrorType {
    /// The number that stands for this error kind on the wire.
    pub fn code(&self) -> (r: u8)
        ensures
            r == spec_control_error_code(*self),
    {
        match self {
            WebControlErrorType::Generic => 0,
            WebControlErrorType::RequiresPassword => 100,
            WebControlErrorType::RequiresUsernamePassword => 110,
        }
    }

    /// The error kind with wire number `value`, `Generic` for a number that names none.
    pub fn from_u8(value: u8) -> (r: WebControlErrorType)
        ensures
            r == spec_control_error_from(value),
    {
        if value == 100 {
            WebControlErrorType::RequiresPassword
        } else if value == 110 {
            WebControlErrorType::RequiresUsernamePassword
        } else {
            WebControlErrorType::Generic
        }
    }
}

/// Reading back a control error kind's wire number gives that error kind.
pub proof fn lemma_control_error_roundtrip(e: WebControlErrorType)
    ensures
        spec_control_error_from(spec_control_error_code(e)) == e,
{
}

/// A control message between the web client and the server.
#[derive(Clone, Debug, PartialEq, Eq)]
pub enum WebControlMessage {
    Heartbeat,
    OpenTunnel {
        protocol: u8,
        target: String,
        username: Option<String>,
        password: Option<String>,
    },
    TunnelData { protocol: u8, target: String, data: Vec<u8> },
    TunnelOpened { protocol: u8, sid: u64 },
    TunnelClosed { protocol: u8, sid: u64 },
    Resize { target: String, cols: u32, rows: u32 },
    Error { kind: WebControlErrorType, message: String },
    Ack,
}

/// An error message of the generic kind.
pub fn generic_web_error(msg: String) -> (r: WebControlMessage)
    ensures
        r matches WebControlMessage::Error { kind, message } && kind
            == WebControlErrorType::Generic && message@ == msg@,
{
    WebControlMessage::Error { kind: WebControlErrorType::Generic, message: msg }
}

/// A control message between the server and a node.
#[derive(Clone, Debug, PartialEq, Eq)]
pub enum NodeControlMessage {
    Auth { token: String },
    AuthResponse { cid: String, success: bool, version: String },
    Heartbeat { stats: Stats },
    OpenTunnel { protocol: u8, cid: String, username: String, password: String },
    TunnelOpened { protocol: u8, cid: String, sid: u64 },
    TunnelData { protocol: u8, cid: String, data: Vec<u8> },
    Resize { cid: String, cols: u32, rows: u32 },
    Ping { sent_at: u64 },
    Pong { sent_at: u64 },
    ConnectionDisconnect { cid: String },
    Error { message: String },
    Frame { frame: Frame, cid: String },
    Ack,
}

/// A web message carried by a control frame.
#[derive(Clone, Debug, PartialEq, Eq)]
pub enum WebFrameData {
    Heartbeat,
    OpenTunnel {
        protocol: u8,
        target: String,
        msg_id: Option<u64>,
        username: Option<String>,
        password: Option<String>,
    },
    TunnelOpened { protocol: u8, sid: u64, msg_id: Option<u64> },
    TunnelData { sid: u64, data: Vec<u8>, msg_id: Option<u64> },
    TunnelClosed { sid: u64, msg_id: Option<u64> },
    SSHWindowResize { sid: u64, cols: u32, rows: u32 },
    Error { kind: WebControlErrorType, message: String, msg_id: Option<u64> },
}

/// The frame code of each kind of web message in a control frame.
pub open spec fn spec_control_web_code(d: WebFrameData) -> u8 {
    match d {
        WebFrameData::Heartbeat => 10,
        WebFrameData::OpenTunnel { .. } => 20,
        WebFrameData::TunnelOpened { .. } => 21,
        WebFrameData::TunnelData { .. } => 22,
        WebFrameData::TunnelClosed { .. } => 23,
        WebFrameData::SSHWindowResize { .. } => 30,
        WebFrameData::Error { .. } => 50,
    }
}

/// What a control frame carries.
#[derive(Clone, Debug, PartialEq, Eq)]
pub enum FrameData {
    Web(WebFrameData),
}

/// How a control frame's payload is serialised.
#[derive(Clone, Copy, Debug, PartialEq, Eq, Structural)]
pub enum FrameEncoding {
    MsgPack,
    JSON,
}

/// The wire number of a control frame encoding.
pub open spec fn spec_control_encoding_code(e: FrameEncoding) -> u8 {
    match e {
        FrameEncoding::MsgPack => 1,
        FrameEncoding::JSON => 0,
    }
}

/// A control frame.
#[derive(Clone, Debug, PartialEq, Eq)]
pub struct Frame {
    pub version: u8,
    pub encoding: FrameEncoding,
    pub data: FrameData,
}

/// The code of what a control frame carries.
pub open spec fn spec_control_data_code(d: FrameData) -> u8 {
    match d {
        FrameData::Web(w) => spec_control_web_code(w),
    }
}

/// The bytes of a control frame: header, then `payload`.
pub open spec fn control_frame_bytes(encoding: FrameEncoding, code: u8, payload: Seq<u8>) -> Seq<u8> {
    seq![1u8, spec_control_encoding_code(encoding), code, 0u8] + be32(len_field(payload.len()))
        + payload
}

impl Frame {
    /// The bytes of `frame` carrying `payload`, its data serialised in its encoding.
    /// The version byte is always 1.
    pub fn encode(frame: Frame, payload: &[u8]) -> (r: Vec<u8>)
        ensures
            r@ == control_frame_bytes(frame.encoding, spec_control_data_code(frame.data), payload@),
    {
        let code = match &frame.data {
            FrameData::Web(d) => d.code(),
        };
        let enc: u8 = match frame.encoding {
            FrameEncoding::MsgPack => 1,
            FrameEncoding::JSON => 0,
        };
        let mut buf: Vec<u8> = Vec::new();
        buf.push(1u8);
        buf.push(enc);
        buf.push(code);
        buf.push(0u8);
        let len = be32_bytes(length_field(payload.len()));
        append_bytes(&mut buf, &len);
        append_bytes(&mut buf, payload);
        assert(buf@ =~= control_frame_bytes(frame.encoding, code, payload@));
        buf
    }
}

impl WebFrameData {
    /// The frame code that says what kind of message this is.
    pub fn code(&self) -> (r: u8)
        ensures
            r == spec_control_web_code(*self),
    {
        match self {
            WebFrameData::Heartbeat => 10,
            WebFrameData::OpenTunnel { .. } => 20,
            WebFrameData::TunnelOpened { .. } => 21,
            WebFrameData::TunnelData { .. } => 22,
            WebFrameData::TunnelClosed { .. } => 23,
            WebFrameData::SSHWindowResize { .. } => 30,
            WebFrameData::Error { .. } => 50,
        }
    }

    /// This message in a version-1 JSON control frame carrying `payload`, the message
    /// serialised as JSON.
    pub fn encode(self, payload: &[u8]) -> (r: Vec<u8>)
        ensures
            r@ == control_frame_bytes(FrameEncoding::JSON, spec_control_web_code(self), payload@),
    {
        let frame = Frame { version: 1, encoding: FrameEncoding::JSON, data: self.into_frame_data() };
        Frame::encode(frame, payload)
    }

    /// This message as what a control frame carries.
    pub fn into_frame_data(self) -> (r: FrameData)
        ensures
            r == FrameData::Web(self),
    {
        FrameData::Web(self)
    }
}

/// A control frame is eight header bytes followed by the payload, whose length the header
/// holds (the low 32 bits of it).
pub proof fn lemma_control_frame_layout(encoding: FrameEncoding, code: u8, payload: Seq<u8>)
    ensures
        control_frame_bytes(encoding, code, payload).len() == 8 + payload.len(),
        control_frame_bytes(encoding, code, payload).subrange(8, 8 + payload.len() as int)
            == payload,
        control_frame_bytes(encoding, code, payload)[2] == code,
        control_frame_bytes(encoding, code, payload)[3] == 0,
{
    assert(control_frame_bytes(encoding, code, payload).subrange(8, 8 + payload.len() as int)
        =~= payload);
}

} // verus!
