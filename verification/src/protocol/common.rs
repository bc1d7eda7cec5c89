//! The binary frame that carries every web and node message:
//!
//! ```text
//! [version: u8][encoding: u8][kind: u8][code: u8][payload length: u32 BE][payload]
//! ```
//!
//! The payload is the message serialised in the frame's encoding; turning messages into
//! payload bytes and back is left to the caller.
use crate::protocol::node::{spec_node_code, NodeFrameData};
use crate::protocol::web::{spec_web_code, WebFrameData};
use crate::wire::{
    append_bytes, be32, be32_bytes, be32_value, copy_range, len_field, length_field,
    lemma_be32_roundtrip, read_be32,
};
use vstd::prelude::*;

verus! {

/// Length of the frame header in bytes.
pub const HEADER_SIZE: usize = 8;

/// The frame format version that is written.
pub const FRAME_VERSION: u8 = 1;

/// How a frame's payload is serialised.
#[derive(Clone, Copy, Debug, PartialEq, Eq, Structural)]
pub enum FrameEncoding {
    JSON,
    MessagePack,
}

/// The wire number of an encoding.
pub open spec fn spec_encoding_code(e: FrameEncoding) -> u8 {
    match e {
        FrameEncoding::JSON => 0,
        FrameEncoding::MessagePack => 1,
    }
}

/// Why a frame could not be read.
#[derive(Clone, Copy, Debug, PartialEq, Eq, Structural)]
pub enum FrameDecodeError {
    /// Fewer bytes than a header.
    InvalidFrameSize,
    /// The encoding byte names no encoding.
    UnknownEncoding(u8),
    /// The payload is shorter than the header says.
    CorruptFrameData,
    /// The kind byte names neither a web nor a node frame.
    InvalidFrameType,
}

impl FrameEncoding {
    /// The number that stands for this encoding on the wire.
    pub fn code(&self) -> (r: u8)
        ensures
            r == spec_encoding_code(*self),
    {
        match self {
            FrameEncoding::JSON => 0,
            FrameEncoding::MessagePack => 1,
        }
    }

    /// The encoding with wire number `code`.
    pub fn try_from_u8(code: u8) -> (r: Result<FrameEncoding, FrameDecodeError>)
        ensures
            code <= 1 ==> (r matches Ok(e) && spec_encoding_code(e) == code),
            code > 1 ==> r == Err::<FrameEncoding, FrameDecodeError>(
                FrameDecodeError::UnknownEncoding(code),
            ),
    {
        if code == 0 {
            Ok(FrameEncoding::JSON)
        } else if code == 1 {
            Ok(FrameEncoding::MessagePack)
        } else {
            Err(FrameDecodeError::UnknownEncoding(code))
        }
    }

    /// The encoding's name, as it is displayed.
    pub fn name(&self) -> (r: &'static str)
        ensures
            r@ == (match *self {
                FrameEncoding::JSON => "JSON"@,
                FrameEncoding::MessagePack => "MessagePack"@,
            }),
    {
        match self {
            FrameEncoding::JSON => "JSON",
            FrameEncoding::MessagePack => "MessagePack",
        }
    }
}

/// Whether a frame carries a web or a node message.
#[derive(Clone, Copy, Debug, PartialEq, Eq, Structural)]
pub enum FrameKind {
    Web,
    Node,
}

/// The wire number of a frame kind.
pub open spec fn spec_kind_code(k: FrameKind) -> u8 {
    match k {
        FrameKind::Web => 0,
        FrameKind::Node => 1,
    }
}

/// An error reported to the web client, and why.
#[derive(Clone, Copy, Debug, PartialEq, Eq, Structural)]
pub enum FrameError {
    Generic,
    RequiresUsername,
    RequiresPassword,
    RequiresUsernamePassword,
}

/// The wire number of an error kind.
pub open spec fn spec_frame_error_code(e: FrameError) -> u8 {
    match e {
        FrameError::Generic => 0,
        FrameError::RequiresUsername => 100,
        FrameError::RequiresPassword => 110,
        FrameError::RequiresUsernamePassword => 120,
    }
}

/// The error kind a wire number stands for; numbers that name none stand for `Generic`.
pub open spec fn spec_frame_error_from(value: u8) -> FrameError {
    if value == 100 {
        FrameError::RequiresUsername
    } else if value == 110 {
        FrameError::RequiresPassword
    } else if value == 120 {
        FrameError::RequiresUsernamePassword
    } else {
        FrameError::Generic
    }
}

impl FrameError {
    /// The number that stands for this error kind on the wire.
    pub fn code(&self) -> (r: u8)
        ensures
            r == spec_frame_error_code(*self),
    {
        match self {
            FrameError::Generic => 0,
            FrameError::RequiresUsername => 100,
            FrameError::RequiresPassword => 110,
            FrameError::RequiresUsernamePassword => 120,
        }
    }

    /// The error kind with wire number `value`, `Generic` for a number that names none.
    pub fn from_u8(value: u8) -> (r: FrameError)
        ensures
            r == spec_frame_error_from(value),
    {
        if value == 100 {
            FrameError::RequiresUsername
        } else if value == 110 {
            FrameError::RequiresPassword
        } else if value == 120 {
            FrameError::RequiresUsernamePassword
        } else {
            FrameError::Generic
        }
    }
}

/// Reading back an error kind's wire number gives that error kind.
pub proof fn lemma_frame_error_roundtrip(e: FrameError)
    ensures
        spec_frame_error_from(spec_frame_error_code(e)) == e,
{
}

/// What a frame carries.
#[derive(Clone, Debug, PartialEq, Eq)]
pub enum FrameData {
    Web(WebFrameData),
    Node(NodeFrameData),
}

/// A message together with the version and encoding of the frame that carries it.
#[derive(Clone, Debug, PartialEq, Eq)]
pub struct Frame {
    pub version: u8,
    pub encoding: FrameEncoding,
    pub data: FrameData,
}

/// The kind byte of a frame's data.
pub open spec fn spec_data_kind(d: FrameData) -> FrameKind {
    match d {
        FrameData::Web(_) => FrameKind::Web,
        FrameData::Node(_) => FrameKind::Node,
    }
}

/// The code byte of a frame's data.
pub open spec fn spec_data_code(d: FrameData) -> u8 {
    match d {
        FrameData::Web(w) => spec_web_code(w),
        FrameData::Node(n) => spec_node_code(n),
    }
}

/// The bytes of a frame: header, then `payload`.
pub open spec fn frame_bytes(
    version: u8,
    encoding: FrameEncoding,
    kind: FrameKind,
    code: u8,
    payload: Seq<u8>,
) -> Seq<u8> {
    seq![version, spec_encoding_code(encoding), spec_kind_code(kind), code] + be32(
        len_field(payload.len()),
    ) + payload
}

/// A frame read off the wire, its payload still serialised.
#[derive(Clone, Debug, PartialEq, Eq)]
pub struct RawFrame {
    pub version: u8,
    pub encoding: FrameEncoding,
    pub kind: FrameKind,
    pub code: u8,
    pub payload: Vec<u8>,
}

/// The header fields and payload of a frame read off the wire.
pub struct FrameParts {
    pub version: u8,
    pub encoding: FrameEncoding,
    pub kind: FrameKind,
    pub code: u8,
    pub payload: Seq<u8>,
}

/// What reading a frame from `data` gives.
pub open spec fn spec_decode(data: Seq<u8>) -> Result<FrameParts, FrameDecodeError> {
    if data.len() < HEADER_SIZE {
        Err(FrameDecodeError::InvalidFrameSize)
    } else if data[1] > 1 {
        Err(FrameDecodeError::UnknownEncoding(data[1]))
    } else {
        let len = be32_value(data[4], data[5], data[6], data[7]);
        if data.len() < HEADER_SIZE + len {
            Err(FrameDecodeError::CorruptFrameData)
        } else if data[2] > 1 {
            Err(FrameDecodeError::InvalidFrameType)
        } else {
            Ok(
                FrameParts {
                    version: data[0],
                    encoding: if data[1] == 0 {
                        FrameEncoding::JSON
                    } else {
                        FrameEncoding::MessagePack
                    },
                    kind: if data[2] == 0 {
                        FrameKind::Web
                    } else {
                        FrameKind::Node
                    },
                    code: data[3],
                    payload: data.subrange(HEADER_SIZE as int, HEADER_SIZE + len),
                },
            )
        }
    }
}

/// Whether a frame read off the wire matches what `spec_decode` gives.
pub open spec fn raw_matches(r: RawFrame, p: FrameParts) -> bool {
    &&& r.version == p.version
    &&& r.encoding == p.encoding
    &&& r.kind == p.kind
    &&& r.code == p.code
    &&& r.payload@ == p.payload
}

/// The frame bytes for a header and a payload.
pub fn encode_raw(encoding: FrameEncoding, kind: FrameKind, code: u8, payload: &[u8]) -> (r: Vec<u8>)
    ensures
        r@ == frame_bytes(FRAME_VERSION, encoding, kind, code, payload@),
{
    let mut buf: Vec<u8> = Vec::new();
    buf.push(FRAME_VERSION);
    buf.push(encoding.code());
    let k: u8 = match kind {
        FrameKind::Web => 0,
        FrameKind::Node => 1,
    };
    buf.push(k);
    buf.push(code);
    let len = be32_bytes(length_field(payload.len()));
    append_bytes(&mut buf, &len);
    append_bytes(&mut buf, payload);
    assert(buf@ =~= frame_bytes(FRAME_VERSION, encoding, kind, code, payload@));
    buf
}

impl Frame {
    /// A node message in a MessagePack frame of the current version.
    pub open spec fn spec_node(data: NodeFrameData) -> Frame {
        Frame { version: FRAME_VERSION, encoding: FrameEncoding::MessagePack, data: FrameData::Node(data) }
    }

    /// The frame format version that is written.
    pub fn version() -> (r: u8)
        ensures
            r == FRAME_VERSION,
    {
        FRAME_VERSION
    }

    /// A web message in a MessagePack frame of the current version.
    pub fn from_web(data: WebFrameData) -> (r: Frame)
        ensures
            r == (Frame {
                version: FRAME_VERSION,
                encoding: FrameEncoding::MessagePack,
                data: FrameData::Web(data),
            }),
    {
        Frame { version: Self::version(), encoding: FrameEncoding::MessagePack, data: FrameData::Web(data) }
    }

    /// A node message in a MessagePack frame of the current version.
    pub fn from_node(data: NodeFrameData) -> (r: Frame)
        ensures
            r == (Frame {
                version: FRAME_VERSION,
                encoding: FrameEncoding::MessagePack,
                data: FrameData::Node(data),
            }),
    {
        Frame { version: Self::version(), encoding: FrameEncoding::MessagePack, data: FrameData::Node(data) }
    }

    /// Reads a frame's header and payload from `data`. Bytes after the payload are ignored.
    pub fn decode(data: &[u8]) -> (r: Result<RawFrame, FrameDecodeError>)
        ensures
            match (r, spec_decode(data@)) {
                (Ok(raw), Ok(parts)) => raw_matches(raw, parts),
                (Err(e), Err(se)) => e == se,
                _ => false,
            },
    {
        if data.len() < HEADER_SIZE {
            return Err(FrameDecodeError::InvalidFrameSize);
        }
        let version = data[0];
        let encoding = match FrameEncoding::try_from_u8(data[1]) {
            Ok(e) => e,
            Err(e) => return Err(e),
        };
        let kind_byte = data[2];
        let code = data[3];
        let len = read_be32(data[4], data[5], data[6], data[7]);
        if (data.len() as u64) < (HEADER_SIZE as u64) + (len as u64) {
            return Err(FrameDecodeError::CorruptFrameData);
        }
        let end = HEADER_SIZE + len as usize;
        let payload = copy_range(data, HEADER_SIZE, end);
        let kind = if kind_byte == 0 {
            FrameKind::Web
        } else if kind_byte == 1 {
            FrameKind::Node
        } else {
            return Err(FrameDecodeError::InvalidFrameType);
        };
        Ok(RawFrame { version, encoding, kind, code, payload })
    }

    /// The bytes of `frame` carrying `payload`, the frame's data serialised in its encoding.
    /// The version byte is always the current version.
    pub fn encode(frame: &Frame, payload: &[u8]) -> (r: Vec<u8>)
        ensures
            r@ == frame_bytes(
                FRAME_VERSION,
                frame.encoding,
                spec_data_kind(frame.data),
                spec_data_code(frame.data),
                payload@,
            ),
    {
        let (kind, code) = match &frame.data {
            FrameData::Web(d) => (FrameKind::Web, d.code()),
            FrameData::Node(d) => (FrameKind::Node, d.code()),
        };
        encode_raw(frame.encoding, kind, code, payload)
    }

    /// The bytes of this frame carrying `payload`.
    pub fn to_bytes(&self, payload: &[u8]) -> (r: Vec<u8>)
        ensures
            r@ == frame_bytes(
                FRAME_VERSION,
                self.encoding,
                spec_data_kind(self.data),
                spec_data_code(self.data),
                payload@,
            ),
    {
        Self::encode(self, payload)
    }
}

/// Reading a written frame gives back its header and payload, whatever bytes follow it,
/// for payloads whose length fits the length field.
pub proof fn lemma_frame_roundtrip(
    version: u8,
    encoding: FrameEncoding,
    kind: FrameKind,
    code: u8,
    payload: Seq<u8>,
    rest: Seq<u8>,
)
    requires
        payload.len() <= u32::MAX,
    ensures
        spec_decode(frame_bytes(version, encoding, kind, code, payload) + rest) matches Ok(p) && {
            &&& p.version == version
            &&& p.encoding == encoding
            &&& p.kind == kind
            &&& p.code == code
            &&& p.payload == payload
        },
{
    let n = len_field(payload.len());
    assert(n == payload.len());
    lemma_be32_roundtrip(n);
    let data = frame_bytes(version, encoding, kind, code, payload) + rest;
    assert(data[4] == be32(n)[0]);
    assert(data[5] == be32(n)[1]);
    assert(data[6] == be32(n)[2]);
    assert(data[7] == be32(n)[3]);
    assert(data.subrange(8, 8 + payload.len() as int) =~= payload);
}

} // verus!
