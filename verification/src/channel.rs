//! The browser channel's wire frame and the rules it applies to what it receives:
//!
//! ```text
//! [protocol: u8][payload length: u32 BE][payload]
//! ```
use crate::wire::{append_bytes, be32, be32_bytes, be32_value, copy_range, len_field, length_field, lemma_be32_roundtrip, read_be32};
use vstd::prelude::*;

verus! {

/// Length of the channel frame header in bytes.
pub const CHANNEL_HEADER_SIZE: usize = 5;

/// Heartbeat period used when none is given, in milliseconds.
pub const DEFAULT_HEARTBEAT_MILLIS: u32 = 15_000;

/// What a channel frame carries.
#[derive(Clone, Copy, Debug, PartialEq, Eq, Structural)]
pub enum Protocol {
    Control,
    SSH,
}

/// The wire number of a channel protocol.
pub open spec fn spec_channel_protocol_code(p: Protocol) -> u8 {
    match p {
        Protocol::Control => 0,
        Protocol::SSH => 1,
    }
}

/// The protocol a wire number stands for: 0 is control and 1 is SSH. The other numbers
/// belong to streams this channel does not carry (2 RDP, 3 raw TCP, 4 reserved, and the
/// rest unassigned), and name no protocol here.
pub open spec fn spec_channel_protocol_from(v: u8) -> Option<Protocol> {
    if v == 0 {
        Some(Protocol::Control)
    } else if v == 1 {
        Some(Protocol::SSH)
    } else {
        None
    }
}

impl Protocol {
    /// The number that stands for this protocol on the wire.
    pub fn code(&self) -> (r: u8)
        ensures
            r == spec_channel_protocol_code(*self),
    {
        match self {
            Protocol::Control => 0,
            Protocol::SSH => 1,
        }
    }

    /// The protocol wire number `val` stands for, where the channel carries it.
    pub fn from_u8(val: u8) -> (r: Option<Protocol>)
        ensures
            r == spec_channel_protocol_from(val),
    {
        if val == 0 {
            Some(Protocol::Control)
        } else if val == 1 {
            Some(Protocol::SSH)
        } else {
            None
        }
    }
}

/// Why a request from the browser failed.
#[derive(Clone, Copy, Debug, PartialEq, Eq, Structural)]
pub enum ErrorType {
    Generic,
    RequiresPassword,
    RequiresUsernamePassword,
}

impl ErrorType {
    /// The number that stands for this error kind on the wire.
    pub fn code(&self) -> (r: u8)
        ensures
            r == (match *self {
                ErrorType::Generic => 0u8,
                ErrorType::RequiresPassword => 100u8,
                ErrorType::RequiresUsernamePassword => 110u8,
            }),
    {
        match self {
            ErrorType::Generic => 0,
            ErrorType::RequiresPassword => 100,
            ErrorType::RequiresUsernamePassword => 110,
        }
    }
}

/// The bytes of a channel frame.
pub open spec fn channel_frame_bytes(protocol: u8, payload: Seq<u8>) -> Seq<u8> {
    seq![protocol] + be32(len_field(payload.len())) + payload
}

/// What reading a channel frame from `bytes` gives: the protocol byte and the payload.
pub open spec fn spec_decode_frame(bytes: Seq<u8>) -> Option<(u8, Seq<u8>)> {
    if bytes.len() < CHANNEL_HEADER_SIZE {
        None
    } else {
        let len = be32_value(bytes[1], bytes[2], bytes[3], bytes[4]);
        if bytes.len() < CHANNEL_HEADER_SIZE + len {
            None
        } else {
            Some((bytes[0], bytes.subrange(5, 5 + len as int)))
        }
    }
}

/// The channel frame carrying `payload` for `protocol`.
pub fn encode_frame(protocol: u8, payload: &[u8]) -> (r: Vec<u8>)
    ensures
        r@ == channel_frame_bytes(protocol, payload@),
{
    let mut buffer: Vec<u8> = Vec::new();
    buffer.push(protocol);
    let len = be32_bytes(length_field(payload.len()));
    append_bytes(&mut buffer, &len);
    append_bytes(&mut buffer, payload);
    assert(buffer@ =~= channel_frame_bytes(protocol, payload@));
    buffer
}

/// Reads a channel frame: its protocol byte and payload, or `None` when `bytes` is shorter
/// than the header or than the payload it announces. Bytes after the payload are ignored.
pub fn decode_frame(bytes: &[u8]) -> (r: Option<(u8, Vec<u8>)>)
    ensures
        match (r, spec_decode_frame(bytes@)) {
            (Some((p, payload)), Some((sp, spayload))) => p == sp && payload@ == spayload,
            (None, None) => true,
            _ => false,
        },
{
    if bytes.len() < CHANNEL_HEADER_SIZE {
        return None;
    }
    let protocol = bytes[0];
    let length = read_be32(bytes[1], bytes[2], bytes[3], bytes[4]);
    if (bytes.len() as u64) < (CHANNEL_HEADER_SIZE as u64) + (length as u64) {
        return None;
    }
    let end = CHANNEL_HEADER_SIZE + length as usize;
    Some((protocol, copy_range(bytes, CHANNEL_HEADER_SIZE, end)))
}

/// Reading a written channel frame gives back its protocol and payload, whatever bytes
/// follow it, for payloads whose length fits the length field.
pub proof fn lemma_channel_frame_roundtrip(protocol: u8, payload: Seq<u8>, rest: Seq<u8>)
    requires
        payload.len() <= u32::MAX,
    ensures
        spec_decode_frame(channel_frame_bytes(protocol, payload) + rest) == Some((protocol, payload)),
{
    let n = len_field(payload.len());
    lemma_be32_roundtrip(n);
    let data = channel_frame_bytes(protocol, payload) + rest;
    assert(data[1] == be32(n)[0]);
    assert(data[2] == be32(n)[1]);
    assert(data[3] == be32(n)[2]);
    assert(data[4] == be32(n)[3]);
    assert(data.subrange(5, 5 + payload.len() as int) =~= payload);
}

/// A binary message received by the channel, as it is handed on.
#[derive(Clone, Debug, PartialEq, Eq)]
pub enum ChannelMessage {
    /// Not a well-formed frame; it is dropped.
    Invalid,
    /// A control payload, JSON text to hand to the protocol callback.
    Control(Vec<u8>),
    /// Bytes of the SSH stream to hand to the protocol callback.
    Ssh(Vec<u8>),
    /// A well-formed frame of a stream the channel does not carry (RDP, raw TCP, a reserved
    /// or unassigned number); it is dropped.
    Unsupported { protocol: u8 },
}

/// Decides how a binary message received by the channel is handed on, by the frame's
/// protocol byte: 0 carries control text, 1 SSH bytes, and any other number a stream the
/// channel does not carry.
pub fn classify_message(bytes: &[u8]) -> (r: ChannelMessage)
    ensures
        match spec_decode_frame(bytes@) {
            None => r == ChannelMessage::Invalid,
            Some((p, payload)) => if p == 0 {
                r matches ChannelMessage::Control(d) && d@ == payload
            } else if p == 1 {
                r matches ChannelMessage::Ssh(d) && d@ == payload
            } else {
                r == ChannelMessage::Unsupported { protocol: p }
            },
        },
{
    match decode_frame(bytes) {
        None => ChannelMessage::Invalid,
        Some((protocol, payload)) => match Protocol::from_u8(protocol) {
            Some(Protocol::Control) => ChannelMessage::Control(payload),
            Some(Protocol::SSH) => ChannelMessage::Ssh(payload),
            None => ChannelMessage::Unsupported { protocol },
        },
    }
}

/// The heartbeat period to use for a requested period: 0 asks for the default.
pub fn heartbeat_interval(interval_as_millis: u32) -> (r: u32)
    ensures
        r == (if interval_as_millis == 0 {
            DEFAULT_HEARTBEAT_MILLIS
        } else {
            interval_as_millis
        }),
{
    if interval_as_millis == 0 {
        DEFAULT_HEARTBEAT_MILLIS
    } else {
        interval_as_millis
    }
}

/// The frame to send for `message` on `protocol`, or nothing when the socket is not open.
pub fn outgoing_frame(is_open: bool, protocol: u8, message: &[u8]) -> (r: Option<Vec<u8>>)
    ensures
        is_open ==> (r matches Some(f) && f@ == channel_frame_bytes(protocol, message@)),
        !is_open ==> r is None,
{
    let frame = encode_frame(protocol, message);
    if !is_open {
        return None;
    }
    Some(frame)
}

} // verus!
