//! Frames exchanged between web clients, the server and nodes.
use vstd::prelude::*;

pub mod common;
pub mod node;
pub mod sftp;
pub mod web;

verus! {

/// The kind of tunnel a node opens.
#[derive(Clone, Copy, Debug, PartialEq, Eq, Structural)]
pub enum Protocol {
    SSH,
    SFTP,
}

impl Protocol {
    /// The number that stands for this protocol on the wire.
    pub fn code(&self) -> (r: u8)
        ensures
            r == spec_protocol_code(*self),
    {
        match self {
            Protocol::SSH => 0,
            Protocol::SFTP => 1,
        }
    }

    /// The protocol with wire number `value`; only 0 and 1 name one.
    pub fn try_from_u8(value: u8) -> (r: Protocol)
        requires
            value <= 1,
        ensures
            spec_protocol_code(r) == value,
    {
        if value == 0 {
            Protocol::SSH
        } else {
            Protocol::SFTP
        }
    }
}

/// The wire number of a protocol.
pub open spec fn spec_protocol_code(p: Protocol) -> u8 {
    match p {
        Protocol::SSH => 0,
        Protocol::SFTP => 1,
    }
}

} // verus!
