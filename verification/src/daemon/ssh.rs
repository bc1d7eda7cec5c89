//! SSH sessions of the daemon: their settings and what the session loop does with each
//! event.
use crate::daemon::frames::tunnel_data_frame;
use crate::daemon::sessions::SSHCommand;
use crate::protocol::common::{Frame, FrameData, FrameEncoding, FRAME_VERSION};
use crate::protocol::node::{NodeFrameData, WebFrameId};
use crate::protocol::web::WebFrameData;
use vstd::arithmetic::power2::pow2;
use vstd::prelude::*;

verus! {

/// The letters of Crockford's base 32, in digit order.
pub open spec fn crockford_alphabet() -> Seq<char> {
    seq![
        '0', '1', '2', '3', '4', '5', '6', '7', '8', '9', 'A', 'B', 'C', 'D', 'E', 'F', 'G', 'H',
        'J', 'K', 'M', 'N', 'P', 'Q', 'R', 'S', 'T', 'V', 'W', 'X', 'Y', 'Z',
    ]
}

/// The text of a ULID: its 128 bits as 26 base-32 digits, most significant first.
pub open spec fn ulid_text(id: u128) -> Seq<char> {
    Seq::new(26, |i: int| crockford_alphabet()[((id as nat / pow2((5 * (25 - i)) as nat)) % 32) as int])
}

/// `Ulid::to_string` (`ulid` crate): the Crockford base-32 text of the ULID whose value is
/// `id`, 26 characters, most significant digit first.
#[verifier::external_body]
fn ulid_string(id: u128) -> (r: String)
    ensures
        r@ == ulid_text(id),
{
    ulid::Ulid(id).to_string()
}

/// Credentials for the SSH server.
#[derive(Clone, Debug, PartialEq, Eq)]
pub enum SSHConfigAuth {
    UsernamePassword(String, String),
}

/// Where the SSH server is and how to log in.
#[derive(Clone, Debug, PartialEq, Eq)]
pub struct SSHConfig {
    pub host: String,
    pub port: u16,
    pub credentials: SSHConfigAuth,
}

/// A connection to the SSH server, not yet opened.
#[derive(Clone, Debug)]
pub struct SSHConnection {
    config: SSHConfig,
}

impl SSHConnection {
    /// A connection that will use `config`.
    pub fn new(config: SSHConfig) -> (r: SSHConnection)
        ensures
            r.config() == config,
    {
        SSHConnection { config }
    }

    /// The settings the connection uses.
    pub closed spec fn config(&self) -> SSHConfig {
        self.config
    }

    /// The settings the connection uses.
    pub fn get_config(&self) -> (r: &SSHConfig)
        ensures
            *r == self.config(),
    {
        &self.config
    }
}

/// Something that happens to an open SSH session.
#[derive(Clone, Debug, PartialEq, Eq)]
pub enum SshEvent {
    /// The session is asked to shut down.
    Shutdown,
    /// A command arrived from the web user.
    Command(SSHCommand),
    /// The remote shell sent bytes.
    ChannelData(Vec<u8>),
    /// The remote shell sent end of file.
    ChannelEof,
    /// The remote shell exited with a status.
    ChannelExitStatus(u32),
    /// The remote side closed the channel.
    ChannelClose,
    /// The channel has no more messages.
    ChannelEnded,
    /// Any other channel message.
    ChannelOther,
}

/// What the session loop does in answer to an event.
#[derive(Clone, Debug, PartialEq, Eq)]
pub enum SshStep {
    /// Leave the loop, then close the channel and disconnect.
    Stop,
    /// Write the bytes to the remote shell (leaving the loop if that fails).
    WriteToChannel(Vec<u8>),
    /// Change the remote terminal's size.
    ResizeChannel { cols: u32, rows: u32 },
    /// Send the frame to the server.
    Forward(Frame),
    /// Send end of file to the remote shell, then leave the loop.
    SendEofThenStop,
    /// Wait for the next event.
    Continue,
}

/// What the loop of SSH session `sid` of node `node_id` does with `event`: the remote
/// shell's bytes are relayed to the web client in a tunnel-data frame.
pub fn ssh_session_step(node_id: u128, sid: u32, event: SshEvent) -> (r: SshStep)
    ensures
        match event {
            SshEvent::Shutdown => r == SshStep::Stop,
            SshEvent::Command(SSHCommand::Data(d)) => r == SshStep::WriteToChannel(d),
            SshEvent::Command(SSHCommand::Resize { cols, rows }) => r == SshStep::ResizeChannel { cols, rows },
            SshEvent::ChannelData(d) => match r {
                SshStep::Forward(f) => f.version == FRAME_VERSION && f.encoding
                    == FrameEncoding::MessagePack && match f.data {
                    FrameData::Node(
                        NodeFrameData::WebFrame {
                            frame: WebFrameData::TunnelData { target, sid: s, data, msg_id },
                            id,
                        },
                    ) => id == WebFrameId::SessionId(sid) && target@ == ulid_text(node_id) && s
                        == sid as u64 && data@ == d@ && msg_id is None,
                    _ => false,
                },
                _ => false,
            },
            SshEvent::ChannelEof => r == SshStep::Stop,
            SshEvent::ChannelExitStatus(_) => r == SshStep::SendEofThenStop,
            SshEvent::ChannelClose => r == SshStep::Stop,
            SshEvent::ChannelEnded => r == SshStep::Stop,
            SshEvent::ChannelOther => r == SshStep::Continue,
        },
{
    match event {
        SshEvent::Shutdown => SshStep::Stop,
        SshEvent::Command(SSHCommand::Data(d)) => SshStep::WriteToChannel(d),
        SshEvent::Command(SSHCommand::Resize { cols, rows }) => SshStep::ResizeChannel { cols, rows },
        SshEvent::ChannelData(d) => SshStep::Forward(tunnel_data_frame(sid, ulid_string(node_id), d)),
        SshEvent::ChannelEof => SshStep::Stop,
        SshEvent::ChannelExitStatus(_) => SshStep::SendEofThenStop,
        SshEvent::ChannelClose => SshStep::Stop,
        SshEvent::ChannelEnded => SshStep::Stop,
        SshEvent::ChannelOther => SshStep::Continue,
    }
}

} // verus!
