//! The browser console terminal: its connection state and the control frames it sends.
use crate::channel::{channel_frame_bytes, encode_frame};
use vstd::prelude::*;

verus! {

/// The console's heartbeat period, in milliseconds.
pub const CONSOLE_HEARTBEAT_MILLIS: u32 = 15_000;

/// The `readyState` of an open WebSocket.
pub const WEBSOCKET_OPEN: u16 = 1;

/// What the console terminal keeps about its connection.
#[derive(Clone, Debug, PartialEq, Eq)]
pub struct ConsoleTerminalState {
    pub selected_node: Option<String>,
    pub ssh_connected: bool,
    pub intentional_close: bool,
}

impl ConsoleTerminalState {
    /// The state of a console that never connected.
    pub fn new() -> (r: ConsoleTerminalState)
        ensures
            r.selected_node is None,
            !r.ssh_connected,
            !r.intentional_close,
    {
        ConsoleTerminalState { selected_node: None, ssh_connected: false, intentional_close: false }
    }

    /// Starts connecting to node `node_id`: it becomes the selected node, with no SSH
    /// session yet and no close asked for.
    pub fn begin_connect(&mut self, node_id: String)
        ensures
            final(self).selected_node == Some(node_id),
            !final(self).ssh_connected,
            !final(self).intentional_close,
    {
        self.selected_node = Some(node_id);
        self.ssh_connected = false;
        self.intentional_close = false;
    }
}

/// The control frame to send for `message`, given the socket's `readyState` (`None` when
/// there is no socket): only an open socket sends.
pub fn control_frame_for(ready_state: Option<u16>, message: &[u8]) -> (r: Option<Vec<u8>>)
    ensures
        ready_state == Some(WEBSOCKET_OPEN) ==> (r matches Some(f) && f@ == channel_frame_bytes(0, message@)),
        ready_state != Some(WEBSOCKET_OPEN) ==> r is None,
{
    let frame = encode_frame(0, message);
    match ready_state {
        None => None,
        Some(s) => {
            if s != WEBSOCKET_OPEN {
                None
            } else {
                Some(frame)
            }
        },
    }
}

} // verus!
