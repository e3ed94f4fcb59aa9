//! Observability events, and how each is filled from the simulator's state.

use vstd::prelude::*;
use crate::state::AppState;

verus! {

/// A client completed its WebSocket handshake.
#[derive(Clone, Debug)]
pub struct ClientConnectedEvent {
    pub client_id: String,
}

/// A client went away.
#[derive(Clone, Debug)]
pub struct ClientDisconnectedEvent {
    pub client_id: String,
}

/// A frame was sent.
#[derive(Clone, Copy, Debug, PartialEq, Eq, Structural)]
pub struct FrameSentEvent {
    pub frame_id: u32,
    pub object_count: usize,
}

/// The server started or stopped.
#[derive(Clone, Copy, Debug, PartialEq, Eq, Structural)]
pub struct ServerStatusEvent {
    pub running: bool,
    pub connected_clients: usize,
}

/// A frame was produced and published.
#[derive(Clone, Copy, Debug, PartialEq, Eq, Structural)]
pub struct OscMessageEvent {
    pub frame_id: u32,
    pub timestamp: i64,
    pub object_count: usize,
    pub message_size: usize,
    pub connected_clients: usize,
}

/// The event of the frame just produced at `timestamp`, `message_size` bytes long.
pub fn osc_message_event(state: &AppState, timestamp: i64, message_size: usize) -> (r: OscMessageEvent)
    ensures
        r == (OscMessageEvent {
            frame_id: state.frame_counter,
            timestamp,
            object_count: state.objects@.len() as usize,
            message_size,
            connected_clients: state.connected_clients,
        }),
{
    OscMessageEvent {
        frame_id: state.frame_counter,
        timestamp,
        object_count: state.objects.len(),
        message_size,
        connected_clients: state.connected_clients,
    }
}

/// The event of a change of the running flag.
pub fn server_status_event(state: &AppState) -> (r: ServerStatusEvent)
    ensures
        r == (ServerStatusEvent {
            running: state.server_running,
            connected_clients: state.connected_clients,
        }),
{
    ServerStatusEvent { running: state.server_running, connected_clients: state.connected_clients }
}

} // verus!
