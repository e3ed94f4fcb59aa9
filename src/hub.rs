//! What a connected peer does with each thing that reaches it: a frame from
//! the broadcast hub, or a WebSocket message from the client.

use vstd::prelude::*;

verus! {

/// Frames a subscriber may fall behind before it skips to the newest.
pub const BROADCAST_CAPACITY: usize = 100;

/// What a subscription handed back.
#[derive(Clone, Copy, Debug, PartialEq, Eq, Structural)]
pub enum Delivery {
    /// The next frame.
    Frame,
    /// This many frames were dropped; the next receive yields the oldest kept.
    Lagged(u64),
    /// The hub is gone.
    Closed,
}

/// What the client sent.
#[derive(Clone, Copy, Debug, PartialEq, Eq, Structural)]
pub enum Inbound {
    Close,
    Ping,
    Other,
    Error,
}

/// What the peer does next.
#[derive(Clone, Copy, Debug, PartialEq, Eq, Structural)]
pub enum PeerAction {
    /// Send the frame as one binary message.
    Send,
    /// Carry on without sending.
    Continue,
    /// Tear the connection down.
    Terminate,
}

/// A frame is sent; a lag is tolerated; a closed hub ends the peer.
pub open spec fn delivery_action(d: Delivery) -> PeerAction {
    match d {
        Delivery::Frame => PeerAction::Send,
        Delivery::Lagged(_) => PeerAction::Continue,
        Delivery::Closed => PeerAction::Terminate,
    }
}

/// A close or a read error ends the peer; a ping (answered by the WebSocket
/// layer) and anything else are passed over.
pub open spec fn inbound_action(m: Inbound) -> PeerAction {
    match m {
        Inbound::Close => PeerAction::Terminate,
        Inbound::Error => PeerAction::Terminate,
        Inbound::Ping => PeerAction::Continue,
        Inbound::Other => PeerAction::Continue,
    }
}

pub fn on_delivery(d: Delivery) -> (r: PeerAction)
    ensures
        r == delivery_action(d),
{
    match d {
        Delivery::Frame => PeerAction::Send,
        Delivery::Lagged(_) => PeerAction::Continue,
        Delivery::Closed => PeerAction::Terminate,
    }
}

pub fn on_inbound(m: Inbound) -> (r: PeerAction)
    ensures
        r == inbound_action(m),
{
    match m {
        Inbound::Close => PeerAction::Terminate,
        Inbound::Error => PeerAction::Terminate,
        Inbound::Ping => PeerAction::Continue,
        Inbound::Other => PeerAction::Continue,
    }
}

} // verus!
