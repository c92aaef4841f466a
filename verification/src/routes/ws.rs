//! The realtime WebSocket connection: authentication at upgrade time and
//! the per-connection event loop as a step function.
//!
//! Browsers cannot read the HTTP status of a failed upgrade, so an
//! unauthenticated socket is upgraded and then closed with code 4401.

use crate::domain::events::Event;
use vstd::prelude::*;

verus! {

/// Close code telling the client its session is missing or invalid.
pub const CLOSE_UNAUTHENTICATED: u16 = 4401;

/// What to do with a freshly upgraded socket.
#[derive(Debug)]
pub enum WsOpen {
    /// Subscribe to the broadcaster and serve events.
    Serve,
    /// Send a close frame with this code and reason, then drop the socket.
    Close { code: u16, reason: &'static str },
}

/// Serve authenticated sockets; close the others with 4401.
pub fn ws_open(authed: bool) -> (r: WsOpen)
    ensures
        authed ==> r is Serve,
        !authed ==> (r matches WsOpen::Close { code, reason } && code == CLOSE_UNAUTHENTICATED
            && reason@ == "unauthenticated"@),
{
    if authed {
        WsOpen::Serve
    } else {
        WsOpen::Close { code: CLOSE_UNAUTHENTICATED, reason: "unauthenticated" }
    }
}

/// One input of the connection loop: a broadcaster receive or a client
/// frame.
#[derive(Debug)]
pub enum WsInput {
    /// An event from the broadcaster.
    Event(Event),
    /// The broadcaster receiver lagged and dropped `n` events.
    Lagged(u64),
    /// The broadcaster is closed.
    BroadcastClosed,
    /// A ping frame with its payload.
    Ping(Vec<u8>),
    /// A close frame, or the end of the client stream.
    ClientClosed,
    /// A receive error on the socket.
    ClientError,
    /// Any other client frame.
    OtherFrame,
}

/// The connection loop's reaction to one input.
#[derive(Debug)]
pub enum WsAction {
    /// Send the event as a JSON text frame; stop if the send fails.
    Forward(Event),
    /// Send the event as a JSON text frame; a failed send is ignored.
    Notify(Event),
    /// Answer a ping with this payload.
    Pong(Vec<u8>),
    /// Leave the loop.
    Stop,
    /// Nothing to do.
    Continue,
}

/// The connection loop: forward events, report lag as `WsLag`, answer
/// pings, and stop when either side goes away.
pub fn ws_step(input: WsInput) -> (a: WsAction)
    ensures
        match input {
            WsInput::Event(e) => a == WsAction::Forward(e),
            WsInput::Lagged(n) => a == WsAction::Notify(Event::WsLag { dropped: n }),
            WsInput::BroadcastClosed => a is Stop,
            WsInput::Ping(p) => a == WsAction::Pong(p),
            WsInput::ClientClosed => a is Stop,
            WsInput::ClientError => a is Stop,
            WsInput::OtherFrame => a is Continue,
        },
{
    match input {
        WsInput::Event(e) => WsAction::Forward(e),
        WsInput::Lagged(n) => WsAction::Notify(Event::WsLag { dropped: n }),
        WsInput::BroadcastClosed => WsAction::Stop,
        WsInput::Ping(p) => WsAction::Pong(p),
        WsInput::ClientClosed => WsAction::Stop,
        WsInput::ClientError => WsAction::Stop,
        WsInput::OtherFrame => WsAction::Continue,
    }
}

} // verus!
