//! The global WhatsApp session: bridging adapter events into realtime
//! events, and the QR lookup behind the pairing endpoint.

use crate::domain::events::Event;
use crate::domain::wa::WaConnState;
use crate::error::{AppError, ErrorView};
use crate::infrastructure::wa_client::WaEvent;
use crate::text::opt_view;
use vstd::prelude::*;

verus! {

/// What one receive on the adapter's event channel produced.
#[derive(Debug)]
pub enum RecvOutcome {
    Event(WaEvent),
    /// The receiver fell behind and `n` events were dropped.
    Lagged(u64),
    Closed,
}

/// What the forwarder does with a receive.
#[derive(Debug)]
pub enum ForwardAction {
    /// Publish on the realtime broadcaster; `warn_lag` marks a lag report.
    Publish { event: Event, warn_lag: bool },
    /// Nothing to publish (the chat service owns message persistence).
    Skip,
    /// The adapter is gone: stop forwarding.
    Stop,
}

/// Map one adapter receive to the forwarder's action: state changes and
/// QR updates are re-published, message and chat-meta events are left to
/// the chat service, a lag is reported as `WsLag`, a closed channel stops
/// the forwarder.
pub fn forward_step(outcome: RecvOutcome) -> (a: ForwardAction)
    ensures
        match outcome {
            RecvOutcome::Event(WaEvent::StateChanged(s)) => a == ForwardAction::Publish {
                event: Event::WaStateChange { state: s },
                warn_lag: false,
            },
            RecvOutcome::Event(WaEvent::QrUpdated(q)) => a == ForwardAction::Publish {
                event: Event::QrUpdate { qr: q },
                warn_lag: false,
            },
            RecvOutcome::Event(WaEvent::MessageReceived { .. }) => a is Skip,
            RecvOutcome::Event(WaEvent::ChatMetaUpdated { .. }) => a is Skip,
            RecvOutcome::Lagged(n) => a == ForwardAction::Publish {
                event: Event::WsLag { dropped: n },
                warn_lag: true,
            },
            RecvOutcome::Closed => a is Stop,
        },
{
    match outcome {
        RecvOutcome::Event(WaEvent::StateChanged(s)) => ForwardAction::Publish {
            event: Event::WaStateChange { state: s },
            warn_lag: false,
        },
        RecvOutcome::Event(WaEvent::QrUpdated(q)) => ForwardAction::Publish {
            event: Event::QrUpdate { qr: q },
            warn_lag: false,
        },
        RecvOutcome::Event(WaEvent::MessageReceived { .. }) => ForwardAction::Skip,
        RecvOutcome::Event(WaEvent::ChatMetaUpdated { .. }) => ForwardAction::Skip,
        RecvOutcome::Lagged(n) => ForwardAction::Publish {
            event: Event::WsLag { dropped: n },
            warn_lag: true,
        },
        RecvOutcome::Closed => ForwardAction::Stop,
    }
}

/// The pairing QR to serve: refused with a conflict once connected, not
/// found when the adapter holds none.
pub fn qr_response(state: &WaConnState, qr: Option<String>) -> (r: Result<String, AppError>)
    ensures
        *state is Connected ==> (r matches Err(e) && e@ == ErrorView::Conflict(
            "already connected"@,
        )),
        !(*state is Connected) ==> match opt_view(qr) {
            Some(q) => r matches Ok(s) && s@ == q,
            None => r matches Err(e) && e@ == ErrorView::NotFound,
        },
{
    if state.is_connected() {
        return Err(AppError::Conflict(String::from_str("already connected")));
    }
    match qr {
        Some(q) => Ok(q),
        None => Err(AppError::NotFound),
    }
}

} // verus!
