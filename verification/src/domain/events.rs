//! Realtime events pushed to every WebSocket subscriber.

use crate::domain::chat::Chat;
use crate::domain::message::Message;
use crate::domain::wa::WaConnState;
use vstd::prelude::*;

verus! {

/// Every event that fans out to every connected WS client (global session).
#[derive(Debug, Clone)]
pub enum Event {
    /// WA connection state transition.
    WaStateChange { state: WaConnState },
    /// Fresh QR pairing payload, emitted while WaitingQr.
    QrUpdate { qr: String },
    /// A new message landed: inbound from WA or echo of our own send.
    NewMessage { chat_id: u128, message: Message },
    /// A chat was created or renamed.
    ChatUpserted { chat: Chat },
    /// Broadcast channel lag: the client should re-fetch via REST.
    WsLag { dropped: u64 },
}

} // verus!
