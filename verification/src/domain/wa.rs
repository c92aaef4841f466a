//! WhatsApp session-state domain.

use vstd::prelude::*;

verus! {

/// All possible states of the global WA session.
#[derive(Debug, Clone, PartialEq, Eq)]
pub enum WaConnState {
    Disconnected,
    WaitingQr,
    Connecting,
    Connected,
    LoggedOut,
    Error(String),
}

/// The short tag of a state: its variant name without payload.
pub open spec fn state_tag(s: WaConnState) -> Seq<char> {
    match s {
        WaConnState::Disconnected => "Disconnected"@,
        WaConnState::WaitingQr => "WaitingQr"@,
        WaConnState::Connecting => "Connecting"@,
        WaConnState::Connected => "Connected"@,
        WaConnState::LoggedOut => "LoggedOut"@,
        WaConnState::Error(_) => "Error"@,
    }
}

impl WaConnState {
    /// Short, DB-friendly tag (matches the serde tag without payload).
    pub fn tag(&self) -> (r: &'static str)
        ensures
            r@ == state_tag(*self),
    {
        match self {
            WaConnState::Disconnected => "Disconnected",
            WaConnState::WaitingQr => "WaitingQr",
            WaConnState::Connecting => "Connecting",
            WaConnState::Connected => "Connected",
            WaConnState::LoggedOut => "LoggedOut",
            WaConnState::Error(_) => "Error",
        }
    }

    /// An equal copy of the state.
    pub fn copied(&self) -> (r: WaConnState)
        ensures
            r == *self,
    {
        match self {
            WaConnState::Disconnected => WaConnState::Disconnected,
            WaConnState::WaitingQr => WaConnState::WaitingQr,
            WaConnState::Connecting => WaConnState::Connecting,
            WaConnState::Connected => WaConnState::Connected,
            WaConnState::LoggedOut => WaConnState::LoggedOut,
            WaConnState::Error(m) => WaConnState::Error(m.clone()),
        }
    }

    /// Whether the session is `Connected`.
    pub fn is_connected(&self) -> (r: bool)
        ensures
            r == (*self is Connected),
    {
        match self {
            WaConnState::Connected => true,
            _ => false,
        }
    }
}

/// Opaque QR payload: a raw WA pairing string or a `data:` image URL,
/// rendered as-is by the frontend.
#[derive(Debug, Clone)]
pub struct QrCode(pub String);

/// The singleton row in `wa_global_session`; times are microseconds since
/// the Unix epoch.
#[derive(Debug, Clone)]
pub struct GlobalSessionMeta {
    pub state: WaConnState,
    pub jid: Option<String>,
    pub last_qr: Option<String>,
    pub last_connected_at: Option<i64>,
    pub updated_at: i64,
}

} // verus!
