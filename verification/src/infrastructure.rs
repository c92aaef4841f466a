//! Adapter models: the WhatsApp client protocol and its deterministic stub,
//! the magic-code email transports, and the WA session file layout.

pub mod email;
pub mod session_store;
pub mod wa_client;
