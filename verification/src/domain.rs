//! Pure domain types: users, auth codes and sessions, chats, messages,
//! WhatsApp session state and realtime events.

pub mod auth;
pub mod chat;
pub mod events;
pub mod message;
pub mod user;
pub mod wa;
