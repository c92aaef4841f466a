//! Use cases: the magic-code auth flow, chat and message flows, the
//! WhatsApp session orchestration and the realtime fan-out decisions. Each
//! flow is a chain of verified steps; `app/` performs the I/O between them
//! and feeds each step the result.

pub mod auth_service;
pub mod chat_service;
pub mod wa_session_service;
