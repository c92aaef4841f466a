//! Verified core of the shared WhatsApp-Web backend: the domain types, the
//! auth and chat decision logic, the WhatsApp session state machine and the
//! error mapping. I/O (SQLite, HTTP, WebSocket, timers) lives in `app/`.

pub mod domain;
pub mod error;
pub mod text;
pub mod clock;
pub mod config;
pub mod crypto;
pub mod ids;
pub mod phone;
pub mod routes;
pub mod startup;
pub mod storage;
pub mod application;
pub mod infrastructure;
