//! Decisions behind the HTTP and WebSocket endpoints that are not plain
//! service calls, and the request and response bodies of the JSON API.

pub mod auth;
pub mod chats;
pub mod health;
pub mod whatsapp;
pub mod ws;
