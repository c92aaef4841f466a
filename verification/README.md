# whatsapp-web-shared-backend

Backend of a shared WhatsApp-Web clone: one global WhatsApp session, many
email-authenticated users, REST + WebSocket over Axum and SQLite.

The crate is split in two:

- `src/` is the library, verified with Verus. It holds the domain types
  (emails, JIDs, magic codes, messages, session states), the auth flow
  (code request and rate limit, code check, user upsert, session minting
  and checking), the chat flow (body validation, phone-to-chat
  resolution, outbound records, row decoding and encoding), the stub
  WhatsApp adapter as a state machine, the WebSocket and forwarder loops
  as step functions, configuration resolution and the error-to-HTTP
  mapping. Calls into `argon2`, `rand`, `hex`, `uuid`, `chrono` and
  `phonenumber` stand behind small trusted wrappers whose contracts are
  stated in their doc comments.
- `app/` is the executable around it: environment reading, the SQLite
  pool and queries, email delivery, channels and tasks, the Axum router
  and handlers, and the serde copies of the library's types.

`tests/` exercises the library from outside.
