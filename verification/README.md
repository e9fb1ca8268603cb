# Guest Place backend

The server of Guest Place: users, media uploads, translations and a
messenger with REST endpoints and WebSockets, over PostgreSQL.

The crate is in two parts.

- `src/` is the library, verified with Verus. It holds the rules and formats
  of the server: how a request's token and locale are read, how pages and
  `UPDATE` statements are built, which uploads are accepted and where they are
  stored, how chats and messages are shown, the registration e-mail, the CORS
  origins, the translation cache and lookup, the channel registries of the
  WebSockets, and the step functions that decide what the server does with a
  WebSocket message, a user registration or a translation lookup. Calls into
  `uuid`, `mime_guess`, `jsonwebtoken`, `lettre`, `argon2` and `tokio` stand
  behind small trusted wrappers whose contracts are written next to them.
- `app/` is the server around it: `axum` routing and handlers, `sqlx` queries,
  the WebSocket tasks, SMTP, and the serde and sqlx forms of the library's
  records. Where a handler waits on the database, the library's step
  functions decide the next action and the handler performs it.

`tests/` runs the library on concrete values.
