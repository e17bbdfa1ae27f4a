# auth_service

Session-based authentication on top of Discord OAuth2, with sessions in
Redis and users and provider accounts in Postgres. A login sends the browser
to Discord with a CSRF `state` and a PKCE challenge kept in Redis; the
callback accepts only that `state`, discards the OAuth tokens once the user
is known, and opens a session under a new session id in a secure, HTTP-only
cookie.

- `src/` is the verified library. Each HTTP flow (login, OAuth callback,
  `/refresh`, `/me`, `/logout`) is a chain of states: a state says what to
  read or write next, and its method takes the outcome and moves on or stops
  with the answer for the browser. Alongside: configuration checks
  (`config`), Redis key names (`keys`), refresh-token sealing with
  AES-256-GCM (`crypto`), the records (`models`), and the laws about the
  session store (`sessions`).
- `app/` is the server: environment, Redis, Postgres, the Discord HTTP calls,
  the OAuth2 token requests, serde and sqlx copies of the records, and the
  axum routes (the auth flows and the commissions routes) that drive the
  library's flows.
- `tests/` runs the library on concrete values.
