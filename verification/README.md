# axum_server

A user-account web service (registration, login with JSON Web Tokens,
profile reading and updating) whose logic is a library verified with Verus.

- `src/` — the verified library:
  - `text` — numerals and integer literals as `str::parse` reads them;
  - `config` — settings from environment values, the listen address, the
    logging set-up;
  - `errors` — the error type, its messages and HTTP answers;
  - `ids` — user ids as UUIDs (through the `uuid` crate);
  - `auth` — bearer tokens: reading the `Authorization` header, claims,
    signing (through `serde_json` and `jsonwebtoken`);
  - `token` — checking a request's token: its bearer header, signature and
    expiry (through `jsonwebtoken`), handing on the claims text it carries;
  - `password` — Argon2 hashing and checking (through `argon2`);
  - `models` — user records and API bodies;
  - `service` — registration, login and profile operations as flows that
    name the next user-store call and are resumed with its reply.
- `app/` — the server around it: axum routes and extractors (reading the
  claims text of a checked token with serde), the PostgreSQL
  store (sqlx), environment loading, logging, and the loops that run the
  flows against the store.
- `tests/` — tests of the library.
