# authsystem

An OAuth 2.0 authorization server (authorization-code and refresh-token
grants) whose decisions are verified with Verus.

- `src/` is the verified library: client authentication, the one-time
  authorization-code store, refresh-token issue, redemption and rotation,
  the login and authorize steps, signing access tokens as HS256 JSON Web
  Tokens, password hashing with Argon2, settings parsing, and the laws that
  tie these together (`src/laws.rs`).
- `app/` is the web server around it: axum routes, tower-sessions, the
  Postgres queries, the environment and the HTML login page.
- `tests/` exercises the library on concrete values.
