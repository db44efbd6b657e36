# fullstack_app

The verified core of a small authentication and user-data web backend
(registration, login, refresh-token rotation, password reset by email,
per-user data items), written in Verus.

- `src/` is the library, verified by Verus. It holds the token claims and
  their JSON text, the signing and checking of JWTs (through `jsonwebtoken`),
  request validation, the decisions of every request handler (including the
  refresh-token rotation as a step machine, which refuses revoked and
  expired rows), the password and reset-token rules, the check of the
  signing secret, the public text of errors, the schema migration plan, the
  route and header policy, the per-client request limiter of the
  password and mail endpoints, and the password-reset email (its token
  encoded as a URL component, its link escaped as an HTML attribute value).
- `tests/` exercises the library with concrete values.
- `app/` is the server around it: configuration from the environment, the
  SQLite database (`rusqlite`), password hashing (`argon2`), mail delivery
  (`lettre`) and the `axum` router. It follows the library's decisions and
  performs the database work they ask for, logging each authentication
  event.
