# wemove

The verified core of the WeMove web application (Topcoat front end, axum API,
SQLite store through turso).

- `src/` is the library, checked by Verus: request and answer models, the
  greetings and health answer, the mapping of application errors to HTTP
  answers, the decisions of token issuing, login and registration (REST and
  web forms), decoding of `users` rows, session expiry, page messages, the
  authorization-proxy translation, configuration defaults and parsing, and
  the hexadecimal rendering of session token hashes. Password hashing
  (bcrypt), token signing (jsonwebtoken) and the system clock are reached
  through small trusted wrappers whose contracts are stated in their doc
  comments.
- `app/` is the server around it: command line and environment, the store's
  queries and schema, the axum routes and Topcoat pages, and the conversions
  to the serde/OpenAPI copies of the models.
- `tests/` exercise the library with the real outside crates.
