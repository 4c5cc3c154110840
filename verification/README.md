# lightning_terminal

Verified core of an ESP32 Lightning payment terminal and its gateway.

- `src/` is the library, verified with Verus: the payment domain types
  (`models`), the terminal/gateway protocol (`protocol`), the terminal state
  machine (`terminal`) and its screens (`ui`), HMAC-SHA256 request
  authentication (`auth`, with `crypto` and `text` for the hashing, hex and
  decimal text it relies on), the gateway's settings (`config`), the mock
  payment provider (`provider`), the gateway's in-memory stores (`storage`),
  its error answers (`error`) and the decisions of its HTTP endpoints
  (`routes`).
- `app/` is the gateway program: reading the environment, the axum
  HTTP server, JSON encoding, logging, and drawing screens with
  `embedded-graphics`.
- `tests/` exercises the library on concrete values.
