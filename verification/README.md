# rust_tmpl

A small web service (user registration, login with JWT access tokens, a
profile endpoint, health checks and HTTP observability), laid out as a
verified library and a thin server around it.

- `src/` is the library, verified with Verus. Every endpoint's decisions
  (validation, password hashing and checking, token issuing and checking,
  bearer authentication, answers and their status codes), the database
  location check, the request-id, metric and logging decisions of the
  observability layer, and the configuration parsing live here, each with
  its contract.
- `app/` is the server: configuration from the environment, the SQLite pool
  and its queries, the poem routes and OpenAPI types, middleware plumbing and
  OpenTelemetry setup. It hands the library plain values and acts on what the
  library decides.
- `tests/` exercises the library with the real outside crates linked.
