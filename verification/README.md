# stellar_fees

The core of a Stellar network fee tracking service, written in Verus.

`src/` is the verified library:

- `config` — the service configuration from command-line flags and
  `(name, value)` environment pairs, with the exact result (or error
  message) stated for every input.
- `store` — the bounded fee history window (oldest points evicted first),
  with its window law proved.
- `api::headers` — ETag, Cache-Control, Last-Modified and the
  `If-None-Match` check.
- `middleware::auth` — API-key decisions and a constant-time comparison.
- `alerts::webhook` — the retry decisions of webhook alert delivery.
- `error`, `insights` — error types with their messages and HTTP statuses,
  provider metadata, insights settings and data types.
- `services::mock_horizon` — a configurable mock fee provider.
- `text`, `timestamp` — trimming, splitting, number parsing and rendering;
  UTC instants in chrono's range.

`app/` wires the library into a service: it reads the process environment,
sets up logging and the SQLite pool, runs the axum middleware and the
webhook HTTP loop, and holds the serde and `std::error::Error` forms of the
data types, and the types that carry floating-point figures.
