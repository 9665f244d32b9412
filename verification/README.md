# aeroxe_backend

Backend of the AeroXe broadband ISP platform, as a verified library and a
thin server around it.

- `src/` is the library, written and proved in Verus. It holds the logic of
  the backend with its contracts: Redis cache keys, NATS subjects and event
  envelopes, the circuit breaker, RBAC permission checks, WebSocket channel
  routing, the application error mapping, the SQL of the transactional
  outbox and the dead-letter queue, the decisions of the event subscribers,
  the NATS reconnect supervisor, the Prometheus metric catalogue, and the
  decisions behind the HTTP edge (metrics access, health, rate limits, CORS).
  Laws that span several functions are public proof functions named `law_*`.
- `app/` is the server: axum routes and middleware, the JWT decoding, the
  PostgreSQL, Redis and NATS I/O, and the Prometheus registry. It hands plain
  values to the library and acts on what the library returns.
- `tests/` exercises the library on concrete values.
