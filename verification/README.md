# caliber

The coordination primitives and request-level rules of the CALIBER memory
framework, with their contracts proved.

- `src/` — the verified library: agents, memory regions, distributed locks,
  messages, delegations, handoffs and conflicts; the API's error codes,
  configuration (from environment settings), authentication and tenant
  isolation, idempotency keys, list filters, stored names, the JSON rows and
  update documents of the database functions, gRPC status mapping, rate-limit
  keys, provider routing and circuit breaking.
- `tests/` — tests of the library on concrete values.
- `app/` — the program around it: reads the environment, signs and decodes
  JWTs with `jsonwebtoken`, and serializes errors with `serde`.
