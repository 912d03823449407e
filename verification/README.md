# todo_backend

A streak-tracking todo service with staking on Solana, built around a
verified core.

- `src/` is the verified library: the streak rule of completing a todo, the
  bearer-token handling of requests, session-token claims, the JSON-RPC
  exchange that confirms a stake, the decisions of the GraphQL resolvers, the
  schema-script splitting of the database setup, and the stake program's
  resolution rule. Dates are day numbers (days from the common era) and ids
  are the 128-bit values of UUIDs.
- `app/` is the server around it: axum routes, the async-graphql schema,
  PostgreSQL access through sqlx, JWT encoding, password hashing and the
  HTTP call to the chain. Run it with `setup-db` as the first argument to
  apply the schema script instead of serving.
- `tests/` exercises the library on concrete values.
