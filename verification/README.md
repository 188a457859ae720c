# submerge

A subscription aggregator for proxy clients: it merges several subscription
sources into named combined subscriptions and serves them as Clash, V2Ray or
Sing-box output, with an admin API guarded by a user name, a password and
session tokens.

`src/` is the verified library (Verus):

- `server/` — the decisions of the HTTP service: request checks and error
  answers (`error`, `auth`, `routes/*`), session lifetime and password
  hashing (`db`), merging the reads of the sources (`service`), the
  configuration from the environment (`config`) and which static file a
  path may serve (`web_assets`).
- `web_core/` — the admin UI's API shapes, its request error and display
  mappings.
- `web/` — the admin UI's own state machines and checks: navigation
  (`shell`), preview loading with stale answers dropped (`preview`), the
  combined subscription form (`combineds`), the other pages (`pages`) and
  the toast stack (`toast`).
- `text` — string helpers with their specifications.

`app/` is the program around it: the axum routes, SQLite, outgoing HTTP
fetches and the node parser and serializers of the project's `proxy_core`
crate.

`tests/` runs the library on concrete values.
