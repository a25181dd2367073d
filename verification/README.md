# gamba

The server side of a bookmaker tracker: users sign in with Discord, place bets
with bookmakers and list them.

- `src/` is the library, verified with Verus: the cookie session (a map from
  keys to values), the sign-in flow's checks (CSRF state, PKCE verifier,
  signing in and out), request authentication, the errors and the responses
  they become, the configuration read from the environment, the common
  response headers, the answer to unknown routes, the site metadata and the
  checks on a bet.
- `app/` is the axum server around it: routes, middleware, the Postgres
  queries and the calls to Discord.
- `tests/` runs the library on concrete values.
