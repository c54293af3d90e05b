# leaderboard

The rules of a score board for runs played with a chosen set of weapon
variations, verified with Verus.

- `src/` is the library. `models::variations` turns a list of weapon names
  into a variation; `models::scores` decides whether a submitted run is a new
  high score and which ranked scores surround a player; `models::model`
  guards administrator requests with a SHA-256 password digest;
  `models::error` and the two `routes` modules decide the reply to each
  request.
- `app/` is the service around it: the Postgres queries, the HTTP routes and
  the JSON bodies.
- `tests/` runs the library on concrete requests.
