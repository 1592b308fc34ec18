# music_api

A small service that shows what its owner plays on Spotify: a JSON data plane
(`/v1/*`) fed by background schedulers, an OAuth login for the owner, a kill
switch, and a health report.

- `src/` is the library: the rules of the service, verified with Verus. It does
  no input or output. Whatever alternates between decisions and outside work is
  a state machine; a step takes the state and what has happened, and gives the
  next state and what to do.
- `app/` is the program around it: environment, SQLite, HTTP in both
  directions, and the loops that drive the state machines.
- `tests/` runs the library on concrete values.

What the library takes on trust of other crates stands beside each call: the
random numbers of `rand` (`src/random.rs`), the calendar of `chrono` and the
clocks of the standard library (`src/time.rs`), its lossy reading of UTF-8
(`src/routes/wire.rs`), the query encoding of `url` (`src/oauth.rs`), the
reading of database URLs by `sqlx` (`src/startup.rs`), and the comparison of
`subtle` (`src/routes/auth.rs`).
