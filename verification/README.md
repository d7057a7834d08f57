# quizroom

A classroom quiz server. Teachers host quizzes and slide shows, players join by a code, and after
each item a leaderboard is shown.

- `src/` is the library, verified with Verus. Players, teachers, games, rounds and the server's state
  are state machines: each takes a command and gives back an answer and what is to be done. What
  comes from the network or from other parties is an argument; codes and ids are drawn in
  `chance.rs`, and what is done with one is a function of its own.
- `tests/` runs the library.
- `app/` is the server itself: web server, web sockets, actors, the file of activities and the
  requests to the Vortice services.

What `serde_json`, `rustrict` and `rand` do for the library is stated in `json.rs`, `names.rs` and
`chance.rs`.
