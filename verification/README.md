# dchess

The verified core of a two-player chess application that keeps its data on a
distributed hash table (two "zomes": one that plays real chess on the `chess`
engine between agents, one that records moves and manages user profiles).

- `src/engine.rs` — the chess engine seen through plain values, with the
  trusted contracts of the engine calls the library makes.
- `src/chess_game.rs`, `src/game_chess.rs` — the game rules of each zome.
- `src/invitation.rs`, `src/user.rs`, `src/host.rs` — entries, entry type
  definitions, and the requests and replies exchanged with the host.
- `src/invite_flow.rs`, `src/chess_zome.rs`, `src/game_zome.rs` — each public
  zome call as a step machine: from a state and the host's reply to the next
  host request or the call's result.
- `app/` — the host glue: it performs the requests with the HDK and drives the
  step machines.
